//! Extraction of move documents.

use vstd::prelude::*;
use crate::chars::lemma_concat_assoc;
use crate::error::{ErrorV, PipelineError};
use crate::extract::{all_ok, anon_st, class_st, effect_sts, Emitter, first_bad, flat_map_idx,
    flat_map_of, int_st, lemma_flat_map_idx_snoc, lemma_flat_map_snoc, link_st, link_sts,
    loc_texts, Ns, opt_int_sts, pred_iri, text_st};
use crate::ident::{AnonId, AnonSegV, wf_word};
use crate::model::{Move, MoveFlavorV, MoveMetaV, MoveStatChangeV, MoveV};
use crate::statement::{EntityRef, RefV, Statement, StatementV};
use crate::text::{dec_i64, fmt_i64, str_eq};

verus! {

/// The URLs a move extraction checks, in order.  A flavor text's version
/// group is checked only when the entry survives the locale filter.
pub open spec fn move_urls(url: Seq<char>, d: MoveV, loc: Seq<char>) -> Seq<Seq<char>> {
    seq![url, d.damage_class_url]
    + flat_map_of(d.flavor_texts, |f: MoveFlavorV| if f.locale == loc {
        seq![f.version_group_url]
    } else {
        Seq::empty()
    })
    + d.learned_by_urls
    + seq![d.generation_url]
    + flat_map_of(d.stat_changes, |c: MoveStatChangeV| seq![c.stat_url])
    + seq![d.target_url, d.type_url]
}

/// The anonymous identity of the `i`-th flavor text of move `id`.
pub open spec fn move_flavor_id(id: nat, i: int) -> Seq<AnonSegV> {
    seq![
        AnonSegV { word: "move"@, num: id },
        AnonSegV { word: "flavorText"@, num: i as nat },
    ]
}

/// The statement block of the `i`-th flavor text of a move, present
/// only in the chosen locale.
pub open spec fn move_flavor_sts(s: RefV, id: nat, i: int, f: MoveFlavorV, loc: Seq<char>)
    -> Seq<StatementV> {
    let a = move_flavor_id(id, i);
    if f.locale == loc {
        seq![
            anon_st(s, pred_iri(Ns::Poke, "flavorText"@), a),
            text_st(RefV::Anonymous(a), pred_iri(Ns::Poke, "text"@), f.text),
            link_st(RefV::Anonymous(a), pred_iri(Ns::Poke, "versionGroup"@),
                f.version_group_url),
        ]
    } else {
        Seq::empty()
    }
}

/// The statement block of the metadata of a move; the flinch chance is
/// rendered as a plain text literal.
pub open spec fn move_meta_sts(s: RefV, m: MoveMetaV) -> Seq<StatementV> {
    seq![
        text_st(s, pred_iri(Ns::Poke, "ailment"@), m.ailment_name),
        text_st(s, pred_iri(Ns::Poke, "category"@), m.category_name),
        int_st(s, pred_iri(Ns::Poke, "ailmentChance"@), m.ailment_chance),
        int_st(s, pred_iri(Ns::Poke, "drain"@), m.drain),
        int_st(s, pred_iri(Ns::Poke, "healing"@), m.healing),
        int_st(s, pred_iri(Ns::Poke, "critRate"@), m.crit_rate),
        text_st(s, pred_iri(Ns::Poke, "flinchChance"@), dec_i64(m.flinch_chance)),
        int_st(s, pred_iri(Ns::Poke, "statChance"@), m.stat_chance),
    ]
    + opt_int_sts(s, pred_iri(Ns::Poke, "minHits"@), m.min_hits)
    + opt_int_sts(s, pred_iri(Ns::Poke, "maxHits"@), m.max_hits)
    + opt_int_sts(s, pred_iri(Ns::Poke, "minTurns"@), m.min_turns)
    + opt_int_sts(s, pred_iri(Ns::Poke, "maxTurns"@), m.max_turns)
}

/// The statement block of the optional metadata of a move.
pub open spec fn opt_move_meta_sts(s: RefV, o: Option<MoveMetaV>) -> Seq<StatementV> {
    match o {
        Some(m) => move_meta_sts(s, m),
        None => Seq::empty(),
    }
}

/// The statement block of the `i`-th stat change of a move: the change
/// hangs off the stat's own named reference.
pub open spec fn move_stat_change_sts(s: RefV, c: MoveStatChangeV) -> Seq<StatementV> {
    seq![
        link_st(s, pred_iri(Ns::Poke, "statChanges"@), c.stat_url),
        text_st(RefV::Named(c.stat_url), pred_iri(Ns::Schema, "name"@), c.stat_name),
        int_st(RefV::Named(c.stat_url), pred_iri(Ns::Poke, "change"@), c.change),
    ]
}

/// The statements extracted from one move document; `name` comes from
/// the listing entry.
pub open spec fn move_sts(url: Seq<char>, name: Seq<char>, d: MoveV, loc: Seq<char>)
    -> Seq<StatementV> {
    let s = RefV::Named(url);
    seq![
        class_st(s, "Move"@),
        text_st(s, pred_iri(Ns::Schema, "name"@), name),
        int_st(s, pred_iri(Ns::Schema, "identifier"@), d.id as int),
    ]
    + opt_int_sts(s, pred_iri(Ns::Kg, "accuracy"@), d.accuracy)
    + opt_int_sts(s, pred_iri(Ns::Poke, "effectChance"@), d.effect_chance)
    + opt_int_sts(s, pred_iri(Ns::Kg, "basePowerPoints"@), d.pp)
    + seq![int_st(s, pred_iri(Ns::Poke, "priority"@), d.priority)]
    + opt_int_sts(s, pred_iri(Ns::Kg, "basePower"@), d.power)
    + seq![link_st(s, pred_iri(Ns::Poke, "damageClass"@), d.damage_class_url)]
    + effect_sts(s, pred_iri(Ns::Kg, "effectDescription"@), d.effect_entries, loc)
    + flat_map_idx(d.flavor_texts, 0,
        |i: int, f: MoveFlavorV| move_flavor_sts(s, d.id, i, f, loc))
    + link_sts(s, pred_iri(Ns::Poke, "learnedBy"@), d.learned_by_urls)
    + seq![link_st(s, pred_iri(Ns::Poke, "generation"@), d.generation_url)]
    + opt_move_meta_sts(s, d.meta)
    + loc_texts(s, pred_iri(Ns::Poke, "names"@), d.names, loc)
    + flat_map_of(d.stat_changes, |c: MoveStatChangeV| move_stat_change_sts(s, c))
    + seq![
        link_st(s, pred_iri(Ns::Poke, "target"@), d.target_url),
        link_st(s, pred_iri(Ns::Kg, "hasType"@), d.type_url),
    ]
}

/// Extracts the statements of one move.
#[verifier::loop_isolation(false)]
#[verifier::rlimit(100)]
pub fn move_to_statements(url: &str, name: &str, d: &Move, locale: &str)
    -> (r: Result<Vec<Statement>, PipelineError>)
    ensures
        r.is_ok() <==> all_ok(move_urls(url@, d.deep_view(), locale@)),
        r matches Ok(v) ==> v.deep_view() == move_sts(url@, name@, d.deep_view(), locale@),
        r matches Err(e) ==> e.deep_view()
            == ErrorV::InvalidIdentity(first_bad(move_urls(url@, d.deep_view(), locale@))),
{
    let ghost dv = d.deep_view();
    let ghost s = RefV::Named(url@);
    let (mut em, subject) = Emitter::open(url);
    em.class(&subject, "Move");
    em.lit_text(&subject, Ns::Schema, "name", name);
    em.lit_uint(&subject, Ns::Schema, "identifier", d.id);
    em.opt_int(&subject, Ns::Kg, "accuracy", &d.accuracy);
    em.opt_int(&subject, Ns::Poke, "effectChance", &d.effect_chance);
    em.opt_int(&subject, Ns::Kg, "basePowerPoints", &d.pp);
    em.lit_int(&subject, Ns::Poke, "priority", d.priority);
    em.opt_int(&subject, Ns::Kg, "basePower", &d.power);
    em.link(&subject, Ns::Poke, "damageClass", d.damage_class_url.as_str());
    em.effects(&subject, Ns::Kg, "effectDescription", &d.effect_entries, locale);
    let ghost head = seq![
        class_st(s, "Move"@),
        text_st(s, pred_iri(Ns::Schema, "name"@), name@),
        int_st(s, pred_iri(Ns::Schema, "identifier"@), dv.id as int),
    ]
    + opt_int_sts(s, pred_iri(Ns::Kg, "accuracy"@), dv.accuracy)
    + opt_int_sts(s, pred_iri(Ns::Poke, "effectChance"@), dv.effect_chance)
    + opt_int_sts(s, pred_iri(Ns::Kg, "basePowerPoints"@), dv.pp)
    + seq![int_st(s, pred_iri(Ns::Poke, "priority"@), dv.priority)]
    + opt_int_sts(s, pred_iri(Ns::Kg, "basePower"@), dv.power)
    + seq![link_st(s, pred_iri(Ns::Poke, "damageClass"@), dv.damage_class_url)]
    + effect_sts(s, pred_iri(Ns::Kg, "effectDescription"@), dv.effect_entries, locale@);
    let ghost head_urls = seq![url@, dv.damage_class_url];
    proof {
        assert(em.urls_view() =~= head_urls);
        if em.ok() {
            assert(em.out_view() =~= seq![
                class_st(s, "Move"@),
                text_st(s, pred_iri(Ns::Schema, "name"@), name@),
                int_st(s, pred_iri(Ns::Schema, "identifier"@), dv.id as int),
            ]
            + opt_int_sts(s, pred_iri(Ns::Kg, "accuracy"@), dv.accuracy)
            + opt_int_sts(s, pred_iri(Ns::Poke, "effectChance"@), dv.effect_chance)
            + opt_int_sts(s, pred_iri(Ns::Kg, "basePowerPoints"@), dv.pp)
            + seq![int_st(s, pred_iri(Ns::Poke, "priority"@), dv.priority)]
            + opt_int_sts(s, pred_iri(Ns::Kg, "basePower"@), dv.power)
            + seq![link_st(s, pred_iri(Ns::Poke, "damageClass"@), dv.damage_class_url)]
            + effect_sts(s, pred_iri(Ns::Kg, "effectDescription"@), dv.effect_entries,
                locale@));
        }
        reveal_strlit("move");
        reveal_strlit("flavorText");
        assert(wf_word("move"@));
        assert(wf_word("flavorText"@));
    }
    let root = AnonId::root("move", d.id);
    let ghost fu = |f: MoveFlavorV| if f.locale == locale@ {
        seq![f.version_group_url]
    } else {
        Seq::<Seq<char>>::empty()
    };
    let ghost fs = |i: int, f: MoveFlavorV| move_flavor_sts(s, dv.id, i, f, locale@);
    let n1 = d.flavor_texts.len();
    let mut i: usize = 0;
    while i < n1
        invariant
            em.wf(),
            n1 == d.flavor_texts.len(),
            i <= n1,
            em.urls_view() == head_urls
                + flat_map_of(d.flavor_texts.deep_view().take(i as int), fu),
            em.ok() ==> em.out_view() == head
                + flat_map_idx(d.flavor_texts.deep_view().take(i as int), 0, fs),
        decreases n1 - i,
    {
        let ghost pre_urls = em.urls_view();
        let ghost pre_out = em.out_view();
        let f = &d.flavor_texts[i];
        if str_eq(f.locale.as_str(), locale) {
            let fid = root.child("flavorText", i as u64);
            proof {
                assert(fid.deep_view() =~= move_flavor_id(dv.id, i as int));
            }
            em.anon_obj(&subject, Ns::Poke, "flavorText", &fid);
            let fref = EntityRef::Anonymous(fid);
            em.lit_text(&fref, Ns::Poke, "text", f.text.as_str());
            em.link(&fref, Ns::Poke, "versionGroup", f.version_group_url.as_str());
        }
        proof {
            let fv = d.flavor_texts.deep_view();
            assert(fv.take(i + 1 as int) =~= fv.take(i as int).push(fv[i as int]));
            lemma_flat_map_snoc(fv.take(i as int), fv[i as int], fu);
            lemma_concat_assoc(head_urls, flat_map_of(fv.take(i as int), fu), fu(fv[i as int]));
            lemma_flat_map_idx_snoc(fv.take(i as int), 0, fv[i as int], fs);
            lemma_concat_assoc(head, flat_map_idx(fv.take(i as int), 0, fs),
                fs(i as int, fv[i as int]));
            if fv[i as int].locale == locale@ {
                assert(pre_urls + seq![dv.flavor_texts[i as int].version_group_url]
                    =~= pre_urls + fu(fv[i as int]));
            } else {
                assert(pre_urls + fu(fv[i as int]) =~= pre_urls);
            }
            assert(em.urls_view() =~= head_urls + flat_map_of(fv.take(i + 1 as int), fu));
            if em.ok() {
                let a = move_flavor_id(dv.id, i as int);
                if fv[i as int].locale == locale@ {
                    assert(em.out_view() =~= pre_out + seq![
                        anon_st(s, pred_iri(Ns::Poke, "flavorText"@), a),
                        text_st(RefV::Anonymous(a), pred_iri(Ns::Poke, "text"@),
                            fv[i as int].text),
                        link_st(RefV::Anonymous(a), pred_iri(Ns::Poke, "versionGroup"@),
                            fv[i as int].version_group_url),
                    ]);
                } else {
                    assert(em.out_view() =~= pre_out + fs(i as int, fv[i as int]));
                }
                assert(em.out_view() =~= head + flat_map_idx(fv.take(i + 1 as int), 0, fs));
            }
        }
        i = i + 1;
    }
    let ghost urls1 = head_urls + flat_map_of(dv.flavor_texts, fu);
    let ghost out1 = head + flat_map_idx(dv.flavor_texts, 0, fs);
    proof {
        assert(d.flavor_texts.deep_view().take(n1 as int) =~= d.flavor_texts.deep_view());
    }
    em.links(&subject, Ns::Poke, "learnedBy", &d.learned_by_urls);
    em.link(&subject, Ns::Poke, "generation", d.generation_url.as_str());
    let ghost urls2 = urls1 + dv.learned_by_urls + seq![dv.generation_url];
    let ghost out2 = out1 + link_sts(s, pred_iri(Ns::Poke, "learnedBy"@), dv.learned_by_urls)
        + seq![link_st(s, pred_iri(Ns::Poke, "generation"@), dv.generation_url)];
    let ghost pre_meta = em.out_view();
    match &d.meta {
        Some(m) => {
            em.lit_text(&subject, Ns::Poke, "ailment", m.ailment_name.as_str());
            em.lit_text(&subject, Ns::Poke, "category", m.category_name.as_str());
            em.lit_int(&subject, Ns::Poke, "ailmentChance", m.ailment_chance);
            em.lit_int(&subject, Ns::Poke, "drain", m.drain);
            em.lit_int(&subject, Ns::Poke, "healing", m.healing);
            em.lit_int(&subject, Ns::Poke, "critRate", m.crit_rate);
            let flinch = fmt_i64(m.flinch_chance);
            em.lit_text(&subject, Ns::Poke, "flinchChance", flinch.as_str());
            em.lit_int(&subject, Ns::Poke, "statChance", m.stat_chance);
            em.opt_int(&subject, Ns::Poke, "minHits", &m.min_hits);
            em.opt_int(&subject, Ns::Poke, "maxHits", &m.max_hits);
            em.opt_int(&subject, Ns::Poke, "minTurns", &m.min_turns);
            em.opt_int(&subject, Ns::Poke, "maxTurns", &m.max_turns);
            proof {
                let mv = m.deep_view();
                if em.ok() {
                    assert(em.out_view() =~= pre_meta + seq![
                        text_st(s, pred_iri(Ns::Poke, "ailment"@), mv.ailment_name),
                        text_st(s, pred_iri(Ns::Poke, "category"@), mv.category_name),
                        int_st(s, pred_iri(Ns::Poke, "ailmentChance"@), mv.ailment_chance),
                        int_st(s, pred_iri(Ns::Poke, "drain"@), mv.drain),
                        int_st(s, pred_iri(Ns::Poke, "healing"@), mv.healing),
                        int_st(s, pred_iri(Ns::Poke, "critRate"@), mv.crit_rate),
                        text_st(s, pred_iri(Ns::Poke, "flinchChance"@),
                            dec_i64(mv.flinch_chance)),
                        int_st(s, pred_iri(Ns::Poke, "statChance"@), mv.stat_chance),
                    ]
                    + opt_int_sts(s, pred_iri(Ns::Poke, "minHits"@), mv.min_hits)
                    + opt_int_sts(s, pred_iri(Ns::Poke, "maxHits"@), mv.max_hits)
                    + opt_int_sts(s, pred_iri(Ns::Poke, "minTurns"@), mv.min_turns)
                    + opt_int_sts(s, pred_iri(Ns::Poke, "maxTurns"@), mv.max_turns));
                    assert(em.out_view() =~= pre_meta + opt_move_meta_sts(s, dv.meta));
                }
            }
        }
        None => {
            proof {
                if em.ok() {
                    assert(em.out_view() =~= pre_meta + opt_move_meta_sts(s, dv.meta));
                }
            }
        }
    }
    em.texts(&subject, Ns::Poke, "names", &d.names, locale);
    let ghost out3 = out2 + opt_move_meta_sts(s, dv.meta)
        + loc_texts(s, pred_iri(Ns::Poke, "names"@), dv.names, locale@);
    let ghost cu = |c: MoveStatChangeV| seq![c.stat_url];
    let ghost cs = |c: MoveStatChangeV| move_stat_change_sts(s, c);
    let n2 = d.stat_changes.len();
    let mut j: usize = 0;
    while j < n2
        invariant
            em.wf(),
            n2 == d.stat_changes.len(),
            j <= n2,
            em.urls_view() == urls2
                + flat_map_of(d.stat_changes.deep_view().take(j as int), cu),
            em.ok() ==> em.out_view() == out3
                + flat_map_of(d.stat_changes.deep_view().take(j as int), cs),
        decreases n2 - j,
    {
        let ghost pre_urls = em.urls_view();
        let ghost pre_out = em.out_view();
        let c = &d.stat_changes[j];
        em.link(&subject, Ns::Poke, "statChanges", c.stat_url.as_str());
        let stat_ref = EntityRef::Named(String::from_str(c.stat_url.as_str()));
        em.lit_text(&stat_ref, Ns::Schema, "name", c.stat_name.as_str());
        em.lit_int(&stat_ref, Ns::Poke, "change", c.change);
        proof {
            let cv = d.stat_changes.deep_view();
            assert(cv.take(j + 1 as int) =~= cv.take(j as int).push(cv[j as int]));
            lemma_flat_map_snoc(cv.take(j as int), cv[j as int], cu);
            lemma_concat_assoc(urls2, flat_map_of(cv.take(j as int), cu), cu(cv[j as int]));
            assert(pre_urls + seq![dv.stat_changes[j as int].stat_url] =~= pre_urls
                + cu(cv[j as int]));
            assert(em.urls_view() =~= urls2 + flat_map_of(cv.take(j + 1 as int), cu));
            if em.ok() {
                lemma_flat_map_snoc(cv.take(j as int), cv[j as int], cs);
                lemma_concat_assoc(out3, flat_map_of(cv.take(j as int), cs), cs(cv[j as int]));
                assert(em.out_view() =~= pre_out + seq![
                    link_st(s, pred_iri(Ns::Poke, "statChanges"@), cv[j as int].stat_url),
                    text_st(RefV::Named(cv[j as int].stat_url),
                        pred_iri(Ns::Schema, "name"@), cv[j as int].stat_name),
                    int_st(RefV::Named(cv[j as int].stat_url),
                        pred_iri(Ns::Poke, "change"@), cv[j as int].change),
                ]);
                assert(em.out_view() =~= out3 + flat_map_of(cv.take(j + 1 as int), cs));
            }
        }
        j = j + 1;
    }
    proof {
        assert(d.stat_changes.deep_view().take(n2 as int) =~= d.stat_changes.deep_view());
    }
    let ghost pre_tail_urls = em.urls_view();
    let ghost pre_tail = em.out_view();
    em.link(&subject, Ns::Poke, "target", d.target_url.as_str());
    em.link(&subject, Ns::Kg, "hasType", d.type_url.as_str());
    proof {
        lemma_concat_assoc(pre_tail_urls, seq![dv.target_url], seq![dv.type_url]);
        assert(seq![dv.target_url] + seq![dv.type_url] =~= seq![dv.target_url, dv.type_url]);
        assert(em.urls_view() == move_urls(url@, dv, locale@));
        if em.ok() {
            lemma_concat_assoc(pre_tail,
                seq![link_st(s, pred_iri(Ns::Poke, "target"@), dv.target_url)],
                seq![link_st(s, pred_iri(Ns::Kg, "hasType"@), dv.type_url)]);
            assert(seq![link_st(s, pred_iri(Ns::Poke, "target"@), dv.target_url)]
                + seq![link_st(s, pred_iri(Ns::Kg, "hasType"@), dv.type_url)]
                =~= seq![
                    link_st(s, pred_iri(Ns::Poke, "target"@), dv.target_url),
                    link_st(s, pred_iri(Ns::Kg, "hasType"@), dv.type_url),
                ]);
            assert(em.out_view() == move_sts(url@, name@, dv, locale@));
        }
    }
    em.finish()
}

} // verus!
