//! Extraction of stat documents.

use vstd::prelude::*;
use crate::chars::lemma_concat_assoc;
use crate::error::{ErrorV, PipelineError};
use crate::extract::{all_ok, anon_st, bool_st, class_st, Emitter, first_bad, flat_map_idx,
    flat_map_of, int_st, lemma_flat_map_idx_snoc, lemma_flat_map_snoc, link_st, link_sts,
    loc_texts, Ns, opt_link_sts, opt_url, pred_iri, text_st};
use crate::ident::{AnonId, AnonSegV, wf_word};
use crate::model::{MoveChangeV, Stat, StatV};
use crate::statement::{EntityRef, RefV, Statement, StatementV};

verus! {

/// The URLs a stat extraction checks, in order.
pub open spec fn stat_urls(url: Seq<char>, d: StatV) -> Seq<Seq<char>> {
    seq![url]
    + flat_map_of(d.moves_decrease, |m: MoveChangeV| seq![m.move_url])
    + flat_map_of(d.moves_increase, |m: MoveChangeV| seq![m.move_url])
    + d.natures_increase
    + d.natures_decrease
    + d.characteristic_urls
    + opt_url(d.move_damage_class_url)
}

/// The anonymous identity of the `i`-th stat-affecting move under the
/// field `word` of stat `id`.
pub open spec fn stat_move_id(id: nat, word: Seq<char>, i: int) -> Seq<AnonSegV> {
    seq![
        AnonSegV { word: "stat"@, num: id },
        AnonSegV { word: word, num: i as nat },
    ]
}

/// The statement block of one stat-affecting move.
pub open spec fn stat_move_sts(s: RefV, id: nat, word: Seq<char>, i: int, m: MoveChangeV)
    -> Seq<StatementV> {
    let a = stat_move_id(id, word, i);
    seq![
        anon_st(s, pred_iri(Ns::Poke, word), a),
        int_st(RefV::Anonymous(a), pred_iri(Ns::Poke, "change"@), m.change),
        link_st(RefV::Anonymous(a), pred_iri(Ns::Poke, "move"@), m.move_url),
    ]
}

/// The statements extracted from one stat document.
pub open spec fn stat_sts(url: Seq<char>, d: StatV, loc: Seq<char>) -> Seq<StatementV> {
    let s = RefV::Named(url);
    seq![
        class_st(s, "Stat"@),
        int_st(s, pred_iri(Ns::Schema, "identifier"@), d.id as int),
        text_st(s, pred_iri(Ns::Schema, "name"@), d.name),
    ]
    + flat_map_idx(d.moves_decrease, 0,
        |i: int, m: MoveChangeV| stat_move_sts(s, d.id, "decreasedByMove"@, i, m))
    + flat_map_idx(d.moves_increase, 0,
        |i: int, m: MoveChangeV| stat_move_sts(s, d.id, "increasedByMove"@, i, m))
    + link_sts(s, pred_iri(Ns::Poke, "increasedByNature"@), d.natures_increase)
    + link_sts(s, pred_iri(Ns::Poke, "decreasedByNature"@), d.natures_decrease)
    + link_sts(s, pred_iri(Ns::Poke, "hasCharacteristic"@), d.characteristic_urls)
    + seq![
        int_st(s, pred_iri(Ns::Poke, "gameIndex"@), d.game_index),
        bool_st(s, pred_iri(Ns::Poke, "isBattleOnly"@), d.is_battle_only),
    ]
    + opt_link_sts(s, pred_iri(Ns::Poke, "moveDamageClass"@), d.move_damage_class_url)
    + loc_texts(s, pred_iri(Ns::Poke, "names"@), d.names, loc)
}

/// Extracts the statements of one stat.
#[verifier::loop_isolation(false)]
pub fn stat_to_statements(url: &str, d: &Stat, locale: &str)
    -> (r: Result<Vec<Statement>, PipelineError>)
    ensures
        r.is_ok() <==> all_ok(stat_urls(url@, d.deep_view())),
        r matches Ok(v) ==> v.deep_view() == stat_sts(url@, d.deep_view(), locale@),
        r matches Err(e) ==> e.deep_view()
            == ErrorV::InvalidIdentity(first_bad(stat_urls(url@, d.deep_view()))),
{
    let ghost dv = d.deep_view();
    let ghost s = RefV::Named(url@);
    let (mut em, subject) = Emitter::open(url);
    em.class(&subject, "Stat");
    em.lit_uint(&subject, Ns::Schema, "identifier", d.id);
    em.lit_text(&subject, Ns::Schema, "name", d.name.as_str());
    let ghost head = seq![
        class_st(s, "Stat"@),
        int_st(s, pred_iri(Ns::Schema, "identifier"@), dv.id as int),
        text_st(s, pred_iri(Ns::Schema, "name"@), dv.name),
    ];
    let ghost head_urls = seq![url@];
    proof {
        assert(em.urls_view() =~= head_urls);
        if em.ok() {
            assert(em.out_view() =~= head);
        }
        reveal_strlit("stat");
        reveal_strlit("decreasedByMove");
        reveal_strlit("increasedByMove");
        assert(wf_word("stat"@));
        assert(wf_word("decreasedByMove"@));
        assert(wf_word("increasedByMove"@));
    }
    let root = AnonId::root("stat", d.id);
    let ghost mu = |m: MoveChangeV| seq![m.move_url];
    let ghost ds = |i: int, m: MoveChangeV| stat_move_sts(s, dv.id, "decreasedByMove"@, i, m);
    let n = d.moves_decrease.len();
    let mut i: usize = 0;
    while i < n
        invariant
            em.wf(),
            n == d.moves_decrease.len(),
            i <= n,
            em.urls_view() == head_urls
                + flat_map_of(d.moves_decrease.deep_view().take(i as int), mu),
            em.ok() ==> em.out_view() == head
                + flat_map_idx(d.moves_decrease.deep_view().take(i as int), 0, ds),
        decreases n - i,
    {
        let ghost pre_urls = em.urls_view();
        let ghost pre_out = em.out_view();
        let m = &d.moves_decrease[i];
        let mid = root.child("decreasedByMove", i as u64);
        proof {
            assert(mid.deep_view() =~= stat_move_id(dv.id, "decreasedByMove"@, i as int));
        }
        em.anon_obj(&subject, Ns::Poke, "decreasedByMove", &mid);
        let mref = EntityRef::Anonymous(mid);
        em.lit_int(&mref, Ns::Poke, "change", m.change);
        em.link(&mref, Ns::Poke, "move", m.move_url.as_str());
        proof {
            let mv = d.moves_decrease.deep_view();
            assert(mv.take(i + 1 as int) =~= mv.take(i as int).push(mv[i as int]));
            lemma_flat_map_snoc(mv.take(i as int), mv[i as int], mu);
            lemma_concat_assoc(head_urls, flat_map_of(mv.take(i as int), mu), mu(mv[i as int]));
            assert(pre_urls + seq![dv.moves_decrease[i as int].move_url] =~= pre_urls
                + mu(mv[i as int]));
            assert(em.urls_view() =~= head_urls + flat_map_of(mv.take(i + 1 as int), mu));
            if em.ok() {
                lemma_flat_map_idx_snoc(mv.take(i as int), 0, mv[i as int], ds);
                lemma_concat_assoc(head, flat_map_idx(mv.take(i as int), 0, ds),
                    ds(i as int, mv[i as int]));
                let a = stat_move_id(dv.id, "decreasedByMove"@, i as int);
                assert(em.out_view() =~= pre_out + seq![
                    anon_st(s, pred_iri(Ns::Poke, "decreasedByMove"@), a),
                    int_st(RefV::Anonymous(a), pred_iri(Ns::Poke, "change"@),
                        mv[i as int].change),
                    link_st(RefV::Anonymous(a), pred_iri(Ns::Poke, "move"@),
                        mv[i as int].move_url),
                ]);
                assert(em.out_view() =~= head + flat_map_idx(mv.take(i + 1 as int), 0, ds));
            }
        }
        i = i + 1;
    }
    let ghost mid_urls = head_urls + flat_map_of(dv.moves_decrease, mu);
    let ghost mid_out = head + flat_map_idx(dv.moves_decrease, 0, ds);
    proof {
        assert(d.moves_decrease.deep_view().take(n as int) =~= d.moves_decrease.deep_view());
    }
    let ghost is = |i: int, m: MoveChangeV| stat_move_sts(s, dv.id, "increasedByMove"@, i, m);
    let m2 = d.moves_increase.len();
    let mut j: usize = 0;
    while j < m2
        invariant
            em.wf(),
            m2 == d.moves_increase.len(),
            j <= m2,
            em.urls_view() == mid_urls
                + flat_map_of(d.moves_increase.deep_view().take(j as int), mu),
            em.ok() ==> em.out_view() == mid_out
                + flat_map_idx(d.moves_increase.deep_view().take(j as int), 0, is),
        decreases m2 - j,
    {
        let ghost pre_urls = em.urls_view();
        let ghost pre_out = em.out_view();
        let m = &d.moves_increase[j];
        let mid = root.child("increasedByMove", j as u64);
        proof {
            assert(mid.deep_view() =~= stat_move_id(dv.id, "increasedByMove"@, j as int));
        }
        em.anon_obj(&subject, Ns::Poke, "increasedByMove", &mid);
        let mref = EntityRef::Anonymous(mid);
        em.lit_int(&mref, Ns::Poke, "change", m.change);
        em.link(&mref, Ns::Poke, "move", m.move_url.as_str());
        proof {
            let mv = d.moves_increase.deep_view();
            assert(mv.take(j + 1 as int) =~= mv.take(j as int).push(mv[j as int]));
            lemma_flat_map_snoc(mv.take(j as int), mv[j as int], mu);
            lemma_concat_assoc(mid_urls, flat_map_of(mv.take(j as int), mu), mu(mv[j as int]));
            assert(pre_urls + seq![dv.moves_increase[j as int].move_url] =~= pre_urls
                + mu(mv[j as int]));
            assert(em.urls_view() =~= mid_urls + flat_map_of(mv.take(j + 1 as int), mu));
            if em.ok() {
                lemma_flat_map_idx_snoc(mv.take(j as int), 0, mv[j as int], is);
                lemma_concat_assoc(mid_out, flat_map_idx(mv.take(j as int), 0, is),
                    is(j as int, mv[j as int]));
                let a = stat_move_id(dv.id, "increasedByMove"@, j as int);
                assert(em.out_view() =~= pre_out + seq![
                    anon_st(s, pred_iri(Ns::Poke, "increasedByMove"@), a),
                    int_st(RefV::Anonymous(a), pred_iri(Ns::Poke, "change"@),
                        mv[j as int].change),
                    link_st(RefV::Anonymous(a), pred_iri(Ns::Poke, "move"@),
                        mv[j as int].move_url),
                ]);
                assert(em.out_view() =~= mid_out + flat_map_idx(mv.take(j + 1 as int), 0, is));
            }
        }
        j = j + 1;
    }
    proof {
        assert(d.moves_increase.deep_view().take(m2 as int) =~= d.moves_increase.deep_view());
    }
    em.links(&subject, Ns::Poke, "increasedByNature", &d.natures_increase);
    em.links(&subject, Ns::Poke, "decreasedByNature", &d.natures_decrease);
    em.links(&subject, Ns::Poke, "hasCharacteristic", &d.characteristic_urls);
    let ghost pre_tail = em.out_view();
    em.lit_int(&subject, Ns::Poke, "gameIndex", d.game_index);
    em.lit_bool(&subject, Ns::Poke, "isBattleOnly", d.is_battle_only);
    proof {
        if em.ok() {
            lemma_concat_assoc(pre_tail,
                seq![int_st(s, pred_iri(Ns::Poke, "gameIndex"@), dv.game_index)],
                seq![bool_st(s, pred_iri(Ns::Poke, "isBattleOnly"@), dv.is_battle_only)]);
            assert(seq![int_st(s, pred_iri(Ns::Poke, "gameIndex"@), dv.game_index)]
                + seq![bool_st(s, pred_iri(Ns::Poke, "isBattleOnly"@), dv.is_battle_only)]
                =~= seq![
                    int_st(s, pred_iri(Ns::Poke, "gameIndex"@), dv.game_index),
                    bool_st(s, pred_iri(Ns::Poke, "isBattleOnly"@), dv.is_battle_only),
                ]);
        }
    }
    em.opt_link(&subject, Ns::Poke, "moveDamageClass", &d.move_damage_class_url);
    em.texts(&subject, Ns::Poke, "names", &d.names, locale);
    proof {
        assert(em.urls_view() == stat_urls(url@, dv));
        if em.ok() {
            assert(em.out_view() == stat_sts(url@, dv, locale@));
        }
    }
    em.finish()
}

} // verus!
