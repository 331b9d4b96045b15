//! Extraction of nature documents.

use vstd::prelude::*;
use crate::chars::lemma_concat_assoc;
use crate::error::{ErrorV, PipelineError};
use crate::extract::{all_ok, anon_st, class_st, Emitter, first_bad, flat_map_idx, flat_map_of,
    int_st, lemma_flat_map_idx_snoc, lemma_flat_map_snoc, link_st, loc_texts, Ns,
    opt_link_sts, opt_url, pred_iri, text_st};
use crate::ident::{AnonId, AnonSegV, wf_word};
use crate::model::{BattlePrefV, Nature, NatureV, StatChangeEntryV};
use crate::statement::{EntityRef, RefV, Statement, StatementV};

verus! {

/// The URLs a nature extraction checks, in order.
pub open spec fn nature_urls(url: Seq<char>, d: NatureV) -> Seq<Seq<char>> {
    seq![url]
    + opt_url(d.decreased_stat_url)
    + opt_url(d.increased_stat_url)
    + opt_url(d.hates_flavor_url)
    + opt_url(d.likes_flavor_url)
    + flat_map_of(d.battle_prefs, |p: BattlePrefV| seq![p.style_url])
    + flat_map_of(d.pokeathlon_changes, |c: StatChangeEntryV| seq![c.stat_url])
}

/// The anonymous identity of the `i`-th battle-style preference of
/// nature `id`.
pub open spec fn battle_pref_id(id: nat, i: int) -> Seq<AnonSegV> {
    seq![
        AnonSegV { word: "nature"@, num: id },
        AnonSegV { word: "battlestylepreference"@, num: i as nat },
    ]
}

/// The statement block of the `i`-th battle-style preference of a
/// nature.
pub open spec fn battle_pref_sts(s: RefV, id: nat, i: int, p: BattlePrefV) -> Seq<StatementV> {
    let a = battle_pref_id(id, i);
    seq![
        anon_st(s, pred_iri(Ns::Poke, "hasMoveBattleStylePreference"@), a),
        int_st(RefV::Anonymous(a), pred_iri(Ns::Poke, "lowHpPreference"@), p.low_hp),
        int_st(RefV::Anonymous(a), pred_iri(Ns::Poke, "highHpPreference"@), p.high_hp),
        link_st(RefV::Anonymous(a), pred_iri(Ns::Poke, "moveBattleStyle"@), p.style_url),
    ]
}

/// The anonymous identity of the `i`-th pokeathlon stat change of
/// nature `id`.
pub open spec fn pokeathlon_change_id(id: nat, i: int) -> Seq<AnonSegV> {
    seq![
        AnonSegV { word: "nature"@, num: id },
        AnonSegV { word: "pokeathlonstatchange"@, num: i as nat },
    ]
}

/// The statement block of the `i`-th pokeathlon stat change of a nature.
pub open spec fn pokeathlon_change_sts(s: RefV, id: nat, i: int, c: StatChangeEntryV)
    -> Seq<StatementV> {
    let a = pokeathlon_change_id(id, i);
    seq![
        anon_st(s, pred_iri(Ns::Poke, "hasPokeathlonStatChange"@), a),
        int_st(RefV::Anonymous(a), pred_iri(Ns::Poke, "maxChange"@), c.max_change),
        link_st(RefV::Anonymous(a), pred_iri(Ns::Poke, "pokeathlonStat"@), c.stat_url),
    ]
}

/// The statements extracted from one nature document.
pub open spec fn nature_sts(url: Seq<char>, d: NatureV, loc: Seq<char>) -> Seq<StatementV> {
    let s = RefV::Named(url);
    seq![
        class_st(s, "Nature"@),
        int_st(s, pred_iri(Ns::Schema, "identifier"@), d.id as int),
        text_st(s, pred_iri(Ns::Schema, "name"@), d.name),
    ]
    + opt_link_sts(s, pred_iri(Ns::Poke, "decreasedStat"@), d.decreased_stat_url)
    + opt_link_sts(s, pred_iri(Ns::Poke, "increasedStat"@), d.increased_stat_url)
    + opt_link_sts(s, pred_iri(Ns::Poke, "hatesFlavor"@), d.hates_flavor_url)
    + opt_link_sts(s, pred_iri(Ns::Poke, "likesFlavor"@), d.likes_flavor_url)
    + flat_map_idx(d.battle_prefs, 0, |i: int, p: BattlePrefV| battle_pref_sts(s, d.id, i, p))
    + flat_map_idx(d.pokeathlon_changes, 0,
        |i: int, c: StatChangeEntryV| pokeathlon_change_sts(s, d.id, i, c))
    + loc_texts(s, pred_iri(Ns::Poke, "names"@), d.names, loc)
}

/// Extracts the statements of one nature.
#[verifier::loop_isolation(false)]
pub fn nature_to_statements(url: &str, d: &Nature, locale: &str)
    -> (r: Result<Vec<Statement>, PipelineError>)
    ensures
        r.is_ok() <==> all_ok(nature_urls(url@, d.deep_view())),
        r matches Ok(v) ==> v.deep_view() == nature_sts(url@, d.deep_view(), locale@),
        r matches Err(e) ==> e.deep_view()
            == ErrorV::InvalidIdentity(first_bad(nature_urls(url@, d.deep_view()))),
{
    let ghost dv = d.deep_view();
    let ghost s = RefV::Named(url@);
    let (mut em, subject) = Emitter::open(url);
    em.class(&subject, "Nature");
    em.lit_uint(&subject, Ns::Schema, "identifier", d.id);
    em.lit_text(&subject, Ns::Schema, "name", d.name.as_str());
    em.opt_link(&subject, Ns::Poke, "decreasedStat", &d.decreased_stat_url);
    em.opt_link(&subject, Ns::Poke, "increasedStat", &d.increased_stat_url);
    em.opt_link(&subject, Ns::Poke, "hatesFlavor", &d.hates_flavor_url);
    em.opt_link(&subject, Ns::Poke, "likesFlavor", &d.likes_flavor_url);
    let ghost head = seq![
        class_st(s, "Nature"@),
        int_st(s, pred_iri(Ns::Schema, "identifier"@), dv.id as int),
        text_st(s, pred_iri(Ns::Schema, "name"@), dv.name),
    ]
    + opt_link_sts(s, pred_iri(Ns::Poke, "decreasedStat"@), dv.decreased_stat_url)
    + opt_link_sts(s, pred_iri(Ns::Poke, "increasedStat"@), dv.increased_stat_url)
    + opt_link_sts(s, pred_iri(Ns::Poke, "hatesFlavor"@), dv.hates_flavor_url)
    + opt_link_sts(s, pred_iri(Ns::Poke, "likesFlavor"@), dv.likes_flavor_url);
    let ghost head_urls = seq![url@] + opt_url(dv.decreased_stat_url)
        + opt_url(dv.increased_stat_url) + opt_url(dv.hates_flavor_url)
        + opt_url(dv.likes_flavor_url);
    proof {
        assert(em.urls_view() == head_urls);
        if em.ok() {
            assert(em.out_view() =~= seq![
                class_st(s, "Nature"@),
                int_st(s, pred_iri(Ns::Schema, "identifier"@), dv.id as int),
                text_st(s, pred_iri(Ns::Schema, "name"@), dv.name),
            ]
            + opt_link_sts(s, pred_iri(Ns::Poke, "decreasedStat"@), dv.decreased_stat_url)
            + opt_link_sts(s, pred_iri(Ns::Poke, "increasedStat"@), dv.increased_stat_url)
            + opt_link_sts(s, pred_iri(Ns::Poke, "hatesFlavor"@), dv.hates_flavor_url)
            + opt_link_sts(s, pred_iri(Ns::Poke, "likesFlavor"@), dv.likes_flavor_url));
        }
        reveal_strlit("nature");
        reveal_strlit("battlestylepreference");
        reveal_strlit("pokeathlonstatchange");
        assert(wf_word("nature"@));
        assert(wf_word("battlestylepreference"@));
        assert(wf_word("pokeathlonstatchange"@));
    }
    let root = AnonId::root("nature", d.id);
    let ghost pu = |p: BattlePrefV| seq![p.style_url];
    let ghost ps = |i: int, p: BattlePrefV| battle_pref_sts(s, dv.id, i, p);
    let n = d.battle_prefs.len();
    let mut i: usize = 0;
    while i < n
        invariant
            em.wf(),
            n == d.battle_prefs.len(),
            i <= n,
            em.urls_view() == head_urls
                + flat_map_of(d.battle_prefs.deep_view().take(i as int), pu),
            em.ok() ==> em.out_view() == head
                + flat_map_idx(d.battle_prefs.deep_view().take(i as int), 0, ps),
        decreases n - i,
    {
        let ghost pre_urls = em.urls_view();
        let ghost pre_out = em.out_view();
        let p = &d.battle_prefs[i];
        let pid = root.child("battlestylepreference", i as u64);
        proof {
            assert(pid.deep_view() =~= battle_pref_id(dv.id, i as int));
        }
        em.anon_obj(&subject, Ns::Poke, "hasMoveBattleStylePreference", &pid);
        let pref = EntityRef::Anonymous(pid);
        em.lit_int(&pref, Ns::Poke, "lowHpPreference", p.low_hp);
        em.lit_int(&pref, Ns::Poke, "highHpPreference", p.high_hp);
        em.link(&pref, Ns::Poke, "moveBattleStyle", p.style_url.as_str());
        proof {
            let pv = d.battle_prefs.deep_view();
            assert(pv.take(i + 1 as int) =~= pv.take(i as int).push(pv[i as int]));
            lemma_flat_map_snoc(pv.take(i as int), pv[i as int], pu);
            lemma_concat_assoc(head_urls, flat_map_of(pv.take(i as int), pu), pu(pv[i as int]));
            assert(pre_urls + seq![dv.battle_prefs[i as int].style_url] =~= pre_urls
                + pu(pv[i as int]));
            assert(em.urls_view() =~= head_urls + flat_map_of(pv.take(i + 1 as int), pu));
            if em.ok() {
                lemma_flat_map_idx_snoc(pv.take(i as int), 0, pv[i as int], ps);
                lemma_concat_assoc(head, flat_map_idx(pv.take(i as int), 0, ps),
                    ps(i as int, pv[i as int]));
                let a = battle_pref_id(dv.id, i as int);
                assert(em.out_view() =~= pre_out + seq![
                    anon_st(s, pred_iri(Ns::Poke, "hasMoveBattleStylePreference"@), a),
                    int_st(RefV::Anonymous(a), pred_iri(Ns::Poke, "lowHpPreference"@),
                        pv[i as int].low_hp),
                    int_st(RefV::Anonymous(a), pred_iri(Ns::Poke, "highHpPreference"@),
                        pv[i as int].high_hp),
                    link_st(RefV::Anonymous(a), pred_iri(Ns::Poke, "moveBattleStyle"@),
                        pv[i as int].style_url),
                ]);
                assert(em.out_view() =~= head + flat_map_idx(pv.take(i + 1 as int), 0, ps));
            }
        }
        i = i + 1;
    }
    let ghost mid_urls = head_urls + flat_map_of(dv.battle_prefs, pu);
    let ghost mid_out = head + flat_map_idx(dv.battle_prefs, 0, ps);
    proof {
        assert(d.battle_prefs.deep_view().take(n as int) =~= d.battle_prefs.deep_view());
    }
    let ghost cu = |c: StatChangeEntryV| seq![c.stat_url];
    let ghost cs = |i: int, c: StatChangeEntryV| pokeathlon_change_sts(s, dv.id, i, c);
    let m = d.pokeathlon_changes.len();
    let mut j: usize = 0;
    while j < m
        invariant
            em.wf(),
            m == d.pokeathlon_changes.len(),
            j <= m,
            em.urls_view() == mid_urls
                + flat_map_of(d.pokeathlon_changes.deep_view().take(j as int), cu),
            em.ok() ==> em.out_view() == mid_out
                + flat_map_idx(d.pokeathlon_changes.deep_view().take(j as int), 0, cs),
        decreases m - j,
    {
        let ghost pre_urls = em.urls_view();
        let ghost pre_out = em.out_view();
        let c = &d.pokeathlon_changes[j];
        let cid = root.child("pokeathlonstatchange", j as u64);
        proof {
            assert(cid.deep_view() =~= pokeathlon_change_id(dv.id, j as int));
        }
        em.anon_obj(&subject, Ns::Poke, "hasPokeathlonStatChange", &cid);
        let cref = EntityRef::Anonymous(cid);
        em.lit_int(&cref, Ns::Poke, "maxChange", c.max_change);
        em.link(&cref, Ns::Poke, "pokeathlonStat", c.stat_url.as_str());
        proof {
            let cv = d.pokeathlon_changes.deep_view();
            assert(cv.take(j + 1 as int) =~= cv.take(j as int).push(cv[j as int]));
            lemma_flat_map_snoc(cv.take(j as int), cv[j as int], cu);
            lemma_concat_assoc(mid_urls, flat_map_of(cv.take(j as int), cu), cu(cv[j as int]));
            assert(pre_urls + seq![dv.pokeathlon_changes[j as int].stat_url] =~= pre_urls
                + cu(cv[j as int]));
            assert(em.urls_view() =~= mid_urls + flat_map_of(cv.take(j + 1 as int), cu));
            if em.ok() {
                lemma_flat_map_idx_snoc(cv.take(j as int), 0, cv[j as int], cs);
                lemma_concat_assoc(mid_out, flat_map_idx(cv.take(j as int), 0, cs),
                    cs(j as int, cv[j as int]));
                let a = pokeathlon_change_id(dv.id, j as int);
                assert(em.out_view() =~= pre_out + seq![
                    anon_st(s, pred_iri(Ns::Poke, "hasPokeathlonStatChange"@), a),
                    int_st(RefV::Anonymous(a), pred_iri(Ns::Poke, "maxChange"@),
                        cv[j as int].max_change),
                    link_st(RefV::Anonymous(a), pred_iri(Ns::Poke, "pokeathlonStat"@),
                        cv[j as int].stat_url),
                ]);
                assert(em.out_view() =~= mid_out + flat_map_idx(cv.take(j + 1 as int), 0, cs));
            }
        }
        j = j + 1;
    }
    proof {
        assert(d.pokeathlon_changes.deep_view().take(m as int)
            =~= d.pokeathlon_changes.deep_view());
    }
    em.texts(&subject, Ns::Poke, "names", &d.names, locale);
    proof {
        assert(em.urls_view() == nature_urls(url@, dv));
        if em.ok() {
            assert(em.out_view() == nature_sts(url@, dv, locale@));
        }
    }
    em.finish()
}

} // verus!
