//! Extraction of growth-rate documents.

use vstd::prelude::*;
use crate::error::{ErrorV, PipelineError};
use crate::extract::{all_ok, anon_st, class_st, Emitter, first_bad, flat_map_idx, int_st,
    lemma_flat_map_idx_snoc, link_sts, loc_texts, Ns, pred_iri, text_st};
use crate::ident::{AnonId, AnonSegV, wf_word};
use crate::model::{GrowthLevelV, GrowthRate, GrowthRateV};
use crate::statement::{EntityRef, RefV, Statement, StatementV};

verus! {

/// The URLs a growth-rate extraction checks, in order.
pub open spec fn growth_rate_urls(url: Seq<char>, d: GrowthRateV) -> Seq<Seq<char>> {
    seq![url] + d.species_urls
}

/// The anonymous identity of the `i`-th experience level of growth
/// rate `id`.
pub open spec fn growth_level_id(id: nat, i: int) -> Seq<AnonSegV> {
    seq![
        AnonSegV { word: "growthrate"@, num: id },
        AnonSegV { word: "explevel"@, num: i as nat },
    ]
}

/// The statement block of the `i`-th experience level of a growth rate.
pub open spec fn growth_level_sts(s: RefV, id: nat, i: int, l: GrowthLevelV)
    -> Seq<StatementV> {
    let a = growth_level_id(id, i);
    seq![
        anon_st(s, pred_iri(Ns::Poke, "hasExpLevel"@), a),
        int_st(RefV::Anonymous(a), pred_iri(Ns::Poke, "level"@), l.level as int),
        int_st(RefV::Anonymous(a), pred_iri(Ns::Poke, "experience"@), l.experience),
    ]
}

/// The statements extracted from one growth-rate document.
pub open spec fn growth_rate_sts(url: Seq<char>, d: GrowthRateV, loc: Seq<char>)
    -> Seq<StatementV> {
    let s = RefV::Named(url);
    seq![
        class_st(s, "GrowthRate"@),
        int_st(s, pred_iri(Ns::Schema, "identifier"@), d.id as int),
        text_st(s, pred_iri(Ns::Schema, "name"@), d.name),
        text_st(s, pred_iri(Ns::Poke, "formula"@), d.formula),
    ]
    + loc_texts(s, pred_iri(Ns::Schema, "description"@), d.descriptions, loc)
    + flat_map_idx(d.levels, 0, |i: int, l: GrowthLevelV| growth_level_sts(s, d.id, i, l))
    + link_sts(s, pred_iri(Ns::Poke, "hasSpecies"@), d.species_urls)
}

/// Extracts the statements of one growth rate.
#[verifier::loop_isolation(false)]
pub fn growth_rate_to_statements(url: &str, d: &GrowthRate, locale: &str)
    -> (r: Result<Vec<Statement>, PipelineError>)
    ensures
        r.is_ok() <==> all_ok(growth_rate_urls(url@, d.deep_view())),
        r matches Ok(v) ==> v.deep_view() == growth_rate_sts(url@, d.deep_view(), locale@),
        r matches Err(e) ==> e.deep_view()
            == ErrorV::InvalidIdentity(first_bad(growth_rate_urls(url@, d.deep_view()))),
{
    let ghost dv = d.deep_view();
    let ghost s = RefV::Named(url@);
    let (mut em, subject) = Emitter::open(url);
    em.class(&subject, "GrowthRate");
    em.lit_uint(&subject, Ns::Schema, "identifier", d.id);
    em.lit_text(&subject, Ns::Schema, "name", d.name.as_str());
    em.lit_text(&subject, Ns::Poke, "formula", d.formula.as_str());
    em.texts(&subject, Ns::Schema, "description", &d.descriptions, locale);
    let ghost head = seq![
        class_st(s, "GrowthRate"@),
        int_st(s, pred_iri(Ns::Schema, "identifier"@), dv.id as int),
        text_st(s, pred_iri(Ns::Schema, "name"@), dv.name),
        text_st(s, pred_iri(Ns::Poke, "formula"@), dv.formula),
    ] + loc_texts(s, pred_iri(Ns::Schema, "description"@), dv.descriptions, locale@);
    proof {
        if em.ok() {
            assert(em.out_view() =~= seq![
                class_st(s, "GrowthRate"@),
                int_st(s, pred_iri(Ns::Schema, "identifier"@), dv.id as int),
                text_st(s, pred_iri(Ns::Schema, "name"@), dv.name),
                text_st(s, pred_iri(Ns::Poke, "formula"@), dv.formula),
            ] + loc_texts(s, pred_iri(Ns::Schema, "description"@), dv.descriptions, locale@));
        }
        reveal_strlit("growthrate");
        reveal_strlit("explevel");
        assert(wf_word("growthrate"@));
        assert(wf_word("explevel"@));
    }
    let root = AnonId::root("growthrate", d.id);
    let ghost fs = |i: int, l: GrowthLevelV| growth_level_sts(s, dv.id, i, l);
    let n = d.levels.len();
    let mut i: usize = 0;
    while i < n
        invariant
            em.wf(),
            n == d.levels.len(),
            i <= n,
            em.urls_view() == seq![url@],
            em.ok() ==> em.out_view() == head
                + flat_map_idx(d.levels.deep_view().take(i as int), 0, fs),
        decreases n - i,
    {
        let ghost pre_out = em.out_view();
        let l = &d.levels[i];
        let lid = root.child("explevel", i as u64);
        proof {
            assert(lid.deep_view() =~= growth_level_id(dv.id, i as int));
        }
        em.anon_obj(&subject, Ns::Poke, "hasExpLevel", &lid);
        let lref = EntityRef::Anonymous(lid);
        em.lit_uint(&lref, Ns::Poke, "level", l.level);
        em.lit_int(&lref, Ns::Poke, "experience", l.experience);
        proof {
            let lv = d.levels.deep_view();
            assert(lv.take(i + 1 as int) =~= lv.take(i as int).push(lv[i as int]));
            lemma_flat_map_idx_snoc(lv.take(i as int), 0, lv[i as int], fs);
            crate::chars::lemma_concat_assoc(head,
                flat_map_idx(lv.take(i as int), 0, fs), fs(i as int, lv[i as int]));
            if em.ok() {
                let a = growth_level_id(dv.id, i as int);
                assert(em.out_view() =~= pre_out + seq![
                    anon_st(s, pred_iri(Ns::Poke, "hasExpLevel"@), a),
                    int_st(RefV::Anonymous(a), pred_iri(Ns::Poke, "level"@),
                        lv[i as int].level as int),
                    int_st(RefV::Anonymous(a), pred_iri(Ns::Poke, "experience"@),
                        lv[i as int].experience),
                ]);
                assert(em.out_view() =~= head + flat_map_idx(lv.take(i + 1 as int), 0, fs));
            }
        }
        i = i + 1;
    }
    proof {
        assert(d.levels.deep_view().take(n as int) =~= d.levels.deep_view());
    }
    em.links(&subject, Ns::Poke, "hasSpecies", &d.species_urls);
    proof {
        assert(em.urls_view() == growth_rate_urls(url@, dv));
        if em.ok() {
            assert(em.out_view() == growth_rate_sts(url@, dv, locale@));
        }
    }
    em.finish()
}

} // verus!
