//! Extraction of pal-park-area documents.

use vstd::prelude::*;
use crate::chars::lemma_concat_assoc;
use crate::error::{ErrorV, PipelineError};
use crate::extract::{all_ok, anon_st, class_st, Emitter, first_bad, flat_map_idx, flat_map_of,
    int_st, lemma_flat_map_idx_snoc, lemma_flat_map_snoc, link_st, loc_texts, Ns, pred_iri,
    text_st};
use crate::ident::{AnonId, AnonSegV, wf_word};
use crate::model::{PalParkArea, PalParkAreaV, ParkEncounterV};
use crate::statement::{EntityRef, RefV, Statement, StatementV};

verus! {

/// The URLs a pal-park-area extraction checks, in order.
pub open spec fn pal_park_urls(url: Seq<char>, d: PalParkAreaV) -> Seq<Seq<char>> {
    seq![url] + flat_map_of(d.encounters, |e: ParkEncounterV| seq![e.species_url])
}

/// The anonymous identity of the `i`-th encounter of pal-park area `id`.
pub open spec fn park_encounter_id(id: nat, i: int) -> Seq<AnonSegV> {
    seq![
        AnonSegV { word: "palparkarea"@, num: id },
        AnonSegV { word: "pokemonencounter"@, num: i as nat },
    ]
}

/// The statement block of the `i`-th encounter of a pal-park area.
pub open spec fn park_encounter_sts(s: RefV, id: nat, i: int, e: ParkEncounterV)
    -> Seq<StatementV> {
    let a = park_encounter_id(id, i);
    seq![
        anon_st(s, pred_iri(Ns::Poke, "pokemonEncounters"@), a),
        int_st(RefV::Anonymous(a), pred_iri(Ns::Poke, "baseScore"@), e.base_score),
        int_st(RefV::Anonymous(a), pred_iri(Ns::Poke, "rate"@), e.rate),
        link_st(RefV::Anonymous(a), pred_iri(Ns::Poke, "pokemonSpecies"@), e.species_url),
    ]
}

/// The statements extracted from one pal-park-area document.
pub open spec fn pal_park_sts(url: Seq<char>, d: PalParkAreaV, loc: Seq<char>)
    -> Seq<StatementV> {
    let s = RefV::Named(url);
    seq![
        class_st(s, "PalParkArea"@),
        int_st(s, pred_iri(Ns::Schema, "identifier"@), d.id as int),
        text_st(s, pred_iri(Ns::Schema, "name"@), d.name),
    ]
    + loc_texts(s, pred_iri(Ns::Poke, "names"@), d.names, loc)
    + flat_map_idx(d.encounters, 0, |i: int, e: ParkEncounterV| park_encounter_sts(s, d.id, i, e))
}

/// Extracts the statements of one pal-park area.
#[verifier::loop_isolation(false)]
pub fn pal_park_to_statements(url: &str, d: &PalParkArea, locale: &str)
    -> (r: Result<Vec<Statement>, PipelineError>)
    ensures
        r.is_ok() <==> all_ok(pal_park_urls(url@, d.deep_view())),
        r matches Ok(v) ==> v.deep_view() == pal_park_sts(url@, d.deep_view(), locale@),
        r matches Err(e) ==> e.deep_view()
            == ErrorV::InvalidIdentity(first_bad(pal_park_urls(url@, d.deep_view()))),
{
    let ghost dv = d.deep_view();
    let ghost s = RefV::Named(url@);
    let (mut em, subject) = Emitter::open(url);
    em.class(&subject, "PalParkArea");
    em.lit_uint(&subject, Ns::Schema, "identifier", d.id);
    em.lit_text(&subject, Ns::Schema, "name", d.name.as_str());
    em.texts(&subject, Ns::Poke, "names", &d.names, locale);
    let ghost head = seq![
        class_st(s, "PalParkArea"@),
        int_st(s, pred_iri(Ns::Schema, "identifier"@), dv.id as int),
        text_st(s, pred_iri(Ns::Schema, "name"@), dv.name),
    ] + loc_texts(s, pred_iri(Ns::Poke, "names"@), dv.names, locale@);
    let ghost head_urls = seq![url@];
    proof {
        assert(em.urls_view() =~= head_urls);
        if em.ok() {
            assert(em.out_view() =~= seq![
                class_st(s, "PalParkArea"@),
                int_st(s, pred_iri(Ns::Schema, "identifier"@), dv.id as int),
                text_st(s, pred_iri(Ns::Schema, "name"@), dv.name),
            ] + loc_texts(s, pred_iri(Ns::Poke, "names"@), dv.names, locale@));
        }
        reveal_strlit("palparkarea");
        reveal_strlit("pokemonencounter");
        assert(wf_word("palparkarea"@));
        assert(wf_word("pokemonencounter"@));
    }
    let root = AnonId::root("palparkarea", d.id);
    let ghost fu = |e: ParkEncounterV| seq![e.species_url];
    let ghost fs = |i: int, e: ParkEncounterV| park_encounter_sts(s, dv.id, i, e);
    let n = d.encounters.len();
    let mut i: usize = 0;
    while i < n
        invariant
            em.wf(),
            n == d.encounters.len(),
            i <= n,
            em.urls_view() == head_urls
                + flat_map_of(d.encounters.deep_view().take(i as int), fu),
            em.ok() ==> em.out_view() == head
                + flat_map_idx(d.encounters.deep_view().take(i as int), 0, fs),
        decreases n - i,
    {
        let ghost pre_urls = em.urls_view();
        let ghost pre_out = em.out_view();
        let e = &d.encounters[i];
        let eid = root.child("pokemonencounter", i as u64);
        proof {
            assert(eid.deep_view() =~= park_encounter_id(dv.id, i as int));
        }
        em.anon_obj(&subject, Ns::Poke, "pokemonEncounters", &eid);
        let eref = EntityRef::Anonymous(eid);
        em.lit_int(&eref, Ns::Poke, "baseScore", e.base_score);
        em.lit_int(&eref, Ns::Poke, "rate", e.rate);
        em.link(&eref, Ns::Poke, "pokemonSpecies", e.species_url.as_str());
        proof {
            let ev = d.encounters.deep_view();
            assert(ev.take(i + 1 as int) =~= ev.take(i as int).push(ev[i as int]));
            lemma_flat_map_snoc(ev.take(i as int), ev[i as int], fu);
            lemma_concat_assoc(head_urls, flat_map_of(ev.take(i as int), fu), fu(ev[i as int]));
            assert(pre_urls + seq![dv.encounters[i as int].species_url] =~= pre_urls
                + fu(ev[i as int]));
            assert(em.urls_view() =~= head_urls + flat_map_of(ev.take(i + 1 as int), fu));
            if em.ok() {
                lemma_flat_map_idx_snoc(ev.take(i as int), 0, ev[i as int], fs);
                lemma_concat_assoc(head, flat_map_idx(ev.take(i as int), 0, fs),
                    fs(i as int, ev[i as int]));
                let a = park_encounter_id(dv.id, i as int);
                assert(em.out_view() =~= pre_out + seq![
                    anon_st(s, pred_iri(Ns::Poke, "pokemonEncounters"@), a),
                    int_st(RefV::Anonymous(a), pred_iri(Ns::Poke, "baseScore"@),
                        ev[i as int].base_score),
                    int_st(RefV::Anonymous(a), pred_iri(Ns::Poke, "rate"@),
                        ev[i as int].rate),
                    link_st(RefV::Anonymous(a), pred_iri(Ns::Poke, "pokemonSpecies"@),
                        ev[i as int].species_url),
                ]);
                assert(em.out_view() =~= head + flat_map_idx(ev.take(i + 1 as int), 0, fs));
            }
        }
        i = i + 1;
    }
    proof {
        assert(d.encounters.deep_view().take(n as int) =~= d.encounters.deep_view());
        assert(em.urls_view() == pal_park_urls(url@, dv));
        if em.ok() {
            assert(em.out_view() == pal_park_sts(url@, dv, locale@));
        }
    }
    em.finish()
}

} // verus!
