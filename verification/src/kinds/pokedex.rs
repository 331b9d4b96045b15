//! Extraction of pokedex documents.

use vstd::prelude::*;
use crate::chars::lemma_concat_assoc;
use crate::error::{ErrorV, PipelineError};
use crate::extract::{all_ok, anon_st, class_st, Emitter, first_bad, flat_map_idx, flat_map_of,
    int_st, lemma_flat_map_idx_snoc, lemma_flat_map_snoc, link_st, link_sts, loc_texts, Ns,
    opt_link_sts, opt_url, pred_iri, text_st};
use crate::ident::{AnonId, AnonSegV, wf_word};
use crate::model::{Pokedex, PokedexEntryV, PokedexV};
use crate::statement::{EntityRef, RefV, Statement, StatementV};

verus! {

/// The URLs a pokedex extraction checks, in order.
pub open spec fn pokedex_urls(url: Seq<char>, d: PokedexV) -> Seq<Seq<char>> {
    seq![url]
    + flat_map_of(d.entries, |e: PokedexEntryV| seq![e.species_url])
    + opt_url(d.region_url)
    + d.version_group_urls
}

/// The anonymous identity of the `i`-th entry of pokedex `id`.
pub open spec fn pokedex_entry_id(id: nat, i: int) -> Seq<AnonSegV> {
    seq![
        AnonSegV { word: "pokedex"@, num: id },
        AnonSegV { word: "entry"@, num: i as nat },
    ]
}

/// The statement block of the `i`-th entry of a pokedex.
pub open spec fn pokedex_entry_sts(s: RefV, id: nat, i: int, e: PokedexEntryV)
    -> Seq<StatementV> {
    let a = pokedex_entry_id(id, i);
    seq![
        anon_st(s, pred_iri(Ns::Poke, "hasPokedexEntry"@), a),
        int_st(RefV::Anonymous(a), pred_iri(Ns::Poke, "entryNumber"@), e.entry_number),
        link_st(RefV::Anonymous(a), pred_iri(Ns::Poke, "species"@), e.species_url),
    ]
}

/// The statements extracted from one pokedex document.
pub open spec fn pokedex_sts(url: Seq<char>, d: PokedexV, loc: Seq<char>) -> Seq<StatementV> {
    let s = RefV::Named(url);
    seq![
        class_st(s, "Pokedex"@),
        int_st(s, pred_iri(Ns::Schema, "identifier"@), d.id as int),
        text_st(s, pred_iri(Ns::Schema, "name"@), d.name),
    ]
    + loc_texts(s, pred_iri(Ns::Schema, "description"@), d.descriptions, loc)
    + loc_texts(s, pred_iri(Ns::Poke, "names"@), d.names, loc)
    + flat_map_idx(d.entries, 0, |i: int, e: PokedexEntryV| pokedex_entry_sts(s, d.id, i, e))
    + opt_link_sts(s, pred_iri(Ns::Poke, "region"@), d.region_url)
    + link_sts(s, pred_iri(Ns::Poke, "versionGroup"@), d.version_group_urls)
}

/// Extracts the statements of one pokedex.
#[verifier::loop_isolation(false)]
pub fn pokedex_to_statements(url: &str, d: &Pokedex, locale: &str)
    -> (r: Result<Vec<Statement>, PipelineError>)
    ensures
        r.is_ok() <==> all_ok(pokedex_urls(url@, d.deep_view())),
        r matches Ok(v) ==> v.deep_view() == pokedex_sts(url@, d.deep_view(), locale@),
        r matches Err(e) ==> e.deep_view()
            == ErrorV::InvalidIdentity(first_bad(pokedex_urls(url@, d.deep_view()))),
{
    let ghost dv = d.deep_view();
    let ghost s = RefV::Named(url@);
    let (mut em, subject) = Emitter::open(url);
    em.class(&subject, "Pokedex");
    em.lit_uint(&subject, Ns::Schema, "identifier", d.id);
    em.lit_text(&subject, Ns::Schema, "name", d.name.as_str());
    em.texts(&subject, Ns::Schema, "description", &d.descriptions, locale);
    em.texts(&subject, Ns::Poke, "names", &d.names, locale);
    let ghost head = seq![
        class_st(s, "Pokedex"@),
        int_st(s, pred_iri(Ns::Schema, "identifier"@), dv.id as int),
        text_st(s, pred_iri(Ns::Schema, "name"@), dv.name),
    ] + loc_texts(s, pred_iri(Ns::Schema, "description"@), dv.descriptions, locale@)
        + loc_texts(s, pred_iri(Ns::Poke, "names"@), dv.names, locale@);
    let ghost head_urls = seq![url@];
    proof {
        assert(em.urls_view() =~= head_urls);
        if em.ok() {
            assert(em.out_view() =~= seq![
                class_st(s, "Pokedex"@),
                int_st(s, pred_iri(Ns::Schema, "identifier"@), dv.id as int),
                text_st(s, pred_iri(Ns::Schema, "name"@), dv.name),
            ] + loc_texts(s, pred_iri(Ns::Schema, "description"@), dv.descriptions, locale@)
                + loc_texts(s, pred_iri(Ns::Poke, "names"@), dv.names, locale@));
        }
        reveal_strlit("pokedex");
        reveal_strlit("entry");
        assert(wf_word("pokedex"@));
        assert(wf_word("entry"@));
    }
    let root = AnonId::root("pokedex", d.id);
    let ghost fu = |e: PokedexEntryV| seq![e.species_url];
    let ghost fs = |i: int, e: PokedexEntryV| pokedex_entry_sts(s, dv.id, i, e);
    let n = d.entries.len();
    let mut i: usize = 0;
    while i < n
        invariant
            em.wf(),
            n == d.entries.len(),
            i <= n,
            em.urls_view() == head_urls + flat_map_of(d.entries.deep_view().take(i as int), fu),
            em.ok() ==> em.out_view() == head
                + flat_map_idx(d.entries.deep_view().take(i as int), 0, fs),
        decreases n - i,
    {
        let ghost pre_urls = em.urls_view();
        let ghost pre_out = em.out_view();
        let e = &d.entries[i];
        let eid = root.child("entry", i as u64);
        proof {
            assert(eid.deep_view() =~= pokedex_entry_id(dv.id, i as int));
        }
        em.anon_obj(&subject, Ns::Poke, "hasPokedexEntry", &eid);
        let eref = EntityRef::Anonymous(eid);
        em.lit_int(&eref, Ns::Poke, "entryNumber", e.entry_number);
        em.link(&eref, Ns::Poke, "species", e.species_url.as_str());
        proof {
            let ev = d.entries.deep_view();
            assert(ev.take(i + 1 as int) =~= ev.take(i as int).push(ev[i as int]));
            lemma_flat_map_snoc(ev.take(i as int), ev[i as int], fu);
            lemma_concat_assoc(head_urls, flat_map_of(ev.take(i as int), fu), fu(ev[i as int]));
            assert(pre_urls + seq![dv.entries[i as int].species_url] =~= pre_urls
                + fu(ev[i as int]));
            assert(em.urls_view() =~= head_urls + flat_map_of(ev.take(i + 1 as int), fu));
            if em.ok() {
                lemma_flat_map_idx_snoc(ev.take(i as int), 0, ev[i as int], fs);
                lemma_concat_assoc(head, flat_map_idx(ev.take(i as int), 0, fs),
                    fs(i as int, ev[i as int]));
                let a = pokedex_entry_id(dv.id, i as int);
                assert(em.out_view() =~= pre_out + seq![
                    anon_st(s, pred_iri(Ns::Poke, "hasPokedexEntry"@), a),
                    int_st(RefV::Anonymous(a), pred_iri(Ns::Poke, "entryNumber"@),
                        ev[i as int].entry_number),
                    link_st(RefV::Anonymous(a), pred_iri(Ns::Poke, "species"@),
                        ev[i as int].species_url),
                ]);
                assert(em.out_view() =~= head + flat_map_idx(ev.take(i + 1 as int), 0, fs));
            }
        }
        i = i + 1;
    }
    proof {
        assert(d.entries.deep_view().take(n as int) =~= d.entries.deep_view());
    }
    em.opt_link(&subject, Ns::Poke, "region", &d.region_url);
    em.links(&subject, Ns::Poke, "versionGroup", &d.version_group_urls);
    proof {
        assert(em.urls_view() == pokedex_urls(url@, dv));
        if em.ok() {
            assert(em.out_view() == pokedex_sts(url@, dv, locale@));
        }
    }
    em.finish()
}

} // verus!
