//! Extraction of berry-flavor documents.

use vstd::prelude::*;
use crate::chars::lemma_concat_assoc;
use crate::error::{ErrorV, PipelineError};
use crate::extract::{all_ok, anon_st, class_st, Emitter, first_bad, flat_map_idx, flat_map_of,
    int_st, lemma_flat_map_idx_snoc, lemma_flat_map_snoc, link_st, loc_texts, Ns, pred_iri,
    text_st};
use crate::ident::{AnonId, AnonSegV, wf_word};
use crate::model::{BerryFlavor, BerryFlavorV, FlavorBerryV};
use crate::statement::{EntityRef, RefV, Statement, StatementV};

verus! {

/// The URLs a berry-flavor extraction checks, in order.
pub open spec fn berry_flavor_urls(url: Seq<char>, d: BerryFlavorV) -> Seq<Seq<char>> {
    seq![url]
    + flat_map_of(d.berries, |b: FlavorBerryV| seq![b.berry_url])
    + seq![d.contest_type_url]
}

/// The anonymous identity of the `i`-th berry entry of flavor `id`.
pub open spec fn flavor_berry_id(id: nat, i: int) -> Seq<AnonSegV> {
    seq![
        AnonSegV { word: "flavor"@, num: id },
        AnonSegV { word: "berry"@, num: i as nat },
    ]
}

/// The statement block of the `i`-th berry entry of a flavor.
pub open spec fn flavor_berry_sts(s: RefV, id: nat, i: int, b: FlavorBerryV) -> Seq<StatementV> {
    let a = flavor_berry_id(id, i);
    seq![
        anon_st(s, pred_iri(Ns::Poke, "hasFlavor"@), a),
        int_st(RefV::Anonymous(a), pred_iri(Ns::Poke, "potency"@), b.potency),
        link_st(RefV::Anonymous(a), pred_iri(Ns::Poke, "forBerry"@), b.berry_url),
    ]
}

/// The statements extracted from one berry-flavor document.
pub open spec fn berry_flavor_sts(url: Seq<char>, d: BerryFlavorV, loc: Seq<char>)
    -> Seq<StatementV> {
    let s = RefV::Named(url);
    seq![
        class_st(s, "BerryFlavor"@),
        int_st(s, pred_iri(Ns::Schema, "identifier"@), d.id as int),
        text_st(s, pred_iri(Ns::Schema, "name"@), d.name),
    ]
    + flat_map_idx(d.berries, 0, |i: int, b: FlavorBerryV| flavor_berry_sts(s, d.id, i, b))
    + seq![link_st(s, pred_iri(Ns::Poke, "contestType"@), d.contest_type_url)]
    + loc_texts(s, pred_iri(Ns::Poke, "names"@), d.names, loc)
}

/// Extracts the statements of one berry flavor.
#[verifier::loop_isolation(false)]
pub fn berry_flavor_to_statements(url: &str, d: &BerryFlavor, locale: &str)
    -> (r: Result<Vec<Statement>, PipelineError>)
    ensures
        r.is_ok() <==> all_ok(berry_flavor_urls(url@, d.deep_view())),
        r matches Ok(v) ==> v.deep_view() == berry_flavor_sts(url@, d.deep_view(), locale@),
        r matches Err(e) ==> e.deep_view()
            == ErrorV::InvalidIdentity(first_bad(berry_flavor_urls(url@, d.deep_view()))),
{
    let ghost dv = d.deep_view();
    let ghost s = RefV::Named(url@);
    let (mut em, subject) = Emitter::open(url);
    em.class(&subject, "BerryFlavor");
    em.lit_uint(&subject, Ns::Schema, "identifier", d.id);
    em.lit_text(&subject, Ns::Schema, "name", d.name.as_str());
    let ghost head = seq![
        class_st(s, "BerryFlavor"@),
        int_st(s, pred_iri(Ns::Schema, "identifier"@), dv.id as int),
        text_st(s, pred_iri(Ns::Schema, "name"@), dv.name),
    ];
    let ghost head_urls = seq![url@];
    proof {
        assert(em.urls_view() =~= head_urls);
        if em.ok() {
            assert(em.out_view() =~= head);
        }
        reveal_strlit("flavor");
        reveal_strlit("berry");
        assert(wf_word("flavor"@));
        assert(wf_word("berry"@));
    }
    let root = AnonId::root("flavor", d.id);
    let ghost fu = |b: FlavorBerryV| seq![b.berry_url];
    let ghost fs = |i: int, b: FlavorBerryV| flavor_berry_sts(s, dv.id, i, b);
    let n = d.berries.len();
    let mut i: usize = 0;
    while i < n
        invariant
            em.wf(),
            n == d.berries.len(),
            i <= n,
            em.urls_view() == head_urls + flat_map_of(d.berries.deep_view().take(i as int), fu),
            em.ok() ==> em.out_view() == head
                + flat_map_idx(d.berries.deep_view().take(i as int), 0, fs),
        decreases n - i,
    {
        let ghost pre_urls = em.urls_view();
        let ghost pre_out = em.out_view();
        let b = &d.berries[i];
        let bid = root.child("berry", i as u64);
        proof {
            assert(bid.deep_view() =~= flavor_berry_id(dv.id, i as int));
        }
        em.anon_obj(&subject, Ns::Poke, "hasFlavor", &bid);
        let bref = EntityRef::Anonymous(bid);
        em.lit_int(&bref, Ns::Poke, "potency", b.potency);
        em.link(&bref, Ns::Poke, "forBerry", b.berry_url.as_str());
        proof {
            let bv = d.berries.deep_view();
            assert(bv.take(i + 1 as int) =~= bv.take(i as int).push(bv[i as int]));
            lemma_flat_map_snoc(bv.take(i as int), bv[i as int], fu);
            lemma_concat_assoc(head_urls, flat_map_of(bv.take(i as int), fu), fu(bv[i as int]));
            assert(pre_urls + seq![dv.berries[i as int].berry_url] =~= pre_urls
                + fu(bv[i as int]));
            assert(em.urls_view() =~= head_urls + flat_map_of(bv.take(i + 1 as int), fu));
            if em.ok() {
                lemma_flat_map_idx_snoc(bv.take(i as int), 0, bv[i as int], fs);
                lemma_concat_assoc(head, flat_map_idx(bv.take(i as int), 0, fs),
                    fs(i as int, bv[i as int]));
                let a = flavor_berry_id(dv.id, i as int);
                assert(em.out_view() =~= pre_out + seq![
                    anon_st(s, pred_iri(Ns::Poke, "hasFlavor"@), a),
                    int_st(RefV::Anonymous(a), pred_iri(Ns::Poke, "potency"@),
                        bv[i as int].potency),
                    link_st(RefV::Anonymous(a), pred_iri(Ns::Poke, "forBerry"@),
                        bv[i as int].berry_url),
                ]);
                assert(em.out_view() =~= head + flat_map_idx(bv.take(i + 1 as int), 0, fs));
            }
        }
        i = i + 1;
    }
    proof {
        assert(d.berries.deep_view().take(n as int) =~= d.berries.deep_view());
    }
    em.link(&subject, Ns::Poke, "contestType", d.contest_type_url.as_str());
    em.texts(&subject, Ns::Poke, "names", &d.names, locale);
    proof {
        assert(em.urls_view() == berry_flavor_urls(url@, dv));
        if em.ok() {
            assert(em.out_view() == berry_flavor_sts(url@, dv, locale@));
        }
    }
    em.finish()
}

} // verus!
