//! Extraction of berry documents.

use vstd::prelude::*;
use crate::chars::lemma_concat_assoc;
use crate::error::ErrorV;
use crate::error::PipelineError;
use crate::extract::{all_ok, anon_st, class_st, Emitter, first_bad, flat_map_idx, flat_map_of,
    int_st, lemma_flat_map_idx_snoc, lemma_flat_map_snoc, link_st, Ns, pred_iri, text_st};
use crate::ident::{AnonId, AnonSegV, wf_word};
use crate::model::{Berry, BerryFlavorEntryV, BerryV};
use crate::statement::{EntityRef, RefV, Statement, StatementV};

verus! {

/// The URLs a berry extraction checks, in order of emission.
pub open spec fn berry_urls(url: Seq<char>, d: BerryV) -> Seq<Seq<char>> {
    seq![url, d.firmness_url]
        + flat_map_of(d.flavors, |f: BerryFlavorEntryV| seq![f.flavor_url])
        + seq![d.item_url, d.natural_gift_type_url]
}

/// The anonymous identity of the `i`-th flavor entry of berry `id`.
pub open spec fn berry_flavor_id(id: nat, i: int) -> Seq<AnonSegV> {
    seq![
        AnonSegV { word: "berry"@, num: id },
        AnonSegV { word: "flavor"@, num: i as nat },
    ]
}

/// The statement block of the `i`-th flavor entry of a berry.
pub open spec fn berry_flavor_sts(s: RefV, id: nat, i: int, f: BerryFlavorEntryV)
    -> Seq<StatementV> {
    let a = berry_flavor_id(id, i);
    seq![
        anon_st(s, pred_iri(Ns::Poke, "hasFlavor"@), a),
        link_st(RefV::Anonymous(a), pred_iri(Ns::Poke, "flavor"@), f.flavor_url),
        int_st(RefV::Anonymous(a), pred_iri(Ns::Poke, "potency"@), f.potency),
    ]
}

/// The statements extracted from one berry document, in order.
pub open spec fn berry_sts(url: Seq<char>, d: BerryV) -> Seq<StatementV> {
    let s = RefV::Named(url);
    seq![
        class_st(s, "Berry"@),
        int_st(s, pred_iri(Ns::Schema, "identifier"@), d.id as int),
        text_st(s, pred_iri(Ns::Schema, "name"@), d.name),
        int_st(s, pred_iri(Ns::Poke, "growthTime"@), d.growth_time),
        int_st(s, pred_iri(Ns::Poke, "maxHarvest"@), d.max_harvest),
        int_st(s, pred_iri(Ns::Poke, "naturalGiftPower"@), d.natural_gift_power),
        int_st(s, pred_iri(Ns::Poke, "size"@), d.size),
        int_st(s, pred_iri(Ns::Poke, "smoothness"@), d.smoothness),
        int_st(s, pred_iri(Ns::Poke, "soilDryness"@), d.soil_dryness),
        link_st(s, pred_iri(Ns::Poke, "firmness"@), d.firmness_url),
    ]
    + flat_map_idx(d.flavors, 0, |i: int, f: BerryFlavorEntryV| berry_flavor_sts(s, d.id, i, f))
    + seq![
        link_st(s, pred_iri(Ns::Poke, "item"@), d.item_url),
        link_st(s, pred_iri(Ns::Poke, "naturalGiftType"@), d.natural_gift_type_url),
    ]
}

/// Extracts the statements of one berry: its class, each scalar field,
/// its firmness, one anonymous flavor block per flavor entry, its item
/// and its natural-gift type.
#[verifier::loop_isolation(false)]
pub fn berry_to_statements(url: &str, d: &Berry) -> (r: Result<Vec<Statement>, PipelineError>)
    ensures
        r.is_ok() <==> all_ok(berry_urls(url@, d.deep_view())),
        r matches Ok(v) ==> v.deep_view() == berry_sts(url@, d.deep_view()),
        r matches Err(e) ==> e.deep_view()
            == ErrorV::InvalidIdentity(first_bad(berry_urls(url@, d.deep_view()))),
{
    let ghost dv = d.deep_view();
    let ghost s = RefV::Named(url@);
    let (mut em, subject) = Emitter::open(url);
    em.class(&subject, "Berry");
    em.lit_uint(&subject, Ns::Schema, "identifier", d.id);
    em.lit_text(&subject, Ns::Schema, "name", d.name.as_str());
    em.lit_int(&subject, Ns::Poke, "growthTime", d.growth_time);
    em.lit_int(&subject, Ns::Poke, "maxHarvest", d.max_harvest);
    em.lit_int(&subject, Ns::Poke, "naturalGiftPower", d.natural_gift_power);
    em.lit_int(&subject, Ns::Poke, "size", d.size);
    em.lit_int(&subject, Ns::Poke, "smoothness", d.smoothness);
    em.lit_int(&subject, Ns::Poke, "soilDryness", d.soil_dryness);
    em.link(&subject, Ns::Poke, "firmness", d.firmness_url.as_str());
    let ghost head = seq![
        class_st(s, "Berry"@),
        int_st(s, pred_iri(Ns::Schema, "identifier"@), dv.id as int),
        text_st(s, pred_iri(Ns::Schema, "name"@), dv.name),
        int_st(s, pred_iri(Ns::Poke, "growthTime"@), dv.growth_time),
        int_st(s, pred_iri(Ns::Poke, "maxHarvest"@), dv.max_harvest),
        int_st(s, pred_iri(Ns::Poke, "naturalGiftPower"@), dv.natural_gift_power),
        int_st(s, pred_iri(Ns::Poke, "size"@), dv.size),
        int_st(s, pred_iri(Ns::Poke, "smoothness"@), dv.smoothness),
        int_st(s, pred_iri(Ns::Poke, "soilDryness"@), dv.soil_dryness),
        link_st(s, pred_iri(Ns::Poke, "firmness"@), dv.firmness_url),
    ];
    let ghost head_urls = seq![url@, dv.firmness_url];
    proof {
        assert(em.urls_view() =~= head_urls);
        if em.ok() {
            assert(em.out_view() =~= head);
        }
    }
    proof {
        reveal_strlit("berry");
        reveal_strlit("flavor");
        assert(wf_word("berry"@));
        assert(wf_word("flavor"@));
    }
    let root = AnonId::root("berry", d.id);
    let ghost fu = |f: BerryFlavorEntryV| seq![f.flavor_url];
    let ghost fs = |i: int, f: BerryFlavorEntryV| berry_flavor_sts(s, dv.id, i, f);
    let n = d.flavors.len();
    let mut i: usize = 0;
    while i < n
        invariant
            em.wf(),
            n == d.flavors.len(),
            i <= n,
            em.urls_view() == head_urls + flat_map_of(d.flavors.deep_view().take(i as int), fu),
            em.ok() ==> em.out_view() == head
                + flat_map_idx(d.flavors.deep_view().take(i as int), 0, fs),
        decreases n - i,
    {
        let ghost pre_urls = em.urls_view();
        let ghost pre_out = em.out_view();
        let ghost was_ok = em.ok();
        let f = &d.flavors[i];
        let fid = root.child("flavor", i as u64);
        proof {
            assert(fid.deep_view() =~= berry_flavor_id(dv.id, i as int));
        }
        em.anon_obj(&subject, Ns::Poke, "hasFlavor", &fid);
        let fref = EntityRef::Anonymous(fid);
        em.link(&fref, Ns::Poke, "flavor", f.flavor_url.as_str());
        em.lit_int(&fref, Ns::Poke, "potency", f.potency);
        proof {
            let fv = d.flavors.deep_view();
            assert(fv.take(i + 1 as int) =~= fv.take(i as int).push(fv[i as int]));
            lemma_flat_map_snoc(fv.take(i as int), fv[i as int], fu);
            lemma_concat_assoc(head_urls, flat_map_of(fv.take(i as int), fu), fu(fv[i as int]));
            assert(pre_urls + seq![dv.flavors[i as int].flavor_url] =~= pre_urls
                + fu(fv[i as int]));
            assert(em.urls_view() =~= head_urls + flat_map_of(fv.take(i + 1 as int), fu));
            if em.ok() {
                lemma_flat_map_idx_snoc(fv.take(i as int), 0, fv[i as int], fs);
                lemma_concat_assoc(head, flat_map_idx(fv.take(i as int), 0, fs),
                    fs(i as int, fv[i as int]));
                let a = berry_flavor_id(dv.id, i as int);
                assert(em.out_view() =~= pre_out + seq![
                    anon_st(s, pred_iri(Ns::Poke, "hasFlavor"@), a),
                    link_st(RefV::Anonymous(a), pred_iri(Ns::Poke, "flavor"@),
                        fv[i as int].flavor_url),
                    int_st(RefV::Anonymous(a), pred_iri(Ns::Poke, "potency"@),
                        fv[i as int].potency),
                ]);
                assert(em.out_view() =~= head + flat_map_idx(fv.take(i + 1 as int), 0, fs));
            }
        }
        i = i + 1;
    }
    proof {
        assert(d.flavors.deep_view().take(n as int) =~= d.flavors.deep_view());
    }
    let ghost mid_urls = em.urls_view();
    let ghost mid_out = em.out_view();
    em.link(&subject, Ns::Poke, "item", d.item_url.as_str());
    em.link(&subject, Ns::Poke, "naturalGiftType", d.natural_gift_type_url.as_str());
    proof {
        lemma_concat_assoc(mid_urls, seq![dv.item_url], seq![dv.natural_gift_type_url]);
        assert(seq![dv.item_url] + seq![dv.natural_gift_type_url]
            =~= seq![dv.item_url, dv.natural_gift_type_url]);
        assert(em.urls_view() == berry_urls(url@, dv));
        if em.ok() {
            lemma_concat_assoc(mid_out,
                seq![link_st(s, pred_iri(Ns::Poke, "item"@), dv.item_url)],
                seq![link_st(s, pred_iri(Ns::Poke, "naturalGiftType"@),
                    dv.natural_gift_type_url)]);
            assert(seq![link_st(s, pred_iri(Ns::Poke, "item"@), dv.item_url)]
                + seq![link_st(s, pred_iri(Ns::Poke, "naturalGiftType"@),
                    dv.natural_gift_type_url)]
                =~= seq![
                    link_st(s, pred_iri(Ns::Poke, "item"@), dv.item_url),
                    link_st(s, pred_iri(Ns::Poke, "naturalGiftType"@),
                        dv.natural_gift_type_url),
                ]);
            assert(em.out_view() == berry_sts(url@, dv));
        }
    }
    em.finish()
}

} // verus!
