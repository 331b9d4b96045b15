//! Extraction of location documents.

use vstd::prelude::*;
use crate::chars::lemma_concat_assoc;
use crate::error::{ErrorV, PipelineError};
use crate::extract::{all_ok, anon_st, class_st, Emitter, first_bad, flat_map_idx, flat_map_of,
    int_st, lemma_flat_map_idx_snoc, lemma_flat_map_snoc, link_st, link_sts, loc_texts, Ns,
    opt_link_sts, opt_url, pred_iri, text_st};
use crate::ident::{AnonId, AnonSegV, wf_word};
use crate::model::{GameIndexV, Location, LocationV};
use crate::statement::{EntityRef, RefV, Statement, StatementV};

verus! {

/// The URLs a location extraction checks, in order.
pub open spec fn location_urls(url: Seq<char>, d: LocationV) -> Seq<Seq<char>> {
    seq![url]
    + opt_url(d.region_url)
    + flat_map_of(d.game_indices, |g: GameIndexV| seq![g.url])
    + d.area_urls
}

/// The anonymous identity of the `i`-th game index of location `id`.
pub open spec fn location_game_index_id(id: nat, i: int) -> Seq<AnonSegV> {
    seq![
        AnonSegV { word: "location"@, num: id },
        AnonSegV { word: "gameIndex"@, num: i as nat },
    ]
}

/// The statement block of the `i`-th game index of a location.
pub open spec fn location_game_index_sts(s: RefV, id: nat, i: int, g: GameIndexV)
    -> Seq<StatementV> {
    let a = location_game_index_id(id, i);
    seq![
        anon_st(s, pred_iri(Ns::Poke, "gameIndex"@), a),
        int_st(RefV::Anonymous(a), pred_iri(Ns::Poke, "index"@), g.game_index),
        link_st(RefV::Anonymous(a), pred_iri(Ns::Poke, "generation"@), g.url),
    ]
}

/// The statements extracted from one location document.
pub open spec fn location_sts(url: Seq<char>, d: LocationV, loc: Seq<char>) -> Seq<StatementV> {
    let s = RefV::Named(url);
    seq![
        class_st(s, "Location"@),
        int_st(s, pred_iri(Ns::Schema, "identifier"@), d.id as int),
        text_st(s, pred_iri(Ns::Schema, "name"@), d.name),
    ]
    + opt_link_sts(s, pred_iri(Ns::Poke, "region"@), d.region_url)
    + loc_texts(s, pred_iri(Ns::Poke, "names"@), d.names, loc)
    + flat_map_idx(d.game_indices, 0,
        |i: int, g: GameIndexV| location_game_index_sts(s, d.id, i, g))
    + link_sts(s, pred_iri(Ns::Schema, "name"@), d.area_urls)
}

/// Extracts the statements of one location.
#[verifier::loop_isolation(false)]
pub fn location_to_statements(url: &str, d: &Location, locale: &str)
    -> (r: Result<Vec<Statement>, PipelineError>)
    ensures
        r.is_ok() <==> all_ok(location_urls(url@, d.deep_view())),
        r matches Ok(v) ==> v.deep_view() == location_sts(url@, d.deep_view(), locale@),
        r matches Err(e) ==> e.deep_view()
            == ErrorV::InvalidIdentity(first_bad(location_urls(url@, d.deep_view()))),
{
    let ghost dv = d.deep_view();
    let ghost s = RefV::Named(url@);
    let (mut em, subject) = Emitter::open(url);
    em.class(&subject, "Location");
    em.lit_uint(&subject, Ns::Schema, "identifier", d.id);
    em.lit_text(&subject, Ns::Schema, "name", d.name.as_str());
    em.opt_link(&subject, Ns::Poke, "region", &d.region_url);
    em.texts(&subject, Ns::Poke, "names", &d.names, locale);
    let ghost head = seq![
        class_st(s, "Location"@),
        int_st(s, pred_iri(Ns::Schema, "identifier"@), dv.id as int),
        text_st(s, pred_iri(Ns::Schema, "name"@), dv.name),
    ] + opt_link_sts(s, pred_iri(Ns::Poke, "region"@), dv.region_url)
        + loc_texts(s, pred_iri(Ns::Poke, "names"@), dv.names, locale@);
    let ghost head_urls = seq![url@] + opt_url(dv.region_url);
    proof {
        assert(em.urls_view() == head_urls);
        if em.ok() {
            assert(em.out_view() =~= seq![
                class_st(s, "Location"@),
                int_st(s, pred_iri(Ns::Schema, "identifier"@), dv.id as int),
                text_st(s, pred_iri(Ns::Schema, "name"@), dv.name),
            ] + opt_link_sts(s, pred_iri(Ns::Poke, "region"@), dv.region_url)
                + loc_texts(s, pred_iri(Ns::Poke, "names"@), dv.names, locale@));
        }
        reveal_strlit("location");
        reveal_strlit("gameIndex");
        assert(wf_word("location"@));
        assert(wf_word("gameIndex"@));
    }
    let root = AnonId::root("location", d.id);
    let ghost fu = |g: GameIndexV| seq![g.url];
    let ghost fs = |i: int, g: GameIndexV| location_game_index_sts(s, dv.id, i, g);
    let n = d.game_indices.len();
    let mut i: usize = 0;
    while i < n
        invariant
            em.wf(),
            n == d.game_indices.len(),
            i <= n,
            em.urls_view() == head_urls
                + flat_map_of(d.game_indices.deep_view().take(i as int), fu),
            em.ok() ==> em.out_view() == head
                + flat_map_idx(d.game_indices.deep_view().take(i as int), 0, fs),
        decreases n - i,
    {
        let ghost pre_urls = em.urls_view();
        let ghost pre_out = em.out_view();
        let g = &d.game_indices[i];
        let gid = root.child("gameIndex", i as u64);
        proof {
            assert(gid.deep_view() =~= location_game_index_id(dv.id, i as int));
        }
        em.anon_obj(&subject, Ns::Poke, "gameIndex", &gid);
        let gref = EntityRef::Anonymous(gid);
        em.lit_int(&gref, Ns::Poke, "index", g.game_index);
        em.link(&gref, Ns::Poke, "generation", g.url.as_str());
        proof {
            let gv = d.game_indices.deep_view();
            assert(gv.take(i + 1 as int) =~= gv.take(i as int).push(gv[i as int]));
            lemma_flat_map_snoc(gv.take(i as int), gv[i as int], fu);
            lemma_concat_assoc(head_urls, flat_map_of(gv.take(i as int), fu), fu(gv[i as int]));
            assert(pre_urls + seq![dv.game_indices[i as int].url] =~= pre_urls
                + fu(gv[i as int]));
            assert(em.urls_view() =~= head_urls + flat_map_of(gv.take(i + 1 as int), fu));
            if em.ok() {
                lemma_flat_map_idx_snoc(gv.take(i as int), 0, gv[i as int], fs);
                lemma_concat_assoc(head, flat_map_idx(gv.take(i as int), 0, fs),
                    fs(i as int, gv[i as int]));
                let a = location_game_index_id(dv.id, i as int);
                assert(em.out_view() =~= pre_out + seq![
                    anon_st(s, pred_iri(Ns::Poke, "gameIndex"@), a),
                    int_st(RefV::Anonymous(a), pred_iri(Ns::Poke, "index"@),
                        gv[i as int].game_index),
                    link_st(RefV::Anonymous(a), pred_iri(Ns::Poke, "generation"@),
                        gv[i as int].url),
                ]);
                assert(em.out_view() =~= head + flat_map_idx(gv.take(i + 1 as int), 0, fs));
            }
        }
        i = i + 1;
    }
    proof {
        assert(d.game_indices.deep_view().take(n as int) =~= d.game_indices.deep_view());
    }
    em.links(&subject, Ns::Schema, "name", &d.area_urls);
    proof {
        assert(em.urls_view() == location_urls(url@, dv));
        if em.ok() {
            assert(em.out_view() == location_sts(url@, dv, locale@));
        }
    }
    em.finish()
}

} // verus!
