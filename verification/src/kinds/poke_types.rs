//! Extraction of type documents.

use vstd::prelude::*;
use crate::chars::lemma_concat_assoc;
use crate::error::{ErrorV, PipelineError};
use crate::extract::{all_ok, anon_st, class_st, Emitter, first_bad, flat_map_idx, flat_map_of,
    int_st, lemma_flat_map_idx_snoc, lemma_flat_map_snoc, link_st, link_sts, loc_texts, Ns,
    opt_link_sts, opt_url, pred_iri, text_st};
use crate::ident::{AnonId, AnonSegV, wf_word};
use crate::model::{GameIndexV, PokeType, PokeTypeV};
use crate::statement::{EntityRef, RefV, Statement, StatementV};

verus! {

/// The URLs a type extraction checks, in order.
pub open spec fn poke_type_urls(url: Seq<char>, d: PokeTypeV) -> Seq<Seq<char>> {
    seq![url]
    + d.double_damage_from
    + d.double_damage_to
    + d.half_damage_from
    + d.half_damage_to
    + d.no_damage_from
    + d.no_damage_to
    + flat_map_of(d.game_indices, |g: GameIndexV| seq![g.url])
    + seq![d.generation_url]
    + opt_url(d.move_damage_class_url)
    + d.pokemon_urls
    + d.move_urls
}

/// The anonymous identity of the `i`-th game index of type `id`.
pub open spec fn type_game_index_id(id: nat, i: int) -> Seq<AnonSegV> {
    seq![
        AnonSegV { word: "type"@, num: id },
        AnonSegV { word: "gameIndex"@, num: i as nat },
    ]
}

/// The statement block of the `i`-th game index of a type.
pub open spec fn type_game_index_sts(s: RefV, id: nat, i: int, g: GameIndexV)
    -> Seq<StatementV> {
    let a = type_game_index_id(id, i);
    seq![
        anon_st(s, pred_iri(Ns::Poke, "gameIndex"@), a),
        int_st(RefV::Anonymous(a), pred_iri(Ns::Poke, "index"@), g.game_index),
        link_st(RefV::Anonymous(a), pred_iri(Ns::Poke, "generation"@), g.url),
    ]
}

/// The statements extracted from one type document.
pub open spec fn poke_type_sts(url: Seq<char>, d: PokeTypeV, loc: Seq<char>) -> Seq<StatementV> {
    let s = RefV::Named(url);
    seq![
        class_st(s, "PokemonType"@),
        text_st(s, pred_iri(Ns::Schema, "name"@), d.name),
        int_st(s, pred_iri(Ns::Schema, "identifier"@), d.id as int),
    ]
    + link_sts(s, pred_iri(Ns::Poke, "doubleDamageFrom"@), d.double_damage_from)
    + link_sts(s, pred_iri(Ns::Poke, "doubleDamageTo"@), d.double_damage_to)
    + link_sts(s, pred_iri(Ns::Poke, "halfDamageFrom"@), d.half_damage_from)
    + link_sts(s, pred_iri(Ns::Poke, "halfDamageTo"@), d.half_damage_to)
    + link_sts(s, pred_iri(Ns::Poke, "noDamageFrom"@), d.no_damage_from)
    + link_sts(s, pred_iri(Ns::Poke, "noDamageTo"@), d.no_damage_to)
    + flat_map_idx(d.game_indices, 0, |i: int, g: GameIndexV| type_game_index_sts(s, d.id, i, g))
    + seq![link_st(s, pred_iri(Ns::Poke, "generation"@), d.generation_url)]
    + loc_texts(s, pred_iri(Ns::Poke, "names"@), d.names, loc)
    + opt_link_sts(s, pred_iri(Ns::Poke, "damageClass"@), d.move_damage_class_url)
    + link_sts(s, pred_iri(Ns::Poke, "pokemon"@), d.pokemon_urls)
    + link_sts(s, pred_iri(Ns::Poke, "move"@), d.move_urls)
}

/// Extracts the statements of one type.
#[verifier::loop_isolation(false)]
pub fn poke_type_to_statements(url: &str, d: &PokeType, locale: &str)
    -> (r: Result<Vec<Statement>, PipelineError>)
    ensures
        r.is_ok() <==> all_ok(poke_type_urls(url@, d.deep_view())),
        r matches Ok(v) ==> v.deep_view() == poke_type_sts(url@, d.deep_view(), locale@),
        r matches Err(e) ==> e.deep_view()
            == ErrorV::InvalidIdentity(first_bad(poke_type_urls(url@, d.deep_view()))),
{
    let ghost dv = d.deep_view();
    let ghost s = RefV::Named(url@);
    let (mut em, subject) = Emitter::open(url);
    em.class(&subject, "PokemonType");
    em.lit_text(&subject, Ns::Schema, "name", d.name.as_str());
    em.lit_uint(&subject, Ns::Schema, "identifier", d.id);
    em.links(&subject, Ns::Poke, "doubleDamageFrom", &d.double_damage_from);
    em.links(&subject, Ns::Poke, "doubleDamageTo", &d.double_damage_to);
    em.links(&subject, Ns::Poke, "halfDamageFrom", &d.half_damage_from);
    em.links(&subject, Ns::Poke, "halfDamageTo", &d.half_damage_to);
    em.links(&subject, Ns::Poke, "noDamageFrom", &d.no_damage_from);
    em.links(&subject, Ns::Poke, "noDamageTo", &d.no_damage_to);
    let ghost head = seq![
        class_st(s, "PokemonType"@),
        text_st(s, pred_iri(Ns::Schema, "name"@), dv.name),
        int_st(s, pred_iri(Ns::Schema, "identifier"@), dv.id as int),
    ]
    + link_sts(s, pred_iri(Ns::Poke, "doubleDamageFrom"@), dv.double_damage_from)
    + link_sts(s, pred_iri(Ns::Poke, "doubleDamageTo"@), dv.double_damage_to)
    + link_sts(s, pred_iri(Ns::Poke, "halfDamageFrom"@), dv.half_damage_from)
    + link_sts(s, pred_iri(Ns::Poke, "halfDamageTo"@), dv.half_damage_to)
    + link_sts(s, pred_iri(Ns::Poke, "noDamageFrom"@), dv.no_damage_from)
    + link_sts(s, pred_iri(Ns::Poke, "noDamageTo"@), dv.no_damage_to);
    let ghost head_urls = seq![url@] + dv.double_damage_from + dv.double_damage_to
        + dv.half_damage_from + dv.half_damage_to + dv.no_damage_from + dv.no_damage_to;
    proof {
        assert(em.urls_view() == head_urls);
        if em.ok() {
            assert(em.out_view() =~= seq![
                class_st(s, "PokemonType"@),
                text_st(s, pred_iri(Ns::Schema, "name"@), dv.name),
                int_st(s, pred_iri(Ns::Schema, "identifier"@), dv.id as int),
            ]
            + link_sts(s, pred_iri(Ns::Poke, "doubleDamageFrom"@), dv.double_damage_from)
            + link_sts(s, pred_iri(Ns::Poke, "doubleDamageTo"@), dv.double_damage_to)
            + link_sts(s, pred_iri(Ns::Poke, "halfDamageFrom"@), dv.half_damage_from)
            + link_sts(s, pred_iri(Ns::Poke, "halfDamageTo"@), dv.half_damage_to)
            + link_sts(s, pred_iri(Ns::Poke, "noDamageFrom"@), dv.no_damage_from)
            + link_sts(s, pred_iri(Ns::Poke, "noDamageTo"@), dv.no_damage_to));
        }
        reveal_strlit("type");
        reveal_strlit("gameIndex");
        assert(wf_word("type"@));
        assert(wf_word("gameIndex"@));
    }
    let root = AnonId::root("type", d.id);
    let ghost fu = |g: GameIndexV| seq![g.url];
    let ghost fs = |i: int, g: GameIndexV| type_game_index_sts(s, dv.id, i, g);
    let n = d.game_indices.len();
    let mut i: usize = 0;
    while i < n
        invariant
            em.wf(),
            n == d.game_indices.len(),
            i <= n,
            em.urls_view() == head_urls
                + flat_map_of(d.game_indices.deep_view().take(i as int), fu),
            em.ok() ==> em.out_view() == head
                + flat_map_idx(d.game_indices.deep_view().take(i as int), 0, fs),
        decreases n - i,
    {
        let ghost pre_urls = em.urls_view();
        let ghost pre_out = em.out_view();
        let g = &d.game_indices[i];
        let gid = root.child("gameIndex", i as u64);
        proof {
            assert(gid.deep_view() =~= type_game_index_id(dv.id, i as int));
        }
        em.anon_obj(&subject, Ns::Poke, "gameIndex", &gid);
        let gref = EntityRef::Anonymous(gid);
        em.lit_int(&gref, Ns::Poke, "index", g.game_index);
        em.link(&gref, Ns::Poke, "generation", g.url.as_str());
        proof {
            let gv = d.game_indices.deep_view();
            assert(gv.take(i + 1 as int) =~= gv.take(i as int).push(gv[i as int]));
            lemma_flat_map_snoc(gv.take(i as int), gv[i as int], fu);
            lemma_concat_assoc(head_urls, flat_map_of(gv.take(i as int), fu), fu(gv[i as int]));
            assert(pre_urls + seq![dv.game_indices[i as int].url] =~= pre_urls
                + fu(gv[i as int]));
            assert(em.urls_view() =~= head_urls + flat_map_of(gv.take(i + 1 as int), fu));
            if em.ok() {
                lemma_flat_map_idx_snoc(gv.take(i as int), 0, gv[i as int], fs);
                lemma_concat_assoc(head, flat_map_idx(gv.take(i as int), 0, fs),
                    fs(i as int, gv[i as int]));
                let a = type_game_index_id(dv.id, i as int);
                assert(em.out_view() =~= pre_out + seq![
                    anon_st(s, pred_iri(Ns::Poke, "gameIndex"@), a),
                    int_st(RefV::Anonymous(a), pred_iri(Ns::Poke, "index"@),
                        gv[i as int].game_index),
                    link_st(RefV::Anonymous(a), pred_iri(Ns::Poke, "generation"@),
                        gv[i as int].url),
                ]);
                assert(em.out_view() =~= head + flat_map_idx(gv.take(i + 1 as int), 0, fs));
            }
        }
        i = i + 1;
    }
    proof {
        assert(d.game_indices.deep_view().take(n as int) =~= d.game_indices.deep_view());
    }
    em.link(&subject, Ns::Poke, "generation", d.generation_url.as_str());
    em.texts(&subject, Ns::Poke, "names", &d.names, locale);
    em.opt_link(&subject, Ns::Poke, "damageClass", &d.move_damage_class_url);
    em.links(&subject, Ns::Poke, "pokemon", &d.pokemon_urls);
    em.links(&subject, Ns::Poke, "move", &d.move_urls);
    proof {
        assert(em.urls_view() == poke_type_urls(url@, dv));
        if em.ok() {
            assert(em.out_view() == poke_type_sts(url@, dv, locale@));
        }
    }
    em.finish()
}

} // verus!
