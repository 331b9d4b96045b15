//! Extraction of pokemon documents.

use vstd::prelude::*;
use crate::chars::lemma_concat_assoc;
use crate::error::{ErrorV, PipelineError};
use crate::extract::{all_ok, anon_st, class_st, Emitter, first_bad, flat_map_idx, flat_map_of,
    int_st, lemma_flat_map_idx_snoc, lemma_flat_map_snoc, link_st, link_sts, Ns, opt_int_sts,
    opt_link_sts, opt_url, pred_iri, text_st};
use crate::ident::{lemma_paths_differ_len, lemma_paths_differ_num, lemma_paths_differ_word,
    wf_segs, AnonId, AnonSegV, wf_word};
use crate::model::{Encounter, EncounterCaseV, EncounterV, EncounterVersionV, GameIndexV,
    HeldVersionDetailV, PastTypeV, Pokemon, PokemonHeldV, PokemonMove, PokemonMoveV,
    PokemonStatV, PokemonV, MoveVersionGroupV};
use crate::statement::{EntityRef, RefV, Statement, StatementV};

verus! {

/// The URLs a pokemon extraction checks, in order.
pub open spec fn pokemon_urls(url: Seq<char>, d: PokemonV) -> Seq<Seq<char>> {
    seq![url]
    + d.type_urls
    + d.ability_urls
    + flat_map_of(d.moves, |m: PokemonMoveV| seq![m.move_url]
        + flat_map_of(m.version_details,
            |v: MoveVersionGroupV| seq![v.learn_method_url, v.version_group_url]))
    + d.form_urls
    + flat_map_of(d.game_indices, |g: GameIndexV| seq![g.url])
    + flat_map_of(d.held_items, |h: PokemonHeldV| flat_map_of(h.version_details,
        |v: HeldVersionDetailV| seq![h.item_url, v.version_url]))
    + seq![d.location_area_encounters_url]
    + flat_map_of(d.encounters, |e: EncounterV| flat_map_of(e.version_details,
        |v: EncounterVersionV| seq![e.location_area_url, v.version_url]
            + flat_map_of(v.cases,
                |c: EncounterCaseV| seq![c.method_url] + c.condition_urls)))
    + flat_map_of(d.past_types, |p: PastTypeV| flat_map_of(p.type_urls,
        |t: Seq<char>| seq![t, p.generation_url]))
    + pokemon_sprite_urls(d)
    + seq![d.species_url]
    + flat_map_of(d.stats, |st: PokemonStatV| seq![st.stat_url])
}

/// The URLs of a pokemon's default and shiny sprites.
pub open spec fn pokemon_sprite_urls_a(d: PokemonV) -> Seq<Seq<char>> {
    opt_url(d.front_default_sprite)
    + opt_url(d.back_default_sprite)
    + opt_url(d.front_shiny_sprite)
    + opt_url(d.back_shiny_sprite)
}

/// The URLs of a pokemon's female sprites.
pub open spec fn pokemon_sprite_urls_b(d: PokemonV) -> Seq<Seq<char>> {
    opt_url(d.front_female_sprite)
    + opt_url(d.back_female_sprite)
    + opt_url(d.front_shiny_female_sprite)
    + opt_url(d.back_shiny_female_sprite)
}

/// The URLs of a pokemon's sprite fields, in order.
pub open spec fn pokemon_sprite_urls(d: PokemonV) -> Seq<Seq<char>> {
    pokemon_sprite_urls_a(d) + pokemon_sprite_urls_b(d)
}

/// The anonymous identity of the `i`-th move of pokemon `id`.
pub open spec fn pokemon_move_id(id: nat, i: int) -> Seq<AnonSegV> {
    seq![
        AnonSegV { word: "pokemon"@, num: id },
        AnonSegV { word: "move"@, num: i as nat },
    ]
}

/// The anonymous identity of the `j`-th version-group detail of the
/// `i`-th move of pokemon `id`.
pub open spec fn pokemon_move_vgd_id(id: nat, i: int, j: int) -> Seq<AnonSegV> {
    pokemon_move_id(id, i).push(AnonSegV { word: "versionGroup"@, num: j as nat })
}

/// The statement block of the `j`-th version-group detail of the `i`-th
/// move of a pokemon.
pub open spec fn pokemon_move_vgd_sts(id: nat, i: int, j: int, v: MoveVersionGroupV)
    -> Seq<StatementV> {
    let a = pokemon_move_id(id, i);
    let b = pokemon_move_vgd_id(id, i, j);
    seq![
        anon_st(RefV::Anonymous(a), pred_iri(Ns::Poke, "versionGroupDetails"@), b),
        link_st(RefV::Anonymous(b), pred_iri(Ns::Poke, "learnMethod"@), v.learn_method_url),
        link_st(RefV::Anonymous(b), pred_iri(Ns::Poke, "versionGroup"@),
            v.version_group_url),
        int_st(RefV::Anonymous(b), pred_iri(Ns::Poke, "levelLearnedAt"@),
            v.level_learned_at),
    ]
}

/// The statement block of the `i`-th move of a pokemon.
pub open spec fn pokemon_move_sts(s: RefV, id: nat, i: int, m: PokemonMoveV)
    -> Seq<StatementV> {
    let a = pokemon_move_id(id, i);
    seq![
        anon_st(s, pred_iri(Ns::Poke, "pokemonMove"@), a),
        link_st(RefV::Anonymous(a), pred_iri(Ns::Poke, "move"@), m.move_url),
    ]
    + flat_map_idx(m.version_details, 0,
        |j: int, v: MoveVersionGroupV| pokemon_move_vgd_sts(id, i, j, v))
}

/// The anonymous identity of the `i`-th game index of pokemon `id`.
pub open spec fn pokemon_game_index_id(id: nat, i: int) -> Seq<AnonSegV> {
    seq![
        AnonSegV { word: "pokemon"@, num: id },
        AnonSegV { word: "gameIndex"@, num: i as nat },
    ]
}

/// The statement block of the `i`-th game index of a pokemon; its game
/// belongs to a version.
pub open spec fn pokemon_game_index_sts(s: RefV, id: nat, i: int, g: GameIndexV)
    -> Seq<StatementV> {
    let a = pokemon_game_index_id(id, i);
    seq![
        anon_st(s, pred_iri(Ns::Poke, "gameIndex"@), a),
        int_st(RefV::Anonymous(a), pred_iri(Ns::Poke, "index"@), g.game_index),
        link_st(RefV::Anonymous(a), pred_iri(Ns::Poke, "generation"@), g.url),
    ]
}

/// The anonymous identity of the `j`-th version detail of the `i`-th
/// held item of pokemon `id`.
pub open spec fn pokemon_held_vd_id(id: nat, i: int, j: int) -> Seq<AnonSegV> {
    seq![
        AnonSegV { word: "pokemon"@, num: id },
        AnonSegV { word: "heldItem"@, num: i as nat },
        AnonSegV { word: "versionDetail"@, num: j as nat },
    ]
}

/// The statement block of the `j`-th version detail of the `i`-th held
/// item of a pokemon.
pub open spec fn pokemon_held_vd_sts(s: RefV, id: nat, i: int, j: int, item_url: Seq<char>,
    v: HeldVersionDetailV) -> Seq<StatementV> {
    let b = pokemon_held_vd_id(id, i, j);
    seq![
        anon_st(s, pred_iri(Ns::Poke, "mayHoldItem"@), b),
        link_st(RefV::Anonymous(b), pred_iri(Ns::Poke, "item"@), item_url),
        link_st(RefV::Anonymous(b), pred_iri(Ns::Poke, "version"@), v.version_url),
        int_st(RefV::Anonymous(b), pred_iri(Ns::Poke, "rarity"@), v.rarity),
    ]
}

/// The statement block of the `i`-th held item of a pokemon: one block
/// per version detail.
pub open spec fn pokemon_held_sts(s: RefV, id: nat, i: int, h: PokemonHeldV)
    -> Seq<StatementV> {
    flat_map_idx(h.version_details, 0,
        |j: int, v: HeldVersionDetailV| pokemon_held_vd_sts(s, id, i, j, h.item_url, v))
}

/// The anonymous identity of the `j`-th version detail of the `i`-th
/// location-area encounter of pokemon `id`.
pub open spec fn pokemon_enc_vd_id(id: nat, i: int, j: int) -> Seq<AnonSegV> {
    seq![
        AnonSegV { word: "pokemon"@, num: id },
        AnonSegV { word: "locationAreaEncounter"@, num: i as nat },
        AnonSegV { word: "versionDetail"@, num: j as nat },
    ]
}

/// The anonymous identity of the `k`-th encounter occasion under the
/// `j`-th version detail of the `i`-th location-area encounter.
pub open spec fn pokemon_enc_case_id(id: nat, i: int, j: int, k: int) -> Seq<AnonSegV> {
    pokemon_enc_vd_id(id, i, j).push(AnonSegV { word: "encounterDetail"@, num: k as nat })
}

/// The statement block of the `k`-th encounter occasion under one
/// version detail.
pub open spec fn pokemon_enc_case_sts(id: nat, i: int, j: int, k: int, c: EncounterCaseV)
    -> Seq<StatementV> {
    let b = pokemon_enc_vd_id(id, i, j);
    let e = pokemon_enc_case_id(id, i, j, k);
    seq![
        anon_st(RefV::Anonymous(b), pred_iri(Ns::Poke, "encounterDetail"@), e),
        link_st(RefV::Anonymous(e), pred_iri(Ns::Poke, "method"@), c.method_url),
        int_st(RefV::Anonymous(e), pred_iri(Ns::Poke, "chance"@), c.chance),
        int_st(RefV::Anonymous(e), pred_iri(Ns::Poke, "minLevel"@), c.min_level),
        int_st(RefV::Anonymous(e), pred_iri(Ns::Poke, "maxLevel"@), c.max_level),
    ]
    + link_sts(RefV::Anonymous(e), pred_iri(Ns::Poke, "hasCondition"@), c.condition_urls)
}

/// The statement block of the `j`-th version detail of the `i`-th
/// location-area encounter; it hangs off the encounter listing's named
/// reference.
pub open spec fn pokemon_enc_vd_sts(lae: RefV, id: nat, i: int, j: int, loc_url: Seq<char>,
    v: EncounterVersionV) -> Seq<StatementV> {
    let b = pokemon_enc_vd_id(id, i, j);
    seq![
        anon_st(lae, pred_iri(Ns::Poke, "locationAreaEncounter"@), b),
        link_st(RefV::Anonymous(b), pred_iri(Ns::Poke, "locationArea"@), loc_url),
        link_st(RefV::Anonymous(b), pred_iri(Ns::Poke, "version"@), v.version_url),
        int_st(RefV::Anonymous(b), pred_iri(Ns::Poke, "maxChance"@), v.max_chance),
    ]
    + flat_map_idx(v.cases, 0, |k: int, c: EncounterCaseV| pokemon_enc_case_sts(id, i, j, k, c))
}

/// The statement block of the `i`-th location-area encounter of a
/// pokemon.
pub open spec fn pokemon_enc_sts(lae: RefV, id: nat, i: int, e: EncounterV)
    -> Seq<StatementV> {
    flat_map_idx(e.version_details, 0,
        |j: int, v: EncounterVersionV| pokemon_enc_vd_sts(lae, id, i, j,
            e.location_area_url, v))
}

/// The anonymous identity of the `j`-th type of the `i`-th past typing
/// of pokemon `id`.
pub open spec fn pokemon_past_one_id(id: nat, i: int, j: int) -> Seq<AnonSegV> {
    seq![
        AnonSegV { word: "pokemon"@, num: id },
        AnonSegV { word: "pastType"@, num: i as nat },
        AnonSegV { word: "type"@, num: j as nat },
    ]
}

/// The statement block of one past typing entry of a pokemon.
pub open spec fn pokemon_past_one_sts(s: RefV, id: nat, i: int, j: int, t: Seq<char>,
    gen_url: Seq<char>) -> Seq<StatementV> {
    let a = pokemon_past_one_id(id, i, j);
    seq![
        anon_st(s, pred_iri(Ns::Poke, "pastType"@), a),
        link_st(RefV::Anonymous(a), pred_iri(Ns::Kg, "hasType"@), t),
        link_st(RefV::Anonymous(a), pred_iri(Ns::Poke, "generation"@), gen_url),
    ]
}

/// The statement block of the `i`-th past typing of a pokemon.
pub open spec fn pokemon_past_sts(s: RefV, id: nat, i: int, p: PastTypeV) -> Seq<StatementV> {
    flat_map_idx(p.type_urls, 0,
        |j: int, t: Seq<char>| pokemon_past_one_sts(s, id, i, j, t, p.generation_url))
}

/// The statements of a pokemon's default and shiny sprites.
pub open spec fn pokemon_sprite_sts_a(s: RefV, d: PokemonV) -> Seq<StatementV> {
    opt_link_sts(s, pred_iri(Ns::Poke, "frontDefaultSprite"@), d.front_default_sprite)
    + opt_link_sts(s, pred_iri(Ns::Poke, "backDefaultSprite"@), d.back_default_sprite)
    + opt_link_sts(s, pred_iri(Ns::Poke, "frontShinySprite"@), d.front_shiny_sprite)
    + opt_link_sts(s, pred_iri(Ns::Poke, "backShinySprite"@), d.back_shiny_sprite)
}

/// The statements of a pokemon's female sprites.
pub open spec fn pokemon_sprite_sts_b(s: RefV, d: PokemonV) -> Seq<StatementV> {
    opt_link_sts(s, pred_iri(Ns::Poke, "frontFemaleSprite"@), d.front_female_sprite)
    + opt_link_sts(s, pred_iri(Ns::Poke, "backFemaleSprite"@), d.back_female_sprite)
    + opt_link_sts(s, pred_iri(Ns::Poke, "frontFemaleShinySprite"@),
        d.front_shiny_female_sprite)
    + opt_link_sts(s, pred_iri(Ns::Poke, "backFemaleShinySprite"@),
        d.back_shiny_female_sprite)
}

/// The sprite statements of a pokemon, each present only when the
/// sprite is.
pub open spec fn pokemon_sprite_sts(s: RefV, d: PokemonV) -> Seq<StatementV> {
    pokemon_sprite_sts_a(s, d) + pokemon_sprite_sts_b(s, d)
}

/// The anonymous identity of the `i`-th base stat of pokemon `id`.
pub open spec fn pokemon_stat_id(id: nat, i: int) -> Seq<AnonSegV> {
    seq![
        AnonSegV { word: "pokemon"@, num: id },
        AnonSegV { word: "stat"@, num: i as nat },
    ]
}

/// The statement block of the `i`-th base stat of a pokemon.
pub open spec fn pokemon_stat_sts(s: RefV, id: nat, i: int, st: PokemonStatV)
    -> Seq<StatementV> {
    let a = pokemon_stat_id(id, i);
    seq![
        anon_st(s, pred_iri(Ns::Poke, "pokemonStat"@), a),
        link_st(RefV::Anonymous(a), pred_iri(Ns::Poke, "stat"@), st.stat_url),
        int_st(RefV::Anonymous(a), pred_iri(Ns::Poke, "baseStat"@), st.base_stat),
        int_st(RefV::Anonymous(a), pred_iri(Ns::Poke, "effort"@), st.effort),
    ]
}

/// The leading statements of a pokemon document.
pub open spec fn pokemon_head_sts(s: RefV, d: PokemonV) -> Seq<StatementV> {
    seq![
        class_st(s, "Pokemon"@),
        int_st(s, pred_iri(Ns::Schema, "identifier"@), d.id as int),
        text_st(s, pred_iri(Ns::Schema, "name"@), d.name),
    ]
    + opt_int_sts(s, pred_iri(Ns::Poke, "baseExperience"@), d.base_experience)
    + seq![int_st(s, pred_iri(Ns::Poke, "height"@), d.height)]
    + seq![int_st(s, pred_iri(Ns::Poke, "order"@), d.order)]
    + seq![int_st(s, pred_iri(Ns::Poke, "weight"@), d.weight)]
}

/// The statements extracted from one pokemon document.
pub open spec fn pokemon_sts(url: Seq<char>, d: PokemonV) -> Seq<StatementV> {
    let s = RefV::Named(url);
    let lae = RefV::Named(d.location_area_encounters_url);
    pokemon_head_sts(s, d)
    + link_sts(s, pred_iri(Ns::Kg, "hasType"@), d.type_urls)
    + link_sts(s, pred_iri(Ns::Kg, "mayHaveAbility"@), d.ability_urls)
    + flat_map_idx(d.moves, 0, |i: int, m: PokemonMoveV| pokemon_move_sts(s, d.id, i, m))
    + link_sts(s, pred_iri(Ns::Poke, "hasForm"@), d.form_urls)
    + flat_map_idx(d.game_indices, 0,
        |i: int, g: GameIndexV| pokemon_game_index_sts(s, d.id, i, g))
    + flat_map_idx(d.held_items, 0, |i: int, h: PokemonHeldV| pokemon_held_sts(s, d.id, i, h))
    + seq![link_st(s, pred_iri(Ns::Poke, "hasLocationAreaEncounter"@),
        d.location_area_encounters_url)]
    + flat_map_idx(d.encounters, 0, |i: int, e: EncounterV| pokemon_enc_sts(lae, d.id, i, e))
    + flat_map_idx(d.past_types, 0, |i: int, p: PastTypeV| pokemon_past_sts(s, d.id, i, p))
    + pokemon_sprite_sts(s, d)
    + seq![link_st(s, pred_iri(Ns::Poke, "species"@), d.species_url)]
    + flat_map_idx(d.stats, 0, |i: int, st: PokemonStatV| pokemon_stat_sts(s, d.id, i, st))
}

/// Emits the leading statements of a pokemon.
#[verifier::loop_isolation(false)]
#[verifier::rlimit(100)]
fn emit_pokemon_head(em: &mut Emitter, subject: &EntityRef, d: &Pokemon)
    requires
        old(em).wf(),
    ensures
        final(em).wf(),
        final(em).urls_view() == old(em).urls_view(),
        final(em).err_view() == old(em).err_view(),
        final(em).ok() ==> final(em).out_view() == old(em).out_view()
            + pokemon_head_sts(subject.deep_view(), d.deep_view()),
        !old(em).ok() ==> final(em).out_view() == old(em).out_view(),
{
    let ghost s = subject.deep_view();
    let ghost dv = d.deep_view();
    em.class(subject, "Pokemon");
    em.lit_uint(subject, Ns::Schema, "identifier", d.id);
    em.lit_text(subject, Ns::Schema, "name", d.name.as_str());
    em.opt_int(subject, Ns::Poke, "baseExperience", &d.base_experience);
    em.lit_int(subject, Ns::Poke, "height", d.height);
    em.lit_int(subject, Ns::Poke, "order", d.order);
    em.lit_int(subject, Ns::Poke, "weight", d.weight);
    proof {
        if em.ok() {
            assert(em.out_view() =~= old(em).out_view() + pokemon_head_sts(s, dv));
        }
    }
}

/// Emits the move blocks of a pokemon.
#[verifier::loop_isolation(false)]
#[verifier::rlimit(100)]
fn emit_pokemon_moves(em: &mut Emitter, subject: &EntityRef, root: &AnonId, d: &Pokemon)
    requires
        old(em).wf(),
        root.deep_view() == seq![AnonSegV { word: "pokemon"@, num: d.id as nat }],
        wf_word("move"@),
        wf_word("versionGroup"@),
    ensures
        final(em).wf(),
        final(em).urls_view() == old(em).urls_view() + flat_map_of(d.deep_view().moves,
            |m: PokemonMoveV| seq![m.move_url] + flat_map_of(m.version_details,
                |v: MoveVersionGroupV| seq![v.learn_method_url, v.version_group_url])),
        final(em).ok() ==> old(em).ok(),
        final(em).ok() ==> final(em).out_view() == old(em).out_view() + flat_map_idx(
            d.deep_view().moves, 0,
            |i: int, m: PokemonMoveV| pokemon_move_sts(subject.deep_view(),
                d.deep_view().id, i, m)),
        !old(em).ok() ==> final(em).out_view() == old(em).out_view(),
{
    let ghost s = subject.deep_view();
    let ghost dv = d.deep_view();
    let ghost mu = |m: PokemonMoveV| seq![m.move_url] + flat_map_of(m.version_details,
        |v: MoveVersionGroupV| seq![v.learn_method_url, v.version_group_url]);
    let ghost ms = |i: int, m: PokemonMoveV| pokemon_move_sts(s, dv.id, i, m);
    let ghost entry_ok = em.ok();
    let n = d.moves.len();
    let mut i: usize = 0;
    while i < n
        invariant
            em.wf(),
            em.ok() ==> entry_ok,
            !old(em).ok() ==> em.out_view() == old(em).out_view(),
            n == d.moves.len(),
            i <= n,
            em.urls_view() == old(em).urls_view()
                + flat_map_of(d.moves.deep_view().take(i as int), mu),
            em.ok() ==> em.out_view() == old(em).out_view()
                + flat_map_idx(d.moves.deep_view().take(i as int), 0, ms),
        decreases n - i,
    {
        let ghost pre_urls = em.urls_view();
        let ghost pre_out = em.out_view();
        let m = &d.moves[i];
        let mid = root.child("move", i as u64);
        proof {
            assert(mid.deep_view() =~= pokemon_move_id(dv.id, i as int));
        }
        em.anon_obj(subject, Ns::Poke, "pokemonMove", &mid);
        let mref = EntityRef::Anonymous(mid.duplicate());
        em.link(&mref, Ns::Poke, "move", m.move_url.as_str());
        let ghost mv = d.moves.deep_view()[i as int];
        let ghost a = pokemon_move_id(dv.id, i as int);
        let ghost fixed = seq![
            anon_st(s, pred_iri(Ns::Poke, "pokemonMove"@), a),
            link_st(RefV::Anonymous(a), pred_iri(Ns::Poke, "move"@), mv.move_url),
        ];
        let ghost vu = |v: MoveVersionGroupV| seq![v.learn_method_url, v.version_group_url];
        let ghost vs = |jj: int, v: MoveVersionGroupV| pokemon_move_vgd_sts(dv.id, i as int,
            jj, v);
        proof {
            assert(em.urls_view() =~= pre_urls + seq![mv.move_url]);
            if em.ok() {
                assert(em.out_view() =~= pre_out + fixed);
            }
        }
        let ghost inner_urls_base = pre_urls + seq![mv.move_url];
        let ghost inner_entry_ok = em.ok();
        let p = m.version_details.len();
        let mut jj: usize = 0;
        while jj < p
            invariant
                em.wf(),
                em.ok() ==> inner_entry_ok,
                !old(em).ok() ==> em.out_view() == old(em).out_view(),
                p == m.version_details.len(),
                jj <= p,
                em.urls_view() == inner_urls_base
                    + flat_map_of(m.version_details.deep_view().take(jj as int), vu),
                em.ok() ==> em.out_view() == pre_out + fixed
                    + flat_map_idx(m.version_details.deep_view().take(jj as int), 0, vs),
            decreases p - jj,
        {
            let ghost p_urls = em.urls_view();
            let ghost p_out = em.out_view();
            let v = &m.version_details[jj];
            let vid = mid.child("versionGroup", jj as u64);
            proof {
                assert(vid.deep_view() =~= a.push(
                    AnonSegV { word: "versionGroup"@, num: jj as nat }));
            }
            em.anon_obj(&mref, Ns::Poke, "versionGroupDetails", &vid);
            let vref = EntityRef::Anonymous(vid);
            em.link(&vref, Ns::Poke, "learnMethod", v.learn_method_url.as_str());
            em.link(&vref, Ns::Poke, "versionGroup", v.version_group_url.as_str());
            em.lit_int(&vref, Ns::Poke, "levelLearnedAt", v.level_learned_at);
            proof {
                let vv = m.version_details.deep_view();
                assert(vv.take(jj + 1 as int) =~= vv.take(jj as int).push(vv[jj as int]));
                lemma_flat_map_snoc(vv.take(jj as int), vv[jj as int], vu);
                lemma_concat_assoc(inner_urls_base, flat_map_of(vv.take(jj as int), vu),
                    vu(vv[jj as int]));
                lemma_concat_assoc(p_urls, seq![vv[jj as int].learn_method_url],
                    seq![vv[jj as int].version_group_url]);
                assert(seq![vv[jj as int].learn_method_url]
                    + seq![vv[jj as int].version_group_url] =~= vu(vv[jj as int]));
                assert(em.urls_view() =~= inner_urls_base
                    + flat_map_of(vv.take(jj + 1 as int), vu));
                if em.ok() {
                    lemma_flat_map_idx_snoc(vv.take(jj as int), 0, vv[jj as int], vs);
                    lemma_concat_assoc(pre_out + fixed,
                        flat_map_idx(vv.take(jj as int), 0, vs), vs(jj as int, vv[jj as int]));
                    let b = a.push(AnonSegV { word: "versionGroup"@, num: jj as nat });
                    assert(em.out_view() =~= p_out + seq![
                        anon_st(RefV::Anonymous(a),
                            pred_iri(Ns::Poke, "versionGroupDetails"@), b),
                        link_st(RefV::Anonymous(b), pred_iri(Ns::Poke, "learnMethod"@),
                            vv[jj as int].learn_method_url),
                        link_st(RefV::Anonymous(b), pred_iri(Ns::Poke, "versionGroup"@),
                            vv[jj as int].version_group_url),
                        int_st(RefV::Anonymous(b), pred_iri(Ns::Poke, "levelLearnedAt"@),
                            vv[jj as int].level_learned_at),
                    ]);
                    assert(em.out_view() =~= pre_out + fixed
                        + flat_map_idx(vv.take(jj + 1 as int), 0, vs));
                }
            }
            jj = jj + 1;
        }
        proof {
            let kv = d.moves.deep_view();
            assert(m.version_details.deep_view().take(p as int)
                =~= m.version_details.deep_view());
            assert(kv.take(i + 1 as int) =~= kv.take(i as int).push(kv[i as int]));
            lemma_flat_map_snoc(kv.take(i as int), kv[i as int], mu);
            lemma_concat_assoc(old(em).urls_view(), flat_map_of(kv.take(i as int), mu),
                mu(kv[i as int]));
            lemma_concat_assoc(pre_urls, seq![mv.move_url],
                flat_map_of(mv.version_details, vu));
            assert(seq![mv.move_url] + flat_map_of(mv.version_details, vu)
                =~= mu(kv[i as int]));
            assert(em.urls_view() =~= old(em).urls_view()
                + flat_map_of(kv.take(i + 1 as int), mu));
            if em.ok() {
                lemma_flat_map_idx_snoc(kv.take(i as int), 0, kv[i as int], ms);
                lemma_concat_assoc(old(em).out_view(), flat_map_idx(kv.take(i as int), 0, ms),
                    ms(i as int, kv[i as int]));
                lemma_concat_assoc(pre_out, fixed, flat_map_idx(mv.version_details, 0, vs));
                assert(fixed + flat_map_idx(mv.version_details, 0, vs)
                    =~= ms(i as int, kv[i as int]));
                assert(em.out_view() =~= old(em).out_view()
                    + flat_map_idx(kv.take(i + 1 as int), 0, ms));
            }
        }
        i = i + 1;
    }
    proof {
        assert(d.moves.deep_view().take(n as int) =~= d.moves.deep_view());
    }
}

/// Emits the game-index blocks of a pokemon.
#[verifier::loop_isolation(false)]
#[verifier::rlimit(100)]
fn emit_pokemon_game_indices(em: &mut Emitter, subject: &EntityRef, root: &AnonId, d: &Pokemon)
    requires
        old(em).wf(),
        root.deep_view() == seq![AnonSegV { word: "pokemon"@, num: d.id as nat }],
        wf_word("gameIndex"@),
    ensures
        final(em).wf(),
        final(em).urls_view() == old(em).urls_view() + flat_map_of(
            d.deep_view().game_indices, |g: GameIndexV| seq![g.url]),
        final(em).ok() ==> old(em).ok(),
        final(em).ok() ==> final(em).out_view() == old(em).out_view() + flat_map_idx(
            d.deep_view().game_indices, 0,
            |i: int, g: GameIndexV| pokemon_game_index_sts(subject.deep_view(),
                d.deep_view().id, i, g)),
        !old(em).ok() ==> final(em).out_view() == old(em).out_view(),
{
    let ghost s = subject.deep_view();
    let ghost dv = d.deep_view();
    let ghost gu = |g: GameIndexV| seq![g.url];
    let ghost gs = |i: int, g: GameIndexV| pokemon_game_index_sts(s, dv.id, i, g);
    let ghost entry_ok = em.ok();
    let n = d.game_indices.len();
    let mut i: usize = 0;
    while i < n
        invariant
            em.wf(),
            em.ok() ==> entry_ok,
            !old(em).ok() ==> em.out_view() == old(em).out_view(),
            n == d.game_indices.len(),
            i <= n,
            em.urls_view() == old(em).urls_view()
                + flat_map_of(d.game_indices.deep_view().take(i as int), gu),
            em.ok() ==> em.out_view() == old(em).out_view()
                + flat_map_idx(d.game_indices.deep_view().take(i as int), 0, gs),
        decreases n - i,
    {
        let ghost pre_urls = em.urls_view();
        let ghost pre_out = em.out_view();
        let g = &d.game_indices[i];
        let gid = root.child("gameIndex", i as u64);
        proof {
            assert(gid.deep_view() =~= pokemon_game_index_id(dv.id, i as int));
        }
        em.anon_obj(subject, Ns::Poke, "gameIndex", &gid);
        let gref = EntityRef::Anonymous(gid);
        em.lit_int(&gref, Ns::Poke, "index", g.game_index);
        em.link(&gref, Ns::Poke, "generation", g.url.as_str());
        proof {
            let gv = d.game_indices.deep_view();
            assert(gv.take(i + 1 as int) =~= gv.take(i as int).push(gv[i as int]));
            lemma_flat_map_snoc(gv.take(i as int), gv[i as int], gu);
            lemma_concat_assoc(old(em).urls_view(), flat_map_of(gv.take(i as int), gu),
                gu(gv[i as int]));
            assert(pre_urls + seq![dv.game_indices[i as int].url] =~= pre_urls
                + gu(gv[i as int]));
            assert(em.urls_view() =~= old(em).urls_view()
                + flat_map_of(gv.take(i + 1 as int), gu));
            if em.ok() {
                lemma_flat_map_idx_snoc(gv.take(i as int), 0, gv[i as int], gs);
                lemma_concat_assoc(old(em).out_view(), flat_map_idx(gv.take(i as int), 0, gs),
                    gs(i as int, gv[i as int]));
                let a = pokemon_game_index_id(dv.id, i as int);
                assert(em.out_view() =~= pre_out + seq![
                    anon_st(s, pred_iri(Ns::Poke, "gameIndex"@), a),
                    int_st(RefV::Anonymous(a), pred_iri(Ns::Poke, "index"@),
                        gv[i as int].game_index),
                    link_st(RefV::Anonymous(a), pred_iri(Ns::Poke, "generation"@),
                        gv[i as int].url),
                ]);
                assert(em.out_view() =~= old(em).out_view()
                    + flat_map_idx(gv.take(i + 1 as int), 0, gs));
            }
        }
        i = i + 1;
    }
    proof {
        assert(d.game_indices.deep_view().take(n as int) =~= d.game_indices.deep_view());
    }
}


/// Emits the held-item blocks of a pokemon.
#[verifier::loop_isolation(false)]
#[verifier::rlimit(100)]
fn emit_pokemon_held(em: &mut Emitter, subject: &EntityRef, root: &AnonId, d: &Pokemon)
    requires
        old(em).wf(),
        root.deep_view() == seq![AnonSegV { word: "pokemon"@, num: d.id as nat }],
        wf_word("heldItem"@),
        wf_word("versionDetail"@),
    ensures
        final(em).wf(),
        final(em).urls_view() == old(em).urls_view() + flat_map_of(d.deep_view().held_items,
            |h: PokemonHeldV| flat_map_of(h.version_details,
                |v: HeldVersionDetailV| seq![h.item_url, v.version_url])),
        final(em).ok() ==> old(em).ok(),
        final(em).ok() ==> final(em).out_view() == old(em).out_view() + flat_map_idx(
            d.deep_view().held_items, 0,
            |i: int, h: PokemonHeldV| pokemon_held_sts(subject.deep_view(),
                d.deep_view().id, i, h)),
        !old(em).ok() ==> final(em).out_view() == old(em).out_view(),
{
    let ghost s = subject.deep_view();
    let ghost dv = d.deep_view();
    let ghost hu = |h: PokemonHeldV| flat_map_of(h.version_details,
        |v: HeldVersionDetailV| seq![h.item_url, v.version_url]);
    let ghost hs = |i: int, h: PokemonHeldV| pokemon_held_sts(s, dv.id, i, h);
    let ghost entry_ok = em.ok();
    let n = d.held_items.len();
    let mut i: usize = 0;
    while i < n
        invariant
            em.wf(),
            em.ok() ==> entry_ok,
            !old(em).ok() ==> em.out_view() == old(em).out_view(),
            n == d.held_items.len(),
            i <= n,
            em.urls_view() == old(em).urls_view()
                + flat_map_of(d.held_items.deep_view().take(i as int), hu),
            em.ok() ==> em.out_view() == old(em).out_view()
                + flat_map_idx(d.held_items.deep_view().take(i as int), 0, hs),
        decreases n - i,
    {
        let ghost pre_urls = em.urls_view();
        let ghost pre_out = em.out_view();
        let h = &d.held_items[i];
        let hid = root.child("heldItem", i as u64);
        let ghost hv = d.held_items.deep_view()[i as int];
        let ghost vu = |v: HeldVersionDetailV| seq![hv.item_url, v.version_url];
        let ghost vs = |jj: int, v: HeldVersionDetailV| pokemon_held_vd_sts(s, dv.id,
            i as int, jj, hv.item_url, v);
        let ghost inner_entry_ok = em.ok();
        let p = h.version_details.len();
        let mut jj: usize = 0;
        while jj < p
            invariant
                em.wf(),
                em.ok() ==> inner_entry_ok,
                !old(em).ok() ==> em.out_view() == old(em).out_view(),
                p == h.version_details.len(),
                jj <= p,
                em.urls_view() == pre_urls
                    + flat_map_of(h.version_details.deep_view().take(jj as int), vu),
                em.ok() ==> em.out_view() == pre_out
                    + flat_map_idx(h.version_details.deep_view().take(jj as int), 0, vs),
            decreases p - jj,
        {
            let ghost p_urls = em.urls_view();
            let ghost p_out = em.out_view();
            let v = &h.version_details[jj];
            let vid = hid.child("versionDetail", jj as u64);
            proof {
                assert(vid.deep_view() =~= seq![
                    AnonSegV { word: "pokemon"@, num: dv.id },
                    AnonSegV { word: "heldItem"@, num: i as nat },
                    AnonSegV { word: "versionDetail"@, num: jj as nat },
                ]);
            }
            em.anon_obj(subject, Ns::Poke, "mayHoldItem", &vid);
            let vref = EntityRef::Anonymous(vid);
            em.link(&vref, Ns::Poke, "item", h.item_url.as_str());
            em.link(&vref, Ns::Poke, "version", v.version_url.as_str());
            em.lit_int(&vref, Ns::Poke, "rarity", v.rarity);
            proof {
                let vv = h.version_details.deep_view();
                assert(vv.take(jj + 1 as int) =~= vv.take(jj as int).push(vv[jj as int]));
                lemma_flat_map_snoc(vv.take(jj as int), vv[jj as int], vu);
                lemma_concat_assoc(pre_urls, flat_map_of(vv.take(jj as int), vu),
                    vu(vv[jj as int]));
                lemma_concat_assoc(p_urls, seq![hv.item_url],
                    seq![vv[jj as int].version_url]);
                assert(seq![hv.item_url] + seq![vv[jj as int].version_url]
                    =~= vu(vv[jj as int]));
                assert(em.urls_view() =~= pre_urls + flat_map_of(vv.take(jj + 1 as int), vu));
                if em.ok() {
                    lemma_flat_map_idx_snoc(vv.take(jj as int), 0, vv[jj as int], vs);
                    lemma_concat_assoc(pre_out, flat_map_idx(vv.take(jj as int), 0, vs),
                        vs(jj as int, vv[jj as int]));
                    let b = seq![
                        AnonSegV { word: "pokemon"@, num: dv.id },
                        AnonSegV { word: "heldItem"@, num: i as nat },
                        AnonSegV { word: "versionDetail"@, num: jj as nat },
                    ];
                    assert(em.out_view() =~= p_out + seq![
                        anon_st(s, pred_iri(Ns::Poke, "mayHoldItem"@), b),
                        link_st(RefV::Anonymous(b), pred_iri(Ns::Poke, "item"@),
                            hv.item_url),
                        link_st(RefV::Anonymous(b), pred_iri(Ns::Poke, "version"@),
                            vv[jj as int].version_url),
                        int_st(RefV::Anonymous(b), pred_iri(Ns::Poke, "rarity"@),
                            vv[jj as int].rarity),
                    ]);
                    assert(em.out_view() =~= pre_out
                        + flat_map_idx(vv.take(jj + 1 as int), 0, vs));
                }
            }
            jj = jj + 1;
        }
        proof {
            let kv = d.held_items.deep_view();
            assert(h.version_details.deep_view().take(p as int)
                =~= h.version_details.deep_view());
            assert(kv.take(i + 1 as int) =~= kv.take(i as int).push(kv[i as int]));
            lemma_flat_map_snoc(kv.take(i as int), kv[i as int], hu);
            lemma_concat_assoc(old(em).urls_view(), flat_map_of(kv.take(i as int), hu),
                hu(kv[i as int]));
            assert(flat_map_of(hv.version_details, vu) =~= hu(kv[i as int]));
            assert(em.urls_view() =~= old(em).urls_view()
                + flat_map_of(kv.take(i + 1 as int), hu));
            if em.ok() {
                lemma_flat_map_idx_snoc(kv.take(i as int), 0, kv[i as int], hs);
                lemma_concat_assoc(old(em).out_view(), flat_map_idx(kv.take(i as int), 0, hs),
                    hs(i as int, kv[i as int]));
                assert(flat_map_idx(hv.version_details, 0, vs) =~= hs(i as int, kv[i as int]));
                assert(em.out_view() =~= old(em).out_view()
                    + flat_map_idx(kv.take(i + 1 as int), 0, hs));
            }
        }
        i = i + 1;
    }
    proof {
        assert(d.held_items.deep_view().take(n as int) =~= d.held_items.deep_view());
    }
}

/// Emits one encounter occasion of a version detail.
#[verifier::loop_isolation(false)]
#[verifier::rlimit(100)]
fn emit_pokemon_enc_case(em: &mut Emitter, bid: &AnonId, bref: &EntityRef, id: Ghost<nat>,
    i: Ghost<int>, j: Ghost<int>, k: u64, c: &crate::model::EncounterCase)
    requires
        old(em).wf(),
        bid.deep_view() == pokemon_enc_vd_id(id@, i@, j@),
        bref.deep_view() == RefV::Anonymous(pokemon_enc_vd_id(id@, i@, j@)),
        wf_word("encounterDetail"@),
    ensures
        final(em).wf(),
        final(em).urls_view() == old(em).urls_view() + seq![c.method_url@]
            + c.condition_urls.deep_view(),
        final(em).ok() ==> old(em).ok(),
        final(em).ok() ==> final(em).out_view() == old(em).out_view()
            + pokemon_enc_case_sts(id@, i@, j@, k as int, c.deep_view()),
        !old(em).ok() ==> final(em).out_view() == old(em).out_view(),
{
    let ghost b = pokemon_enc_vd_id(id@, i@, j@);
    let eid = bid.child("encounterDetail", k);
    proof {
        assert(eid.deep_view() =~= b.push(
            AnonSegV { word: "encounterDetail"@, num: k as nat }));
    }
    em.anon_obj(bref, Ns::Poke, "encounterDetail", &eid);
    let eref = EntityRef::Anonymous(eid);
    em.link(&eref, Ns::Poke, "method", c.method_url.as_str());
    em.lit_int(&eref, Ns::Poke, "chance", c.chance);
    em.lit_int(&eref, Ns::Poke, "minLevel", c.min_level);
    em.lit_int(&eref, Ns::Poke, "maxLevel", c.max_level);
    let ghost five = em.out_view();
    let ghost e = b.push(AnonSegV { word: "encounterDetail"@, num: k as nat });
    let ghost cv = c.deep_view();
    let ghost five_block = seq![
        anon_st(RefV::Anonymous(b), pred_iri(Ns::Poke, "encounterDetail"@), e),
        link_st(RefV::Anonymous(e), pred_iri(Ns::Poke, "method"@), cv.method_url),
        int_st(RefV::Anonymous(e), pred_iri(Ns::Poke, "chance"@), cv.chance),
        int_st(RefV::Anonymous(e), pred_iri(Ns::Poke, "minLevel"@), cv.min_level),
        int_st(RefV::Anonymous(e), pred_iri(Ns::Poke, "maxLevel"@), cv.max_level),
    ];
    proof {
        if em.ok() {
            assert(five =~= old(em).out_view() + five_block);
        }
    }
    em.links(&eref, Ns::Poke, "hasCondition", &c.condition_urls);
    proof {
        lemma_concat_assoc(old(em).urls_view(), seq![cv.method_url], cv.condition_urls);
        if em.ok() {
            lemma_concat_assoc(old(em).out_view(), five_block,
                link_sts(RefV::Anonymous(e), pred_iri(Ns::Poke, "hasCondition"@),
                    cv.condition_urls));
        }
    }
}

/// Emits one version detail of a location-area encounter.
#[verifier::loop_isolation(false)]
#[verifier::rlimit(100)]
fn emit_pokemon_enc_vd(em: &mut Emitter, laeref: &EntityRef, root: &AnonId, id: Ghost<nat>,
    i: u64, j: u64, loc_url: &str, v: &crate::model::EncounterVersion)
    requires
        old(em).wf(),
        root.deep_view() == seq![AnonSegV { word: "pokemon"@, num: id@ }],
        wf_word("locationAreaEncounter"@),
        wf_word("versionDetail"@),
        wf_word("encounterDetail"@),
    ensures
        final(em).wf(),
        final(em).urls_view() == old(em).urls_view() + (seq![loc_url@, v.version_url@]
            + flat_map_of(v.deep_view().cases,
                |c: EncounterCaseV| seq![c.method_url] + c.condition_urls)),
        final(em).ok() ==> old(em).ok(),
        final(em).ok() ==> final(em).out_view() == old(em).out_view()
            + pokemon_enc_vd_sts(laeref.deep_view(), id@, i as int, j as int, loc_url@,
                v.deep_view()),
        !old(em).ok() ==> final(em).out_view() == old(em).out_view(),
{
    let ghost lae = laeref.deep_view();
    let ghost b = pokemon_enc_vd_id(id@, i as int, j as int);
    let bid = root.child("locationAreaEncounter", i).child("versionDetail", j);
    proof {
        assert(bid.deep_view() =~= b);
    }
    em.anon_obj(laeref, Ns::Poke, "locationAreaEncounter", &bid);
    let bref = EntityRef::Anonymous(bid.duplicate());
    em.link(&bref, Ns::Poke, "locationArea", loc_url);
    em.link(&bref, Ns::Poke, "version", v.version_url.as_str());
    em.lit_int(&bref, Ns::Poke, "maxChance", v.max_chance);
    let ghost vv = v.deep_view();
    let ghost four = em.out_view();
    let ghost four_urls = em.urls_view();
    let ghost four_block = seq![
        anon_st(lae, pred_iri(Ns::Poke, "locationAreaEncounter"@), b),
        link_st(RefV::Anonymous(b), pred_iri(Ns::Poke, "locationArea"@), loc_url@),
        link_st(RefV::Anonymous(b), pred_iri(Ns::Poke, "version"@), vv.version_url),
        int_st(RefV::Anonymous(b), pred_iri(Ns::Poke, "maxChance"@), vv.max_chance),
    ];
    proof {
        lemma_concat_assoc(old(em).urls_view(), seq![loc_url@], seq![vv.version_url]);
        assert(seq![loc_url@] + seq![vv.version_url] =~= seq![loc_url@, vv.version_url]);
        assert(four_urls =~= old(em).urls_view() + seq![loc_url@, vv.version_url]);
        if em.ok() {
            assert(four =~= old(em).out_view() + four_block);
        }
    }
    let ghost cu = |c: EncounterCaseV| seq![c.method_url] + c.condition_urls;
    let ghost cs = |k: int, c: EncounterCaseV| pokemon_enc_case_sts(id@, i as int, j as int,
        k, c);
    let ghost inner_entry_ok = em.ok();
    let p = v.cases.len();
    let mut k: usize = 0;
    while k < p
        invariant
            em.wf(),
            em.ok() ==> inner_entry_ok,
            !old(em).ok() ==> em.out_view() == old(em).out_view(),
            p == v.cases.len(),
            k <= p,
            em.urls_view() == four_urls + flat_map_of(v.cases.deep_view().take(k as int), cu),
            em.ok() ==> em.out_view() == four
                + flat_map_idx(v.cases.deep_view().take(k as int), 0, cs),
        decreases p - k,
    {
        let ghost pre_urls = em.urls_view();
        let ghost pre_out = em.out_view();
        emit_pokemon_enc_case(em, &bid, &bref, id, Ghost(i as int), Ghost(j as int), k as u64,
            &v.cases[k]);
        proof {
            let cvv = v.cases.deep_view();
            assert(cvv.take(k + 1 as int) =~= cvv.take(k as int).push(cvv[k as int]));
            lemma_flat_map_snoc(cvv.take(k as int), cvv[k as int], cu);
            lemma_concat_assoc(four_urls, flat_map_of(cvv.take(k as int), cu),
                cu(cvv[k as int]));
            lemma_concat_assoc(pre_urls, seq![cvv[k as int].method_url],
                cvv[k as int].condition_urls);
            assert(seq![cvv[k as int].method_url] + cvv[k as int].condition_urls
                =~= cu(cvv[k as int]));
            assert(em.urls_view() =~= four_urls + flat_map_of(cvv.take(k + 1 as int), cu));
            if em.ok() {
                lemma_flat_map_idx_snoc(cvv.take(k as int), 0, cvv[k as int], cs);
                lemma_concat_assoc(four, flat_map_idx(cvv.take(k as int), 0, cs),
                    cs(k as int, cvv[k as int]));
                assert(em.out_view() =~= four
                    + flat_map_idx(cvv.take(k + 1 as int), 0, cs));
            }
        }
        k = k + 1;
    }
    proof {
        assert(v.cases.deep_view().take(p as int) =~= v.cases.deep_view());
        lemma_concat_assoc(old(em).urls_view(), seq![loc_url@, vv.version_url],
            flat_map_of(vv.cases, cu));
        if em.ok() {
            lemma_concat_assoc(old(em).out_view(), four_block,
                flat_map_idx(vv.cases, 0, cs));
            assert(four_block + flat_map_idx(vv.cases, 0, cs)
                =~= pokemon_enc_vd_sts(lae, id@, i as int, j as int, loc_url@, vv));
        }
    }
}

/// Emits the location-area-encounter blocks of a pokemon.
#[verifier::loop_isolation(false)]
#[verifier::rlimit(100)]
fn emit_pokemon_encounters(em: &mut Emitter, laeref: &EntityRef, root: &AnonId,
    d: &Pokemon)
    requires
        old(em).wf(),
        root.deep_view() == seq![AnonSegV { word: "pokemon"@, num: d.id as nat }],
        wf_word("locationAreaEncounter"@),
        wf_word("versionDetail"@),
        wf_word("encounterDetail"@),
    ensures
        final(em).wf(),
        final(em).urls_view() == old(em).urls_view() + flat_map_of(d.deep_view().encounters,
            |e: EncounterV| flat_map_of(e.version_details,
                |v: EncounterVersionV| seq![e.location_area_url, v.version_url]
                    + flat_map_of(v.cases,
                        |c: EncounterCaseV| seq![c.method_url] + c.condition_urls))),
        final(em).ok() ==> old(em).ok(),
        final(em).ok() ==> final(em).out_view() == old(em).out_view() + flat_map_idx(
            d.deep_view().encounters, 0,
            |i: int, e: EncounterV| pokemon_enc_sts(laeref.deep_view(), d.deep_view().id,
                i, e)),
        !old(em).ok() ==> final(em).out_view() == old(em).out_view(),
{
    let ghost lae = laeref.deep_view();
    let ghost dv = d.deep_view();
    let ghost eu = |e: EncounterV| flat_map_of(e.version_details,
        |v: EncounterVersionV| seq![e.location_area_url, v.version_url]
            + flat_map_of(v.cases, |c: EncounterCaseV| seq![c.method_url] + c.condition_urls));
    let ghost es = |i: int, e: EncounterV| pokemon_enc_sts(lae, dv.id, i, e);
    let ghost entry_ok = em.ok();
    let n = d.encounters.len();
    let mut i: usize = 0;
    while i < n
        invariant
            em.wf(),
            em.ok() ==> entry_ok,
            !old(em).ok() ==> em.out_view() == old(em).out_view(),
            n == d.encounters.len(),
            i <= n,
            em.urls_view() == old(em).urls_view()
                + flat_map_of(d.encounters.deep_view().take(i as int), eu),
            em.ok() ==> em.out_view() == old(em).out_view()
                + flat_map_idx(d.encounters.deep_view().take(i as int), 0, es),
        decreases n - i,
    {
        let ghost pre_urls = em.urls_view();
        let ghost pre_out = em.out_view();
        let e = &d.encounters[i];
        let ghost ev = d.encounters.deep_view()[i as int];
        let ghost vu = |v: EncounterVersionV| seq![ev.location_area_url, v.version_url]
            + flat_map_of(v.cases, |c: EncounterCaseV| seq![c.method_url] + c.condition_urls);
        let ghost vs = |j: int, v: EncounterVersionV| pokemon_enc_vd_sts(lae, dv.id, i as int,
            j, ev.location_area_url, v);
        let ghost inner_entry_ok = em.ok();
        let p = e.version_details.len();
        let mut j: usize = 0;
        while j < p
            invariant
                em.wf(),
                em.ok() ==> inner_entry_ok,
                !old(em).ok() ==> em.out_view() == old(em).out_view(),
                p == e.version_details.len(),
                j <= p,
                em.urls_view() == pre_urls
                    + flat_map_of(e.version_details.deep_view().take(j as int), vu),
                em.ok() ==> em.out_view() == pre_out
                    + flat_map_idx(e.version_details.deep_view().take(j as int), 0, vs),
            decreases p - j,
        {
            let ghost p_urls = em.urls_view();
            let ghost p_out = em.out_view();
            emit_pokemon_enc_vd(em, laeref, root, Ghost(dv.id), i as u64, j as u64,
                e.location_area_url.as_str(), &e.version_details[j]);
            proof {
                let vv = e.version_details.deep_view();
                assert(vv.take(j + 1 as int) =~= vv.take(j as int).push(vv[j as int]));
                lemma_flat_map_snoc(vv.take(j as int), vv[j as int], vu);
                lemma_concat_assoc(pre_urls, flat_map_of(vv.take(j as int), vu),
                    vu(vv[j as int]));
                assert(em.urls_view() =~= pre_urls + flat_map_of(vv.take(j + 1 as int), vu));
                if em.ok() {
                    lemma_flat_map_idx_snoc(vv.take(j as int), 0, vv[j as int], vs);
                    lemma_concat_assoc(pre_out, flat_map_idx(vv.take(j as int), 0, vs),
                        vs(j as int, vv[j as int]));
                    assert(em.out_view() =~= pre_out
                        + flat_map_idx(vv.take(j + 1 as int), 0, vs));
                }
            }
            j = j + 1;
        }
        proof {
            let kv = d.encounters.deep_view();
            assert(e.version_details.deep_view().take(p as int)
                =~= e.version_details.deep_view());
            assert(kv.take(i + 1 as int) =~= kv.take(i as int).push(kv[i as int]));
            lemma_flat_map_snoc(kv.take(i as int), kv[i as int], eu);
            lemma_concat_assoc(old(em).urls_view(), flat_map_of(kv.take(i as int), eu),
                eu(kv[i as int]));
            assert(flat_map_of(ev.version_details, vu) =~= eu(kv[i as int]));
            assert(em.urls_view() =~= old(em).urls_view()
                + flat_map_of(kv.take(i + 1 as int), eu));
            if em.ok() {
                lemma_flat_map_idx_snoc(kv.take(i as int), 0, kv[i as int], es);
                lemma_concat_assoc(old(em).out_view(), flat_map_idx(kv.take(i as int), 0, es),
                    es(i as int, kv[i as int]));
                assert(flat_map_idx(ev.version_details, 0, vs)
                    =~= es(i as int, kv[i as int]));
                assert(em.out_view() =~= old(em).out_view()
                    + flat_map_idx(kv.take(i + 1 as int), 0, es));
            }
        }
        i = i + 1;
    }
    proof {
        assert(d.encounters.deep_view().take(n as int) =~= d.encounters.deep_view());
    }
}

/// Emits the past-typing blocks of a pokemon.
#[verifier::loop_isolation(false)]
#[verifier::rlimit(100)]
fn emit_pokemon_past(em: &mut Emitter, subject: &EntityRef, root: &AnonId, d: &Pokemon)
    requires
        old(em).wf(),
        root.deep_view() == seq![AnonSegV { word: "pokemon"@, num: d.id as nat }],
        wf_word("pastType"@),
        wf_word("type"@),
    ensures
        final(em).wf(),
        final(em).urls_view() == old(em).urls_view() + flat_map_of(d.deep_view().past_types,
            |p: PastTypeV| flat_map_of(p.type_urls, |t: Seq<char>| seq![t, p.generation_url])),
        final(em).ok() ==> old(em).ok(),
        final(em).ok() ==> final(em).out_view() == old(em).out_view() + flat_map_idx(
            d.deep_view().past_types, 0,
            |i: int, p: PastTypeV| pokemon_past_sts(subject.deep_view(), d.deep_view().id,
                i, p)),
        !old(em).ok() ==> final(em).out_view() == old(em).out_view(),
{
    let ghost s = subject.deep_view();
    let ghost dv = d.deep_view();
    let ghost pu = |p: PastTypeV| flat_map_of(p.type_urls,
        |t: Seq<char>| seq![t, p.generation_url]);
    let ghost ps = |i: int, p: PastTypeV| pokemon_past_sts(s, dv.id, i, p);
    let ghost entry_ok = em.ok();
    let n = d.past_types.len();
    let mut i: usize = 0;
    while i < n
        invariant
            em.wf(),
            em.ok() ==> entry_ok,
            !old(em).ok() ==> em.out_view() == old(em).out_view(),
            n == d.past_types.len(),
            i <= n,
            em.urls_view() == old(em).urls_view()
                + flat_map_of(d.past_types.deep_view().take(i as int), pu),
            em.ok() ==> em.out_view() == old(em).out_view()
                + flat_map_idx(d.past_types.deep_view().take(i as int), 0, ps),
        decreases n - i,
    {
        let ghost pre_urls = em.urls_view();
        let ghost pre_out = em.out_view();
        let p = &d.past_types[i];
        let pid = root.child("pastType", i as u64);
        let ghost pv = d.past_types.deep_view()[i as int];
        let ghost tu = |t: Seq<char>| seq![t, pv.generation_url];
        let ghost ts = |j: int, t: Seq<char>| pokemon_past_one_sts(s, dv.id, i as int, j, t,
            pv.generation_url);
        let ghost inner_entry_ok = em.ok();
        let q = p.type_urls.len();
        let mut j: usize = 0;
        while j < q
            invariant
                em.wf(),
                em.ok() ==> inner_entry_ok,
                !old(em).ok() ==> em.out_view() == old(em).out_view(),
                q == p.type_urls.len(),
                j <= q,
                em.urls_view() == pre_urls
                    + flat_map_of(p.type_urls.deep_view().take(j as int), tu),
                em.ok() ==> em.out_view() == pre_out
                    + flat_map_idx(p.type_urls.deep_view().take(j as int), 0, ts),
            decreases q - j,
        {
            let ghost p_urls = em.urls_view();
            let ghost p_out = em.out_view();
            let t = &p.type_urls[j];
            let tid = pid.child("type", j as u64);
            proof {
                assert(tid.deep_view() =~= seq![
                    AnonSegV { word: "pokemon"@, num: dv.id },
                    AnonSegV { word: "pastType"@, num: i as nat },
                    AnonSegV { word: "type"@, num: j as nat },
                ]);
            }
            em.anon_obj(subject, Ns::Poke, "pastType", &tid);
            let tref = EntityRef::Anonymous(tid);
            em.link(&tref, Ns::Kg, "hasType", t.as_str());
            em.link(&tref, Ns::Poke, "generation", p.generation_url.as_str());
            proof {
                let tv = p.type_urls.deep_view();
                assert(tv.take(j + 1 as int) =~= tv.take(j as int).push(tv[j as int]));
                lemma_flat_map_snoc(tv.take(j as int), tv[j as int], tu);
                lemma_concat_assoc(pre_urls, flat_map_of(tv.take(j as int), tu),
                    tu(tv[j as int]));
                lemma_concat_assoc(p_urls, seq![tv[j as int]], seq![pv.generation_url]);
                assert(seq![tv[j as int]] + seq![pv.generation_url] =~= tu(tv[j as int]));
                assert(em.urls_view() =~= pre_urls + flat_map_of(tv.take(j + 1 as int), tu));
                if em.ok() {
                    lemma_flat_map_idx_snoc(tv.take(j as int), 0, tv[j as int], ts);
                    lemma_concat_assoc(pre_out, flat_map_idx(tv.take(j as int), 0, ts),
                        ts(j as int, tv[j as int]));
                    let a = seq![
                        AnonSegV { word: "pokemon"@, num: dv.id },
                        AnonSegV { word: "pastType"@, num: i as nat },
                        AnonSegV { word: "type"@, num: j as nat },
                    ];
                    assert(em.out_view() =~= p_out + seq![
                        anon_st(s, pred_iri(Ns::Poke, "pastType"@), a),
                        link_st(RefV::Anonymous(a), pred_iri(Ns::Kg, "hasType"@),
                            tv[j as int]),
                        link_st(RefV::Anonymous(a), pred_iri(Ns::Poke, "generation"@),
                            pv.generation_url),
                    ]);
                    assert(em.out_view() =~= pre_out
                        + flat_map_idx(tv.take(j + 1 as int), 0, ts));
                }
            }
            j = j + 1;
        }
        proof {
            let kv = d.past_types.deep_view();
            assert(p.type_urls.deep_view().take(q as int) =~= p.type_urls.deep_view());
            assert(kv.take(i + 1 as int) =~= kv.take(i as int).push(kv[i as int]));
            lemma_flat_map_snoc(kv.take(i as int), kv[i as int], pu);
            lemma_concat_assoc(old(em).urls_view(), flat_map_of(kv.take(i as int), pu),
                pu(kv[i as int]));
            assert(flat_map_of(pv.type_urls, tu) =~= pu(kv[i as int]));
            assert(em.urls_view() =~= old(em).urls_view()
                + flat_map_of(kv.take(i + 1 as int), pu));
            if em.ok() {
                lemma_flat_map_idx_snoc(kv.take(i as int), 0, kv[i as int], ps);
                lemma_concat_assoc(old(em).out_view(), flat_map_idx(kv.take(i as int), 0, ps),
                    ps(i as int, kv[i as int]));
                assert(flat_map_idx(pv.type_urls, 0, ts) =~= ps(i as int, kv[i as int]));
                assert(em.out_view() =~= old(em).out_view()
                    + flat_map_idx(kv.take(i + 1 as int), 0, ps));
            }
        }
        i = i + 1;
    }
    proof {
        assert(d.past_types.deep_view().take(n as int) =~= d.past_types.deep_view());
    }
}

/// Emits the sprite statements of a pokemon.
#[verifier::loop_isolation(false)]
#[verifier::rlimit(100)]
fn emit_pokemon_sprites(em: &mut Emitter, subject: &EntityRef, d: &Pokemon)
    requires
        old(em).wf(),
    ensures
        final(em).wf(),
        final(em).urls_view() == old(em).urls_view() + pokemon_sprite_urls(d.deep_view()),
        final(em).ok() ==> old(em).ok(),
        final(em).ok() ==> final(em).out_view() == old(em).out_view()
            + pokemon_sprite_sts(subject.deep_view(), d.deep_view()),
        !old(em).ok() ==> final(em).out_view() == old(em).out_view(),
{
    let ghost s = subject.deep_view();
    let ghost dv = d.deep_view();
    em.opt_link(subject, Ns::Poke, "frontDefaultSprite", &d.front_default_sprite);
    em.opt_link(subject, Ns::Poke, "backDefaultSprite", &d.back_default_sprite);
    em.opt_link(subject, Ns::Poke, "frontShinySprite", &d.front_shiny_sprite);
    em.opt_link(subject, Ns::Poke, "backShinySprite", &d.back_shiny_sprite);
    let ghost half_urls = em.urls_view();
    let ghost half_out = em.out_view();
    proof {
        assert(half_urls =~= old(em).urls_view() + pokemon_sprite_urls_a(dv));
        if em.ok() {
            assert(half_out =~= old(em).out_view() + pokemon_sprite_sts_a(s, dv));
        }
    }
    em.opt_link(subject, Ns::Poke, "frontFemaleSprite", &d.front_female_sprite);
    em.opt_link(subject, Ns::Poke, "backFemaleSprite", &d.back_female_sprite);
    em.opt_link(subject, Ns::Poke, "frontFemaleShinySprite", &d.front_shiny_female_sprite);
    em.opt_link(subject, Ns::Poke, "backFemaleShinySprite", &d.back_shiny_female_sprite);
    proof {
        assert(em.urls_view() =~= half_urls + pokemon_sprite_urls_b(dv));
        lemma_concat_assoc(old(em).urls_view(), pokemon_sprite_urls_a(dv),
            pokemon_sprite_urls_b(dv));
        if em.ok() {
            assert(em.out_view() =~= half_out + pokemon_sprite_sts_b(s, dv));
            lemma_concat_assoc(old(em).out_view(), pokemon_sprite_sts_a(s, dv),
                pokemon_sprite_sts_b(s, dv));
        }
    }
}

/// Emits the base-stat blocks of a pokemon.
#[verifier::loop_isolation(false)]
#[verifier::rlimit(100)]
fn emit_pokemon_stats(em: &mut Emitter, subject: &EntityRef, root: &AnonId, d: &Pokemon)
    requires
        old(em).wf(),
        root.deep_view() == seq![AnonSegV { word: "pokemon"@, num: d.id as nat }],
        wf_word("stat"@),
    ensures
        final(em).wf(),
        final(em).urls_view() == old(em).urls_view() + flat_map_of(d.deep_view().stats,
            |st: PokemonStatV| seq![st.stat_url]),
        final(em).ok() ==> old(em).ok(),
        final(em).ok() ==> final(em).out_view() == old(em).out_view() + flat_map_idx(
            d.deep_view().stats, 0,
            |i: int, st: PokemonStatV| pokemon_stat_sts(subject.deep_view(),
                d.deep_view().id, i, st)),
        !old(em).ok() ==> final(em).out_view() == old(em).out_view(),
{
    let ghost s = subject.deep_view();
    let ghost dv = d.deep_view();
    let ghost su = |st: PokemonStatV| seq![st.stat_url];
    let ghost ss = |i: int, st: PokemonStatV| pokemon_stat_sts(s, dv.id, i, st);
    let ghost entry_ok = em.ok();
    let n = d.stats.len();
    let mut i: usize = 0;
    while i < n
        invariant
            em.wf(),
            em.ok() ==> entry_ok,
            !old(em).ok() ==> em.out_view() == old(em).out_view(),
            n == d.stats.len(),
            i <= n,
            em.urls_view() == old(em).urls_view()
                + flat_map_of(d.stats.deep_view().take(i as int), su),
            em.ok() ==> em.out_view() == old(em).out_view()
                + flat_map_idx(d.stats.deep_view().take(i as int), 0, ss),
        decreases n - i,
    {
        let ghost pre_urls = em.urls_view();
        let ghost pre_out = em.out_view();
        let st = &d.stats[i];
        let sid = root.child("stat", i as u64);
        proof {
            assert(sid.deep_view() =~= pokemon_stat_id(dv.id, i as int));
        }
        em.anon_obj(subject, Ns::Poke, "pokemonStat", &sid);
        let sref = EntityRef::Anonymous(sid);
        em.link(&sref, Ns::Poke, "stat", st.stat_url.as_str());
        em.lit_int(&sref, Ns::Poke, "baseStat", st.base_stat);
        em.lit_int(&sref, Ns::Poke, "effort", st.effort);
        proof {
            let sv = d.stats.deep_view();
            assert(sv.take(i + 1 as int) =~= sv.take(i as int).push(sv[i as int]));
            lemma_flat_map_snoc(sv.take(i as int), sv[i as int], su);
            lemma_concat_assoc(old(em).urls_view(), flat_map_of(sv.take(i as int), su),
                su(sv[i as int]));
            assert(pre_urls + seq![dv.stats[i as int].stat_url] =~= pre_urls
                + su(sv[i as int]));
            assert(em.urls_view() =~= old(em).urls_view()
                + flat_map_of(sv.take(i + 1 as int), su));
            if em.ok() {
                lemma_flat_map_idx_snoc(sv.take(i as int), 0, sv[i as int], ss);
                lemma_concat_assoc(old(em).out_view(), flat_map_idx(sv.take(i as int), 0, ss),
                    ss(i as int, sv[i as int]));
                let a = pokemon_stat_id(dv.id, i as int);
                assert(em.out_view() =~= pre_out + seq![
                    anon_st(s, pred_iri(Ns::Poke, "pokemonStat"@), a),
                    link_st(RefV::Anonymous(a), pred_iri(Ns::Poke, "stat"@),
                        sv[i as int].stat_url),
                    int_st(RefV::Anonymous(a), pred_iri(Ns::Poke, "baseStat"@),
                        sv[i as int].base_stat),
                    int_st(RefV::Anonymous(a), pred_iri(Ns::Poke, "effort"@),
                        sv[i as int].effort),
                ]);
                assert(em.out_view() =~= old(em).out_view()
                    + flat_map_idx(sv.take(i + 1 as int), 0, ss));
            }
        }
        i = i + 1;
    }
    proof {
        assert(d.stats.deep_view().take(n as int) =~= d.stats.deep_view());
    }
}

/// Extracts the statements of one pokemon, its nested location-area
/// encounters included.
#[verifier::loop_isolation(false)]
#[verifier::rlimit(100)]
pub fn pokemon_to_statements(url: &str, d: &Pokemon)
    -> (r: Result<Vec<Statement>, PipelineError>)
    ensures
        r.is_ok() <==> all_ok(pokemon_urls(url@, d.deep_view())),
        r matches Ok(v) ==> v.deep_view() == pokemon_sts(url@, d.deep_view()),
        r matches Err(e) ==> e.deep_view()
            == ErrorV::InvalidIdentity(first_bad(pokemon_urls(url@, d.deep_view()))),
{
    let ghost dv = d.deep_view();
    let ghost s = RefV::Named(url@);
    let (mut em, subject) = Emitter::open(url);
    proof {
        reveal_strlit("pokemon");
        reveal_strlit("move");
        reveal_strlit("versionGroup");
        reveal_strlit("gameIndex");
        reveal_strlit("heldItem");
        reveal_strlit("versionDetail");
        reveal_strlit("locationAreaEncounter");
        reveal_strlit("encounterDetail");
        reveal_strlit("pastType");
        reveal_strlit("type");
        reveal_strlit("stat");
        assert(wf_word("pokemon"@));
        assert(wf_word("move"@));
        assert(wf_word("versionGroup"@));
        assert(wf_word("gameIndex"@));
        assert(wf_word("heldItem"@));
        assert(wf_word("versionDetail"@));
        assert(wf_word("locationAreaEncounter"@));
        assert(wf_word("encounterDetail"@));
        assert(wf_word("pastType"@));
        assert(wf_word("type"@));
        assert(wf_word("stat"@));
    }
    let root = AnonId::root("pokemon", d.id);
    emit_pokemon_head(&mut em, &subject, d);
    proof {
        if em.ok() {
            assert(Seq::<StatementV>::empty() + pokemon_head_sts(s, dv)
                =~= pokemon_head_sts(s, dv));
        }
    }
    em.links(&subject, Ns::Kg, "hasType", &d.type_urls);
    em.links(&subject, Ns::Kg, "mayHaveAbility", &d.ability_urls);
    emit_pokemon_moves(&mut em, &subject, &root, d);
    em.links(&subject, Ns::Poke, "hasForm", &d.form_urls);
    emit_pokemon_game_indices(&mut em, &subject, &root, d);
    emit_pokemon_held(&mut em, &subject, &root, d);
    em.link(&subject, Ns::Poke, "hasLocationAreaEncounter",
        d.location_area_encounters_url.as_str());
    let laeref = EntityRef::Named(String::from_str(d.location_area_encounters_url.as_str()));
    emit_pokemon_encounters(&mut em, &laeref, &root, d);
    emit_pokemon_past(&mut em, &subject, &root, d);
    emit_pokemon_sprites(&mut em, &subject, d);
    em.link(&subject, Ns::Poke, "species", d.species_url.as_str());
    emit_pokemon_stats(&mut em, &subject, &root, d);
    proof {
        assert(em.urls_view() == pokemon_urls(url@, dv));
        if em.ok() {
            assert(em.out_view() == pokemon_sts(url@, dv));
        }
    }
    em.finish()
}


/// Every anonymous identity a pokemon's extraction mints is a
/// well-formed path, so its label falls under the injective rendering
/// of the identity assigner.
pub proof fn lemma_pokemon_identities_wf(id: nat, i: int, j: int, k: int)
    ensures
        wf_segs(pokemon_move_id(id, i)),
        wf_segs(pokemon_move_vgd_id(id, i, j)),
        wf_segs(pokemon_game_index_id(id, i)),
        wf_segs(pokemon_held_vd_id(id, i, j)),
        wf_segs(pokemon_enc_vd_id(id, i, j)),
        wf_segs(pokemon_enc_case_id(id, i, j, k)),
        wf_segs(pokemon_past_one_id(id, i, j)),
        wf_segs(pokemon_stat_id(id, i)),
{
    reveal_strlit("pokemon");
    reveal_strlit("move");
    reveal_strlit("versionGroup");
    reveal_strlit("gameIndex");
    reveal_strlit("heldItem");
    reveal_strlit("versionDetail");
    reveal_strlit("locationAreaEncounter");
    reveal_strlit("encounterDetail");
    reveal_strlit("pastType");
    reveal_strlit("type");
    reveal_strlit("stat");
    assert(wf_word("pokemon"@));
    assert(wf_word("move"@));
    assert(wf_word("versionGroup"@));
    assert(wf_word("gameIndex"@));
    assert(wf_word("heldItem"@));
    assert(wf_word("versionDetail"@));
    assert(wf_word("locationAreaEncounter"@));
    assert(wf_word("encounterDetail"@));
    assert(wf_word("pastType"@));
    assert(wf_word("type"@));
    assert(wf_word("stat"@));
}

/// Within each family of a pokemon's anonymous identities, records with
/// different entity ids or different occurrence indices receive
/// different identity paths.
#[verifier::rlimit(100)]
pub proof fn lemma_pokemon_identities_distinct_within(id: nat, id2: nat, i: int, j: int,
    k: int, i2: int, j2: int, k2: int)
    requires
        0 <= i,
        0 <= j,
        0 <= k,
        0 <= i2,
        0 <= j2,
        0 <= k2,
    ensures
        id != id2 || i != i2 ==> pokemon_move_id(id, i) != pokemon_move_id(id2, i2),
        id != id2 || i != i2 || j != j2
            ==> pokemon_move_vgd_id(id, i, j) != pokemon_move_vgd_id(id2, i2, j2),
        id != id2 || i != i2
            ==> pokemon_game_index_id(id, i) != pokemon_game_index_id(id2, i2),
        id != id2 || i != i2 || j != j2
            ==> pokemon_held_vd_id(id, i, j) != pokemon_held_vd_id(id2, i2, j2),
        id != id2 || i != i2 || j != j2
            ==> pokemon_enc_vd_id(id, i, j) != pokemon_enc_vd_id(id2, i2, j2),
        id != id2 || i != i2 || j != j2 || k != k2
            ==> pokemon_enc_case_id(id, i, j, k) != pokemon_enc_case_id(id2, i2, j2, k2),
        id != id2 || i != i2 || j != j2
            ==> pokemon_past_one_id(id, i, j) != pokemon_past_one_id(id2, i2, j2),
        id != id2 || i != i2 ==> pokemon_stat_id(id, i) != pokemon_stat_id(id2, i2),
{
    if id != id2 {
        lemma_paths_differ_num(pokemon_move_id(id, i), pokemon_move_id(id2, i2), 0);
        lemma_paths_differ_num(pokemon_move_vgd_id(id, i, j),
            pokemon_move_vgd_id(id2, i2, j2), 0);
        lemma_paths_differ_num(pokemon_game_index_id(id, i),
            pokemon_game_index_id(id2, i2), 0);
        lemma_paths_differ_num(pokemon_held_vd_id(id, i, j),
            pokemon_held_vd_id(id2, i2, j2), 0);
        lemma_paths_differ_num(pokemon_enc_vd_id(id, i, j),
            pokemon_enc_vd_id(id2, i2, j2), 0);
        lemma_paths_differ_num(pokemon_enc_case_id(id, i, j, k),
            pokemon_enc_case_id(id2, i2, j2, k2), 0);
        lemma_paths_differ_num(pokemon_past_one_id(id, i, j),
            pokemon_past_one_id(id2, i2, j2), 0);
        lemma_paths_differ_num(pokemon_stat_id(id, i), pokemon_stat_id(id2, i2), 0);
    } else {
        if i != i2 {
            lemma_paths_differ_num(pokemon_move_id(id, i), pokemon_move_id(id2, i2), 1);
            lemma_paths_differ_num(pokemon_move_vgd_id(id, i, j),
                pokemon_move_vgd_id(id2, i2, j2), 1);
            lemma_paths_differ_num(pokemon_game_index_id(id, i),
                pokemon_game_index_id(id2, i2), 1);
            lemma_paths_differ_num(pokemon_held_vd_id(id, i, j),
                pokemon_held_vd_id(id2, i2, j2), 1);
            lemma_paths_differ_num(pokemon_enc_vd_id(id, i, j),
                pokemon_enc_vd_id(id2, i2, j2), 1);
            lemma_paths_differ_num(pokemon_enc_case_id(id, i, j, k),
                pokemon_enc_case_id(id2, i2, j2, k2), 1);
            lemma_paths_differ_num(pokemon_past_one_id(id, i, j),
                pokemon_past_one_id(id2, i2, j2), 1);
            lemma_paths_differ_num(pokemon_stat_id(id, i), pokemon_stat_id(id2, i2), 1);
        } else if j != j2 {
            lemma_paths_differ_num(pokemon_move_vgd_id(id, i, j),
                pokemon_move_vgd_id(id2, i2, j2), 2);
            lemma_paths_differ_num(pokemon_held_vd_id(id, i, j),
                pokemon_held_vd_id(id2, i2, j2), 2);
            lemma_paths_differ_num(pokemon_enc_vd_id(id, i, j),
                pokemon_enc_vd_id(id2, i2, j2), 2);
            lemma_paths_differ_num(pokemon_enc_case_id(id, i, j, k),
                pokemon_enc_case_id(id2, i2, j2, k2), 2);
            lemma_paths_differ_num(pokemon_past_one_id(id, i, j),
                pokemon_past_one_id(id2, i2, j2), 2);
        } else if k != k2 {
            lemma_paths_differ_num(pokemon_enc_case_id(id, i, j, k),
                pokemon_enc_case_id(id2, i2, j2, k2), 3);
        }
    }
}

/// Identities from different families of a pokemon's sub-records never
/// coincide, whatever their indices: the families are told apart by
/// their path lengths and field words.  Together with the within-family
/// distinctness and the injective label rendering, no two distinct
/// nested records anywhere in a pokemon's output share an identity.
#[verifier::rlimit(100)]
pub proof fn lemma_pokemon_identities_distinct_across(id: nat, id2: nat, i: int, j: int,
    k: int, i2: int, j2: int, k2: int)
    ensures
        pokemon_move_id(id, i) != pokemon_move_vgd_id(id2, i2, j2),
        pokemon_move_id(id, i) != pokemon_game_index_id(id2, i2),
        pokemon_move_id(id, i) != pokemon_held_vd_id(id2, i2, j2),
        pokemon_move_id(id, i) != pokemon_enc_vd_id(id2, i2, j2),
        pokemon_move_id(id, i) != pokemon_enc_case_id(id2, i2, j2, k2),
        pokemon_move_id(id, i) != pokemon_past_one_id(id2, i2, j2),
        pokemon_move_id(id, i) != pokemon_stat_id(id2, i2),
        pokemon_move_vgd_id(id, i, j) != pokemon_game_index_id(id2, i2),
        pokemon_move_vgd_id(id, i, j) != pokemon_held_vd_id(id2, i2, j2),
        pokemon_move_vgd_id(id, i, j) != pokemon_enc_vd_id(id2, i2, j2),
        pokemon_move_vgd_id(id, i, j) != pokemon_enc_case_id(id2, i2, j2, k2),
        pokemon_move_vgd_id(id, i, j) != pokemon_past_one_id(id2, i2, j2),
        pokemon_move_vgd_id(id, i, j) != pokemon_stat_id(id2, i2),
        pokemon_game_index_id(id, i) != pokemon_held_vd_id(id2, i2, j2),
        pokemon_game_index_id(id, i) != pokemon_enc_vd_id(id2, i2, j2),
        pokemon_game_index_id(id, i) != pokemon_enc_case_id(id2, i2, j2, k2),
        pokemon_game_index_id(id, i) != pokemon_past_one_id(id2, i2, j2),
        pokemon_game_index_id(id, i) != pokemon_stat_id(id2, i2),
        pokemon_held_vd_id(id, i, j) != pokemon_enc_vd_id(id2, i2, j2),
        pokemon_held_vd_id(id, i, j) != pokemon_enc_case_id(id2, i2, j2, k2),
        pokemon_held_vd_id(id, i, j) != pokemon_past_one_id(id2, i2, j2),
        pokemon_held_vd_id(id, i, j) != pokemon_stat_id(id2, i2),
        pokemon_enc_vd_id(id, i, j) != pokemon_enc_case_id(id2, i2, j2, k2),
        pokemon_enc_vd_id(id, i, j) != pokemon_past_one_id(id2, i2, j2),
        pokemon_enc_vd_id(id, i, j) != pokemon_stat_id(id2, i2),
        pokemon_enc_case_id(id, i, j, k) != pokemon_past_one_id(id2, i2, j2),
        pokemon_enc_case_id(id, i, j, k) != pokemon_stat_id(id2, i2),
        pokemon_past_one_id(id, i, j) != pokemon_stat_id(id2, i2),
{
    reveal_strlit("move");
    reveal_strlit("gameIndex");
    reveal_strlit("heldItem");
    reveal_strlit("locationAreaEncounter");
    reveal_strlit("pastType");
    reveal_strlit("stat");
    assert("move"@ != "gameIndex"@) by {
        assert("move"@.len() != "gameIndex"@.len());
    }
    assert("move"@ != "heldItem"@) by {
        assert("move"@.len() != "heldItem"@.len());
    }
    assert("move"@ != "locationAreaEncounter"@) by {
        assert("move"@.len() != "locationAreaEncounter"@.len());
    }
    assert("move"@ != "pastType"@) by {
        assert("move"@.len() != "pastType"@.len());
    }
    assert("move"@ != "stat"@) by {
        assert("move"@[0] != "stat"@[0]);
    }
    assert("gameIndex"@ != "stat"@) by {
        assert("gameIndex"@.len() != "stat"@.len());
    }
    assert("heldItem"@ != "locationAreaEncounter"@) by {
        assert("heldItem"@.len() != "locationAreaEncounter"@.len());
    }
    assert("heldItem"@ != "pastType"@) by {
        assert("heldItem"@[0] != "pastType"@[0]);
    }
    assert("locationAreaEncounter"@ != "pastType"@) by {
        assert("locationAreaEncounter"@.len() != "pastType"@.len());
    }
    // Families of different path lengths.
    lemma_paths_differ_len(pokemon_move_id(id, i), pokemon_move_vgd_id(id2, i2, j2));
    lemma_paths_differ_len(pokemon_move_id(id, i), pokemon_held_vd_id(id2, i2, j2));
    lemma_paths_differ_len(pokemon_move_id(id, i), pokemon_enc_vd_id(id2, i2, j2));
    lemma_paths_differ_len(pokemon_move_id(id, i), pokemon_enc_case_id(id2, i2, j2, k2));
    lemma_paths_differ_len(pokemon_move_id(id, i), pokemon_past_one_id(id2, i2, j2));
    lemma_paths_differ_len(pokemon_move_vgd_id(id, i, j), pokemon_game_index_id(id2, i2));
    lemma_paths_differ_len(pokemon_move_vgd_id(id, i, j),
        pokemon_enc_case_id(id2, i2, j2, k2));
    lemma_paths_differ_len(pokemon_move_vgd_id(id, i, j), pokemon_stat_id(id2, i2));
    lemma_paths_differ_len(pokemon_game_index_id(id, i), pokemon_held_vd_id(id2, i2, j2));
    lemma_paths_differ_len(pokemon_game_index_id(id, i), pokemon_enc_vd_id(id2, i2, j2));
    lemma_paths_differ_len(pokemon_game_index_id(id, i),
        pokemon_enc_case_id(id2, i2, j2, k2));
    lemma_paths_differ_len(pokemon_game_index_id(id, i), pokemon_past_one_id(id2, i2, j2));
    lemma_paths_differ_len(pokemon_held_vd_id(id, i, j),
        pokemon_enc_case_id(id2, i2, j2, k2));
    lemma_paths_differ_len(pokemon_held_vd_id(id, i, j), pokemon_stat_id(id2, i2));
    lemma_paths_differ_len(pokemon_enc_vd_id(id, i, j),
        pokemon_enc_case_id(id2, i2, j2, k2));
    lemma_paths_differ_len(pokemon_enc_vd_id(id, i, j), pokemon_stat_id(id2, i2));
    lemma_paths_differ_len(pokemon_enc_case_id(id, i, j, k), pokemon_past_one_id(id2, i2, j2));
    lemma_paths_differ_len(pokemon_enc_case_id(id, i, j, k), pokemon_stat_id(id2, i2));
    lemma_paths_differ_len(pokemon_past_one_id(id, i, j), pokemon_stat_id(id2, i2));
    // Families of equal path length, told apart by the field word.
    lemma_paths_differ_word(pokemon_move_id(id, i), pokemon_game_index_id(id2, i2), 1);
    lemma_paths_differ_word(pokemon_move_id(id, i), pokemon_stat_id(id2, i2), 1);
    lemma_paths_differ_word(pokemon_move_vgd_id(id, i, j),
        pokemon_held_vd_id(id2, i2, j2), 1);
    lemma_paths_differ_word(pokemon_move_vgd_id(id, i, j),
        pokemon_enc_vd_id(id2, i2, j2), 1);
    lemma_paths_differ_word(pokemon_move_vgd_id(id, i, j),
        pokemon_past_one_id(id2, i2, j2), 1);
    lemma_paths_differ_word(pokemon_game_index_id(id, i), pokemon_stat_id(id2, i2), 1);
    lemma_paths_differ_word(pokemon_held_vd_id(id, i, j), pokemon_enc_vd_id(id2, i2, j2), 1);
    lemma_paths_differ_word(pokemon_held_vd_id(id, i, j), pokemon_past_one_id(id2, i2, j2), 1);
    lemma_paths_differ_word(pokemon_enc_vd_id(id, i, j), pokemon_past_one_id(id2, i2, j2), 1);
}

} // verus!
