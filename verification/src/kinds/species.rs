//! Extraction of species documents.

use vstd::prelude::*;
use crate::chars::lemma_concat_assoc;
use crate::error::{ErrorV, PipelineError};
use crate::extract::{all_ok, anon_st, bool_st, class_st, Emitter, first_bad, flat_map_idx,
    flat_map_of, int_st, lemma_flat_map_idx_snoc, lemma_flat_map_snoc, link_st, link_sts,
    loc_texts, Ns, opt_int_sts, opt_link_sts, opt_url, pred_iri, text_st};
use crate::ident::{AnonId, AnonSegV, wf_word};
use crate::model::{PokedexNumberV, Species, SpeciesFlavorV, SpeciesParkV, SpeciesV, VarietyV};
use crate::statement::{EntityRef, RefV, Statement, StatementV};
use crate::text::str_eq;

verus! {

/// The URLs of the species fields between the pokedex numbers and the
/// names.
pub open spec fn species_mid_urls(d: SpeciesV) -> Seq<Seq<char>> {
    d.egg_group_urls
    + seq![d.color_url]
    + opt_url(d.shape_url)
    + opt_url(d.evolves_from_url)
    + opt_url(d.evolution_chain_url)
    + opt_url(d.habitat_url)
    + seq![d.generation_url]
}

/// The URLs a species extraction checks, in order.  A flavor text's
/// version is checked only when the entry survives the locale filter; a
/// default variety's URL is checked once per statement it appears in.
pub open spec fn species_urls(url: Seq<char>, d: SpeciesV, loc: Seq<char>) -> Seq<Seq<char>> {
    seq![url, d.growth_rate_url]
    + flat_map_of(d.pokedex_numbers, |p: PokedexNumberV| seq![p.pokedex_url])
    + species_mid_urls(d)
    + flat_map_of(d.pal_park, |e: SpeciesParkV| seq![e.area_url])
    + flat_map_of(d.flavor_texts, |f: SpeciesFlavorV| if f.locale == loc {
        opt_url(f.version_url)
    } else {
        Seq::empty()
    })
    + flat_map_of(d.varieties, |v: VarietyV| seq![v.pokemon_url]
        + (if v.is_default { seq![v.pokemon_url] } else { Seq::empty() }))
}

/// The anonymous identity of the `i`-th pokedex number of species `id`.
pub open spec fn species_pokedex_id(id: nat, i: int) -> Seq<AnonSegV> {
    seq![
        AnonSegV { word: "species"@, num: id },
        AnonSegV { word: "pokedexnumber"@, num: i as nat },
    ]
}

/// The statement block of the `i`-th pokedex number of a species.
pub open spec fn species_pokedex_sts(s: RefV, id: nat, i: int, p: PokedexNumberV)
    -> Seq<StatementV> {
    let a = species_pokedex_id(id, i);
    seq![
        anon_st(s, pred_iri(Ns::Poke, "hasPokedexNumber"@), a),
        int_st(RefV::Anonymous(a), pred_iri(Ns::Poke, "entryNumber"@), p.entry_number),
        link_st(RefV::Anonymous(a), pred_iri(Ns::Poke, "pokedex"@), p.pokedex_url),
    ]
}

/// The anonymous identity of the `i`-th pal-park encounter of species
/// `id`.
pub open spec fn species_park_id(id: nat, i: int) -> Seq<AnonSegV> {
    seq![
        AnonSegV { word: "species"@, num: id },
        AnonSegV { word: "palparkencounter"@, num: i as nat },
    ]
}

/// The statement block of the `i`-th pal-park encounter of a species.
pub open spec fn species_park_sts(s: RefV, id: nat, i: int, e: SpeciesParkV)
    -> Seq<StatementV> {
    let a = species_park_id(id, i);
    seq![
        anon_st(s, pred_iri(Ns::Poke, "palParkEncounters"@), a),
        int_st(RefV::Anonymous(a), pred_iri(Ns::Poke, "baseScore"@), e.base_score),
        int_st(RefV::Anonymous(a), pred_iri(Ns::Poke, "rate"@), e.rate),
        link_st(RefV::Anonymous(a), pred_iri(Ns::Poke, "palParkArea"@), e.area_url),
    ]
}

/// The anonymous identity of the `i`-th flavor text of species `id`.
pub open spec fn species_flavor_id(id: nat, i: int) -> Seq<AnonSegV> {
    seq![
        AnonSegV { word: "species"@, num: id },
        AnonSegV { word: "flavortext"@, num: i as nat },
    ]
}

/// The statement block of the `i`-th flavor text of a species, present
/// only in the chosen locale; the index counts all entries.
pub open spec fn species_flavor_sts(s: RefV, id: nat, i: int, f: SpeciesFlavorV,
    loc: Seq<char>) -> Seq<StatementV> {
    let a = species_flavor_id(id, i);
    if f.locale == loc {
        seq![
            anon_st(s, pred_iri(Ns::Poke, "flavorText"@), a),
            text_st(RefV::Anonymous(a), pred_iri(Ns::Poke, "text"@), f.text),
        ] + opt_link_sts(RefV::Anonymous(a), pred_iri(Ns::Poke, "version"@), f.version_url)
    } else {
        Seq::empty()
    }
}

/// The statement block of one variety of a species: the variety itself,
/// and the default mark when it is the default one.
pub open spec fn variety_sts(s: RefV, v: VarietyV) -> Seq<StatementV> {
    seq![link_st(s, pred_iri(Ns::Poke, "hasVariety"@), v.pokemon_url)]
    + (if v.is_default {
        seq![link_st(s, pred_iri(Ns::Poke, "defaultVariety"@), v.pokemon_url)]
    } else {
        Seq::empty()
    })
}

/// The flag and rate statements of a species head, after the capture
/// rate.
pub open spec fn species_head_tail_sts(s: RefV, d: SpeciesV) -> Seq<StatementV> {
    opt_int_sts(s, pred_iri(Ns::Poke, "baseHappiness"@), d.base_happiness)
    + seq![bool_st(s, pred_iri(Ns::Poke, "isBaby"@), d.is_baby)]
    + seq![bool_st(s, pred_iri(Ns::Poke, "isLegendary"@), d.is_legendary)]
    + seq![bool_st(s, pred_iri(Ns::Poke, "isMythical"@), d.is_mythical)]
    + opt_int_sts(s, pred_iri(Ns::Poke, "hatchCounter"@), d.hatch_counter)
    + seq![bool_st(s, pred_iri(Ns::Poke, "hasGenderDifferences"@), d.has_gender_differences)]
    + seq![bool_st(s, pred_iri(Ns::Poke, "formsSwitchable"@), d.forms_switchable)]
    + seq![link_st(s, pred_iri(Ns::Poke, "hasGrowthRate"@), d.growth_rate_url)]
}

/// The leading statements of a species document, through its growth
/// rate.
pub open spec fn species_head_sts(s: RefV, d: SpeciesV) -> Seq<StatementV> {
    seq![
        class_st(s, "PokemonSpecies"@),
        int_st(s, pred_iri(Ns::Schema, "identifier"@), d.id as int),
        text_st(s, pred_iri(Ns::Schema, "name"@), d.name),
        int_st(s, pred_iri(Ns::Poke, "order"@), d.order),
        int_st(s, pred_iri(Ns::Poke, "genderRate"@), d.gender_rate),
        int_st(s, pred_iri(Ns::Poke, "captureRate"@), d.capture_rate),
    ] + species_head_tail_sts(s, d)
}

/// The statements of the species fields between the pokedex numbers and
/// the pal-park encounters.
pub open spec fn species_mid_sts(s: RefV, d: SpeciesV, loc: Seq<char>) -> Seq<StatementV> {
    link_sts(s, pred_iri(Ns::Kg, "inEggGroup"@), d.egg_group_urls)
    + seq![link_st(s, pred_iri(Ns::Kg, "hasColour"@), d.color_url)]
    + opt_link_sts(s, pred_iri(Ns::Kg, "hasShape"@), d.shape_url)
    + opt_link_sts(s, pred_iri(Ns::Kg, "evolvesFrom"@), d.evolves_from_url)
    + opt_link_sts(s, pred_iri(Ns::Poke, "evolutionChain"@), d.evolution_chain_url)
    + opt_link_sts(s, pred_iri(Ns::Kg, "foundIn"@), d.habitat_url)
    + seq![link_st(s, pred_iri(Ns::Poke, "generation"@), d.generation_url)]
    + loc_texts(s, pred_iri(Ns::Poke, "names"@), d.names, loc)
}

/// The statements extracted from one species document.
pub open spec fn species_sts(url: Seq<char>, d: SpeciesV, loc: Seq<char>) -> Seq<StatementV> {
    let s = RefV::Named(url);
    species_head_sts(s, d)
    + flat_map_idx(d.pokedex_numbers, 0,
        |i: int, p: PokedexNumberV| species_pokedex_sts(s, d.id, i, p))
    + species_mid_sts(s, d, loc)
    + flat_map_idx(d.pal_park, 0, |i: int, e: SpeciesParkV| species_park_sts(s, d.id, i, e))
    + flat_map_idx(d.flavor_texts, 0,
        |i: int, f: SpeciesFlavorV| species_flavor_sts(s, d.id, i, f, loc))
    + loc_texts(s, pred_iri(Ns::Poke, "formDescription"@), d.form_descriptions, loc)
    + loc_texts(s, pred_iri(Ns::Kg, "hasGenus"@), d.genera, loc)
    + flat_map_of(d.varieties, |v: VarietyV| variety_sts(s, v))
}

/// Emits the flag and rate statements of a species head.
#[verifier::loop_isolation(false)]
#[verifier::rlimit(100)]
fn emit_species_head_tail(em: &mut Emitter, subject: &EntityRef, d: &Species)
    requires
        old(em).wf(),
    ensures
        final(em).wf(),
        final(em).urls_view() == old(em).urls_view() + seq![d.growth_rate_url@],
        final(em).ok() ==> old(em).ok(),
        final(em).ok() ==> final(em).out_view() == old(em).out_view()
            + species_head_tail_sts(subject.deep_view(), d.deep_view()),
        !old(em).ok() ==> final(em).out_view() == old(em).out_view(),
{
    let ghost s = subject.deep_view();
    let ghost dv = d.deep_view();
    em.opt_int(subject, Ns::Poke, "baseHappiness", &d.base_happiness);
    em.lit_bool(subject, Ns::Poke, "isBaby", d.is_baby);
    em.lit_bool(subject, Ns::Poke, "isLegendary", d.is_legendary);
    em.lit_bool(subject, Ns::Poke, "isMythical", d.is_mythical);
    em.opt_int(subject, Ns::Poke, "hatchCounter", &d.hatch_counter);
    em.lit_bool(subject, Ns::Poke, "hasGenderDifferences", d.has_gender_differences);
    em.lit_bool(subject, Ns::Poke, "formsSwitchable", d.forms_switchable);
    em.link(subject, Ns::Poke, "hasGrowthRate", d.growth_rate_url.as_str());
    proof {
        if em.ok() {
            assert(em.out_view() =~= old(em).out_view() + species_head_tail_sts(s, dv));
        }
    }
}

/// Emits the leading statements of a species.
#[verifier::loop_isolation(false)]
#[verifier::rlimit(100)]
fn emit_species_head(em: &mut Emitter, subject: &EntityRef, d: &Species)
    requires
        old(em).wf(),
    ensures
        final(em).wf(),
        final(em).urls_view() == old(em).urls_view() + seq![d.growth_rate_url@],
        final(em).ok() ==> old(em).ok(),
        final(em).ok() ==> final(em).out_view() == old(em).out_view()
            + species_head_sts(subject.deep_view(), d.deep_view()),
        !old(em).ok() ==> final(em).out_view() == old(em).out_view(),
{
    let ghost s = subject.deep_view();
    let ghost dv = d.deep_view();
    em.class(subject, "PokemonSpecies");
    em.lit_uint(subject, Ns::Schema, "identifier", d.id);
    em.lit_text(subject, Ns::Schema, "name", d.name.as_str());
    em.lit_int(subject, Ns::Poke, "order", d.order);
    em.lit_int(subject, Ns::Poke, "genderRate", d.gender_rate);
    em.lit_int(subject, Ns::Poke, "captureRate", d.capture_rate);
    let ghost six = em.out_view();
    let ghost six_block = seq![
        class_st(s, "PokemonSpecies"@),
        int_st(s, pred_iri(Ns::Schema, "identifier"@), dv.id as int),
        text_st(s, pred_iri(Ns::Schema, "name"@), dv.name),
        int_st(s, pred_iri(Ns::Poke, "order"@), dv.order),
        int_st(s, pred_iri(Ns::Poke, "genderRate"@), dv.gender_rate),
        int_st(s, pred_iri(Ns::Poke, "captureRate"@), dv.capture_rate),
    ];
    proof {
        if em.ok() {
            assert(six =~= old(em).out_view() + six_block);
        }
    }
    emit_species_head_tail(em, subject, d);
    proof {
        if em.ok() {
            lemma_concat_assoc(old(em).out_view(), six_block, species_head_tail_sts(s, dv));
        }
    }
}

/// Emits the species fields between the pokedex numbers and the
/// pal-park encounters.
#[verifier::loop_isolation(false)]
#[verifier::rlimit(100)]
fn emit_species_mid(em: &mut Emitter, subject: &EntityRef, d: &Species, locale: &str)
    requires
        old(em).wf(),
    ensures
        final(em).wf(),
        final(em).urls_view() == old(em).urls_view() + species_mid_urls(d.deep_view()),
        final(em).ok() ==> old(em).ok(),
        final(em).ok() ==> final(em).out_view() == old(em).out_view()
            + species_mid_sts(subject.deep_view(), d.deep_view(), locale@),
        !old(em).ok() ==> final(em).out_view() == old(em).out_view(),
{
    let ghost s = subject.deep_view();
    let ghost dv = d.deep_view();
    em.links(subject, Ns::Kg, "inEggGroup", &d.egg_group_urls);
    em.link(subject, Ns::Kg, "hasColour", d.color_url.as_str());
    em.opt_link(subject, Ns::Kg, "hasShape", &d.shape_url);
    em.opt_link(subject, Ns::Kg, "evolvesFrom", &d.evolves_from_url);
    em.opt_link(subject, Ns::Poke, "evolutionChain", &d.evolution_chain_url);
    em.opt_link(subject, Ns::Kg, "foundIn", &d.habitat_url);
    em.link(subject, Ns::Poke, "generation", d.generation_url.as_str());
    em.texts(subject, Ns::Poke, "names", &d.names, locale);
    proof {
        assert(em.urls_view() =~= old(em).urls_view() + species_mid_urls(dv));
        if em.ok() {
            assert(em.out_view() =~= old(em).out_view() + species_mid_sts(s, dv, locale@));
        }
    }
}

/// Emits the pokedex-number blocks of a species.
#[verifier::loop_isolation(false)]
#[verifier::rlimit(100)]
fn emit_species_pokedex(em: &mut Emitter, subject: &EntityRef, root: &AnonId, d: &Species)
    requires
        old(em).wf(),
        root.deep_view() == seq![AnonSegV { word: "species"@, num: d.id as nat }],
        wf_word("pokedexnumber"@),
    ensures
        final(em).wf(),
        final(em).urls_view() == old(em).urls_view() + flat_map_of(
            d.deep_view().pokedex_numbers, |p: PokedexNumberV| seq![p.pokedex_url]),
        final(em).ok() ==> old(em).ok(),
        final(em).ok() ==> final(em).out_view() == old(em).out_view() + flat_map_idx(
            d.deep_view().pokedex_numbers, 0,
            |i: int, p: PokedexNumberV| species_pokedex_sts(subject.deep_view(),
                d.deep_view().id, i, p)),
        !old(em).ok() ==> final(em).out_view() == old(em).out_view(),
{
    let ghost s = subject.deep_view();
    let ghost dv = d.deep_view();
    let ghost pu = |p: PokedexNumberV| seq![p.pokedex_url];
    let ghost ps = |i: int, p: PokedexNumberV| species_pokedex_sts(s, dv.id, i, p);
    let ghost entry_ok = em.ok();
    let n = d.pokedex_numbers.len();
    let mut i: usize = 0;
    while i < n
        invariant
            em.wf(),
            em.ok() ==> entry_ok,
            !old(em).ok() ==> em.out_view() == old(em).out_view(),
            n == d.pokedex_numbers.len(),
            i <= n,
            em.urls_view() == old(em).urls_view()
                + flat_map_of(d.pokedex_numbers.deep_view().take(i as int), pu),
            em.ok() ==> em.out_view() == old(em).out_view()
                + flat_map_idx(d.pokedex_numbers.deep_view().take(i as int), 0, ps),
        decreases n - i,
    {
        let ghost pre_urls = em.urls_view();
        let ghost pre_out = em.out_view();
        let p = &d.pokedex_numbers[i];
        let pid = root.child("pokedexnumber", i as u64);
        proof {
            assert(pid.deep_view() =~= species_pokedex_id(dv.id, i as int));
        }
        em.anon_obj(subject, Ns::Poke, "hasPokedexNumber", &pid);
        let pref = EntityRef::Anonymous(pid);
        em.lit_int(&pref, Ns::Poke, "entryNumber", p.entry_number);
        em.link(&pref, Ns::Poke, "pokedex", p.pokedex_url.as_str());
        proof {
            let pv = d.pokedex_numbers.deep_view();
            assert(pv.take(i + 1 as int) =~= pv.take(i as int).push(pv[i as int]));
            lemma_flat_map_snoc(pv.take(i as int), pv[i as int], pu);
            lemma_concat_assoc(old(em).urls_view(), flat_map_of(pv.take(i as int), pu),
                pu(pv[i as int]));
            assert(pre_urls + seq![dv.pokedex_numbers[i as int].pokedex_url] =~= pre_urls
                + pu(pv[i as int]));
            assert(em.urls_view() =~= old(em).urls_view()
                + flat_map_of(pv.take(i + 1 as int), pu));
            if em.ok() {
                lemma_flat_map_idx_snoc(pv.take(i as int), 0, pv[i as int], ps);
                lemma_concat_assoc(old(em).out_view(), flat_map_idx(pv.take(i as int), 0, ps),
                    ps(i as int, pv[i as int]));
                let a = species_pokedex_id(dv.id, i as int);
                assert(em.out_view() =~= pre_out + seq![
                    anon_st(s, pred_iri(Ns::Poke, "hasPokedexNumber"@), a),
                    int_st(RefV::Anonymous(a), pred_iri(Ns::Poke, "entryNumber"@),
                        pv[i as int].entry_number),
                    link_st(RefV::Anonymous(a), pred_iri(Ns::Poke, "pokedex"@),
                        pv[i as int].pokedex_url),
                ]);
                assert(em.out_view() =~= old(em).out_view()
                    + flat_map_idx(pv.take(i + 1 as int), 0, ps));
            }
        }
        i = i + 1;
    }
    proof {
        assert(d.pokedex_numbers.deep_view().take(n as int)
            =~= d.pokedex_numbers.deep_view());
    }
}

/// Emits the pal-park-encounter blocks of a species.
#[verifier::loop_isolation(false)]
#[verifier::rlimit(100)]
fn emit_species_parks(em: &mut Emitter, subject: &EntityRef, root: &AnonId, d: &Species)
    requires
        old(em).wf(),
        root.deep_view() == seq![AnonSegV { word: "species"@, num: d.id as nat }],
        wf_word("palparkencounter"@),
    ensures
        final(em).wf(),
        final(em).urls_view() == old(em).urls_view() + flat_map_of(
            d.deep_view().pal_park, |e: SpeciesParkV| seq![e.area_url]),
        final(em).ok() ==> old(em).ok(),
        final(em).ok() ==> final(em).out_view() == old(em).out_view() + flat_map_idx(
            d.deep_view().pal_park, 0,
            |i: int, e: SpeciesParkV| species_park_sts(subject.deep_view(),
                d.deep_view().id, i, e)),
        !old(em).ok() ==> final(em).out_view() == old(em).out_view(),
{
    let ghost s = subject.deep_view();
    let ghost dv = d.deep_view();
    let ghost eu = |e: SpeciesParkV| seq![e.area_url];
    let ghost es = |i: int, e: SpeciesParkV| species_park_sts(s, dv.id, i, e);
    let ghost entry_ok = em.ok();
    let n = d.pal_park.len();
    let mut j: usize = 0;
    while j < n
        invariant
            em.wf(),
            em.ok() ==> entry_ok,
            !old(em).ok() ==> em.out_view() == old(em).out_view(),
            n == d.pal_park.len(),
            j <= n,
            em.urls_view() == old(em).urls_view()
                + flat_map_of(d.pal_park.deep_view().take(j as int), eu),
            em.ok() ==> em.out_view() == old(em).out_view()
                + flat_map_idx(d.pal_park.deep_view().take(j as int), 0, es),
        decreases n - j,
    {
        let ghost pre_urls = em.urls_view();
        let ghost pre_out = em.out_view();
        let e = &d.pal_park[j];
        let eid = root.child("palparkencounter", j as u64);
        proof {
            assert(eid.deep_view() =~= species_park_id(dv.id, j as int));
        }
        em.anon_obj(subject, Ns::Poke, "palParkEncounters", &eid);
        let eref = EntityRef::Anonymous(eid);
        em.lit_int(&eref, Ns::Poke, "baseScore", e.base_score);
        em.lit_int(&eref, Ns::Poke, "rate", e.rate);
        em.link(&eref, Ns::Poke, "palParkArea", e.area_url.as_str());
        proof {
            let ev = d.pal_park.deep_view();
            assert(ev.take(j + 1 as int) =~= ev.take(j as int).push(ev[j as int]));
            lemma_flat_map_snoc(ev.take(j as int), ev[j as int], eu);
            lemma_concat_assoc(old(em).urls_view(), flat_map_of(ev.take(j as int), eu),
                eu(ev[j as int]));
            assert(pre_urls + seq![dv.pal_park[j as int].area_url] =~= pre_urls
                + eu(ev[j as int]));
            assert(em.urls_view() =~= old(em).urls_view()
                + flat_map_of(ev.take(j + 1 as int), eu));
            if em.ok() {
                lemma_flat_map_idx_snoc(ev.take(j as int), 0, ev[j as int], es);
                lemma_concat_assoc(old(em).out_view(), flat_map_idx(ev.take(j as int), 0, es),
                    es(j as int, ev[j as int]));
                let a = species_park_id(dv.id, j as int);
                assert(em.out_view() =~= pre_out + seq![
                    anon_st(s, pred_iri(Ns::Poke, "palParkEncounters"@), a),
                    int_st(RefV::Anonymous(a), pred_iri(Ns::Poke, "baseScore"@),
                        ev[j as int].base_score),
                    int_st(RefV::Anonymous(a), pred_iri(Ns::Poke, "rate"@),
                        ev[j as int].rate),
                    link_st(RefV::Anonymous(a), pred_iri(Ns::Poke, "palParkArea"@),
                        ev[j as int].area_url),
                ]);
                assert(em.out_view() =~= old(em).out_view()
                    + flat_map_idx(ev.take(j + 1 as int), 0, es));
            }
        }
        j = j + 1;
    }
    proof {
        assert(d.pal_park.deep_view().take(n as int) =~= d.pal_park.deep_view());
    }
}

/// Emits the locale-filtered flavor-text blocks of a species.
#[verifier::loop_isolation(false)]
#[verifier::rlimit(100)]
fn emit_species_flavors(em: &mut Emitter, subject: &EntityRef, root: &AnonId, d: &Species,
    locale: &str)
    requires
        old(em).wf(),
        root.deep_view() == seq![AnonSegV { word: "species"@, num: d.id as nat }],
        wf_word("flavortext"@),
    ensures
        final(em).wf(),
        final(em).urls_view() == old(em).urls_view() + flat_map_of(
            d.deep_view().flavor_texts, |f: SpeciesFlavorV| if f.locale == locale@ {
                opt_url(f.version_url)
            } else {
                Seq::empty()
            }),
        final(em).ok() ==> old(em).ok(),
        final(em).ok() ==> final(em).out_view() == old(em).out_view() + flat_map_idx(
            d.deep_view().flavor_texts, 0,
            |i: int, f: SpeciesFlavorV| species_flavor_sts(subject.deep_view(),
                d.deep_view().id, i, f, locale@)),
        !old(em).ok() ==> final(em).out_view() == old(em).out_view(),
{
    let ghost s = subject.deep_view();
    let ghost dv = d.deep_view();
    let ghost fu = |f: SpeciesFlavorV| if f.locale == locale@ {
        opt_url(f.version_url)
    } else {
        Seq::<Seq<char>>::empty()
    };
    let ghost fs = |i: int, f: SpeciesFlavorV| species_flavor_sts(s, dv.id, i, f, locale@);
    let ghost entry_ok = em.ok();
    let n = d.flavor_texts.len();
    let mut k: usize = 0;
    while k < n
        invariant
            em.wf(),
            em.ok() ==> entry_ok,
            !old(em).ok() ==> em.out_view() == old(em).out_view(),
            n == d.flavor_texts.len(),
            k <= n,
            em.urls_view() == old(em).urls_view()
                + flat_map_of(d.flavor_texts.deep_view().take(k as int), fu),
            em.ok() ==> em.out_view() == old(em).out_view()
                + flat_map_idx(d.flavor_texts.deep_view().take(k as int), 0, fs),
        decreases n - k,
    {
        let ghost pre_urls = em.urls_view();
        let ghost pre_out = em.out_view();
        let f = &d.flavor_texts[k];
        if str_eq(f.locale.as_str(), locale) {
            let fid = root.child("flavortext", k as u64);
            proof {
                assert(fid.deep_view() =~= species_flavor_id(dv.id, k as int));
            }
            em.anon_obj(subject, Ns::Poke, "flavorText", &fid);
            let fref = EntityRef::Anonymous(fid);
            em.lit_text(&fref, Ns::Poke, "text", f.text.as_str());
            em.opt_link(&fref, Ns::Poke, "version", &f.version_url);
        }
        proof {
            let fv = d.flavor_texts.deep_view();
            let ff = fv[k as int];
            assert(fv.take(k + 1 as int) =~= fv.take(k as int).push(ff));
            lemma_flat_map_snoc(fv.take(k as int), ff, fu);
            lemma_concat_assoc(old(em).urls_view(), flat_map_of(fv.take(k as int), fu),
                fu(ff));
            if ff.locale == locale@ {
                assert(em.urls_view() =~= pre_urls + fu(ff));
            } else {
                assert(pre_urls + fu(ff) =~= pre_urls);
            }
            assert(em.urls_view() =~= old(em).urls_view()
                + flat_map_of(fv.take(k + 1 as int), fu));
            if em.ok() {
                lemma_flat_map_idx_snoc(fv.take(k as int), 0, ff, fs);
                lemma_concat_assoc(old(em).out_view(), flat_map_idx(fv.take(k as int), 0, fs),
                    fs(k as int, ff));
                let a = species_flavor_id(dv.id, k as int);
                if ff.locale == locale@ {
                    lemma_concat_assoc(pre_out, seq![
                        anon_st(s, pred_iri(Ns::Poke, "flavorText"@), a),
                        text_st(RefV::Anonymous(a), pred_iri(Ns::Poke, "text"@), ff.text),
                    ], opt_link_sts(RefV::Anonymous(a), pred_iri(Ns::Poke, "version"@),
                        ff.version_url));
                    assert(em.out_view() =~= pre_out + fs(k as int, ff));
                } else {
                    assert(em.out_view() =~= pre_out + fs(k as int, ff));
                }
                assert(em.out_view() =~= old(em).out_view()
                    + flat_map_idx(fv.take(k + 1 as int), 0, fs));
            }
        }
        k = k + 1;
    }
    proof {
        assert(d.flavor_texts.deep_view().take(n as int) =~= d.flavor_texts.deep_view());
    }
}

/// Emits the variety statements of a species.
#[verifier::loop_isolation(false)]
#[verifier::rlimit(100)]
fn emit_species_varieties(em: &mut Emitter, subject: &EntityRef, d: &Species)
    requires
        old(em).wf(),
    ensures
        final(em).wf(),
        final(em).urls_view() == old(em).urls_view() + flat_map_of(
            d.deep_view().varieties, |v: VarietyV| seq![v.pokemon_url]
                + (if v.is_default { seq![v.pokemon_url] } else { Seq::empty() })),
        final(em).ok() ==> old(em).ok(),
        final(em).ok() ==> final(em).out_view() == old(em).out_view() + flat_map_of(
            d.deep_view().varieties, |v: VarietyV| variety_sts(subject.deep_view(), v)),
        !old(em).ok() ==> final(em).out_view() == old(em).out_view(),
{
    let ghost s = subject.deep_view();
    let ghost dv = d.deep_view();
    let ghost vu = |v: VarietyV| seq![v.pokemon_url]
        + (if v.is_default { seq![v.pokemon_url] } else { Seq::<Seq<char>>::empty() });
    let ghost vs = |v: VarietyV| variety_sts(s, v);
    let ghost entry_ok = em.ok();
    let n = d.varieties.len();
    let mut m: usize = 0;
    while m < n
        invariant
            em.wf(),
            em.ok() ==> entry_ok,
            !old(em).ok() ==> em.out_view() == old(em).out_view(),
            n == d.varieties.len(),
            m <= n,
            em.urls_view() == old(em).urls_view()
                + flat_map_of(d.varieties.deep_view().take(m as int), vu),
            em.ok() ==> em.out_view() == old(em).out_view()
                + flat_map_of(d.varieties.deep_view().take(m as int), vs),
        decreases n - m,
    {
        let ghost pre_urls = em.urls_view();
        let ghost pre_out = em.out_view();
        let v = &d.varieties[m];
        em.link(subject, Ns::Poke, "hasVariety", v.pokemon_url.as_str());
        if v.is_default {
            em.link(subject, Ns::Poke, "defaultVariety", v.pokemon_url.as_str());
        }
        proof {
            let vv = d.varieties.deep_view();
            let vd = vv[m as int];
            assert(vv.take(m + 1 as int) =~= vv.take(m as int).push(vd));
            lemma_flat_map_snoc(vv.take(m as int), vd, vu);
            lemma_concat_assoc(old(em).urls_view(), flat_map_of(vv.take(m as int), vu),
                vu(vd));
            if vd.is_default {
                lemma_concat_assoc(pre_urls, seq![vd.pokemon_url], seq![vd.pokemon_url]);
                assert(seq![vd.pokemon_url] + seq![vd.pokemon_url] =~= vu(vd));
            } else {
                assert(seq![vd.pokemon_url] =~= vu(vd));
            }
            assert(em.urls_view() =~= old(em).urls_view()
                + flat_map_of(vv.take(m + 1 as int), vu));
            if em.ok() {
                lemma_flat_map_snoc(vv.take(m as int), vd, vs);
                lemma_concat_assoc(old(em).out_view(), flat_map_of(vv.take(m as int), vs),
                    vs(vd));
                if vd.is_default {
                    lemma_concat_assoc(pre_out,
                        seq![link_st(s, pred_iri(Ns::Poke, "hasVariety"@), vd.pokemon_url)],
                        seq![link_st(s, pred_iri(Ns::Poke, "defaultVariety"@),
                            vd.pokemon_url)]);
                    assert(em.out_view() =~= pre_out + vs(vd));
                } else {
                    assert(em.out_view() =~= pre_out + vs(vd));
                }
                assert(em.out_view() =~= old(em).out_view()
                    + flat_map_of(vv.take(m + 1 as int), vs));
            }
        }
        m = m + 1;
    }
    proof {
        assert(d.varieties.deep_view().take(n as int) =~= d.varieties.deep_view());
    }
}

/// Extracts the statements of one species.
#[verifier::loop_isolation(false)]
#[verifier::rlimit(100)]
pub fn species_to_statements(url: &str, d: &Species, locale: &str)
    -> (r: Result<Vec<Statement>, PipelineError>)
    ensures
        r.is_ok() <==> all_ok(species_urls(url@, d.deep_view(), locale@)),
        r matches Ok(v) ==> v.deep_view() == species_sts(url@, d.deep_view(), locale@),
        r matches Err(e) ==> e.deep_view()
            == ErrorV::InvalidIdentity(first_bad(species_urls(url@, d.deep_view(), locale@))),
{
    let ghost dv = d.deep_view();
    let ghost s = RefV::Named(url@);
    let (mut em, subject) = Emitter::open(url);
    proof {
        reveal_strlit("species");
        reveal_strlit("pokedexnumber");
        reveal_strlit("palparkencounter");
        reveal_strlit("flavortext");
        assert(wf_word("species"@));
        assert(wf_word("pokedexnumber"@));
        assert(wf_word("palparkencounter"@));
        assert(wf_word("flavortext"@));
    }
    let root = AnonId::root("species", d.id);
    emit_species_head(&mut em, &subject, d);
    proof {
        assert(em.urls_view() =~= seq![url@, dv.growth_rate_url]);
        if em.ok() {
            assert(Seq::<StatementV>::empty() + species_head_sts(s, dv)
                =~= species_head_sts(s, dv));
        }
    }
    emit_species_pokedex(&mut em, &subject, &root, d);
    emit_species_mid(&mut em, &subject, d, locale);
    emit_species_parks(&mut em, &subject, &root, d);
    emit_species_flavors(&mut em, &subject, &root, d, locale);
    em.texts(&subject, Ns::Poke, "formDescription", &d.form_descriptions, locale);
    em.texts(&subject, Ns::Kg, "hasGenus", &d.genera, locale);
    emit_species_varieties(&mut em, &subject, d);
    proof {
        assert(em.urls_view() == species_urls(url@, dv, locale@));
        if em.ok() {
            assert(em.out_view() == species_sts(url@, dv, locale@));
        }
    }
    em.finish()
}

} // verus!
