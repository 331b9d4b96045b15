//! The closed set of resource extractors, selected by document kind.
//!
//! The coordinator iterates over this registry: one extractor per
//! resource kind, each a pure function from a fetched document to its
//! statement sequence.

use vstd::prelude::*;
use crate::error::{ErrorV, PipelineError, ResourceKind};
use crate::extract::{all_ok, first_bad};
use crate::kinds::abilities::{ability_sts, ability_to_statements, ability_urls};
use crate::kinds::berries::{berry_sts, berry_to_statements, berry_urls};
use crate::kinds::berry_flavors::{berry_flavor_sts, berry_flavor_to_statements,
    berry_flavor_urls};
use crate::kinds::damage_class::{damage_class_sts, damage_class_to_statements,
    damage_class_urls};
use crate::kinds::evolution_chains::{evolution_chain_sts, evolution_chain_to_statements,
    evolution_chain_urls};
use crate::kinds::forms::{form_sts, form_to_statements, form_urls};
use crate::kinds::generations::{generation_sts, generation_to_statements, generation_urls};
use crate::kinds::growth_rates::{growth_rate_sts, growth_rate_to_statements,
    growth_rate_urls};
use crate::kinds::habitats::{habitat_sts, habitat_to_statements, habitat_urls};
use crate::kinds::items::{item_sts, item_to_statements, item_urls};
use crate::kinds::locations::{location_sts, location_to_statements, location_urls};
use crate::kinds::move_target::{move_target_sts, move_target_to_statements,
    move_target_urls};
use crate::kinds::moves::{move_sts, move_to_statements, move_urls};
use crate::kinds::natures::{nature_sts, nature_to_statements, nature_urls};
use crate::kinds::pal_park::{pal_park_sts, pal_park_to_statements, pal_park_urls};
use crate::kinds::poke_types::{poke_type_sts, poke_type_to_statements, poke_type_urls};
use crate::kinds::pokedex::{pokedex_sts, pokedex_to_statements, pokedex_urls};
use crate::kinds::pokemon::{pokemon_sts, pokemon_to_statements, pokemon_urls};
use crate::kinds::regions::{region_sts, region_to_statements, region_urls};
use crate::kinds::shapes::{shape_sts, shape_to_statements, shape_urls};
use crate::kinds::species::{species_sts, species_to_statements, species_urls};
use crate::kinds::stats::{stat_sts, stat_to_statements, stat_urls};
use crate::kinds::triggers::{trigger_sts, trigger_to_statements, trigger_urls};
use crate::model::{Ability, AbilityV, Berry, BerryFlavor, BerryFlavorV, BerryV, DamageClass,
    DamageClassV, EvolutionChain, EvolutionChainV, Form, FormV, Generation, GenerationV,
    GrowthRate, GrowthRateV, Habitat, HabitatV, Item, ItemV, Location, LocationV, Move,
    MoveTarget, MoveTargetV, MoveV, Nature, NatureV, PalParkArea, PalParkAreaV, PokeType,
    PokeTypeV, Pokedex, PokedexV, Pokemon, PokemonV, Region, RegionV, Shape, ShapeV, Species,
    SpeciesV, Stat, StatV, Trigger, TriggerV};
use crate::statement::{Statement, StatementV};

verus! {

/// One fetched resource document, of whichever kind.
pub enum ResourceDetail {
    Ability(Ability),
    Berry(Berry),
    BerryFlavor(BerryFlavor),
    DamageClass(DamageClass),
    EvolutionChain(EvolutionChain),
    EvolutionTrigger(Trigger),
    Generation(Generation),
    GrowthRate(GrowthRate),
    Habitat(Habitat),
    Item(Item),
    Location(Location),
    Move(Move),
    MoveTarget(MoveTarget),
    Nature(Nature),
    PalParkArea(PalParkArea),
    Pokedex(Pokedex),
    Pokemon(Pokemon),
    PokemonForm(Form),
    PokemonType(PokeType),
    Region(Region),
    Shape(Shape),
    Species(Species),
    Stat(Stat),
}

/// The mathematical value of a fetched document.
#[verifier::ext_equal]
pub enum DetailV {
    Ability(AbilityV),
    Berry(BerryV),
    BerryFlavor(BerryFlavorV),
    DamageClass(DamageClassV),
    EvolutionChain(EvolutionChainV),
    EvolutionTrigger(TriggerV),
    Generation(GenerationV),
    GrowthRate(GrowthRateV),
    Habitat(HabitatV),
    Item(ItemV),
    Location(LocationV),
    Move(MoveV),
    MoveTarget(MoveTargetV),
    Nature(NatureV),
    PalParkArea(PalParkAreaV),
    Pokedex(PokedexV),
    Pokemon(PokemonV),
    PokemonForm(FormV),
    PokemonType(PokeTypeV),
    Region(RegionV),
    Shape(ShapeV),
    Species(SpeciesV),
    Stat(StatV),
}

impl DeepView for ResourceDetail {
    type V = DetailV;

    open spec fn deep_view(&self) -> DetailV {
        match self {
            ResourceDetail::Ability(d) => DetailV::Ability(d.deep_view()),
            ResourceDetail::Berry(d) => DetailV::Berry(d.deep_view()),
            ResourceDetail::BerryFlavor(d) => DetailV::BerryFlavor(d.deep_view()),
            ResourceDetail::DamageClass(d) => DetailV::DamageClass(d.deep_view()),
            ResourceDetail::EvolutionChain(d) => DetailV::EvolutionChain(d.deep_view()),
            ResourceDetail::EvolutionTrigger(d) => DetailV::EvolutionTrigger(d.deep_view()),
            ResourceDetail::Generation(d) => DetailV::Generation(d.deep_view()),
            ResourceDetail::GrowthRate(d) => DetailV::GrowthRate(d.deep_view()),
            ResourceDetail::Habitat(d) => DetailV::Habitat(d.deep_view()),
            ResourceDetail::Item(d) => DetailV::Item(d.deep_view()),
            ResourceDetail::Location(d) => DetailV::Location(d.deep_view()),
            ResourceDetail::Move(d) => DetailV::Move(d.deep_view()),
            ResourceDetail::MoveTarget(d) => DetailV::MoveTarget(d.deep_view()),
            ResourceDetail::Nature(d) => DetailV::Nature(d.deep_view()),
            ResourceDetail::PalParkArea(d) => DetailV::PalParkArea(d.deep_view()),
            ResourceDetail::Pokedex(d) => DetailV::Pokedex(d.deep_view()),
            ResourceDetail::Pokemon(d) => DetailV::Pokemon(d.deep_view()),
            ResourceDetail::PokemonForm(d) => DetailV::PokemonForm(d.deep_view()),
            ResourceDetail::PokemonType(d) => DetailV::PokemonType(d.deep_view()),
            ResourceDetail::Region(d) => DetailV::Region(d.deep_view()),
            ResourceDetail::Shape(d) => DetailV::Shape(d.deep_view()),
            ResourceDetail::Species(d) => DetailV::Species(d.deep_view()),
            ResourceDetail::Stat(d) => DetailV::Stat(d.deep_view()),
        }
    }
}

/// The URLs one document's extraction checks, in order; `name` is the
/// listing entry's name, `loc` the configured locale.
pub open spec fn resource_urls(url: Seq<char>, name: Seq<char>, d: DetailV, loc: Seq<char>)
    -> Seq<Seq<char>> {
    match d {
        DetailV::Ability(v) => ability_urls(url, v),
        DetailV::Berry(v) => berry_urls(url, v),
        DetailV::BerryFlavor(v) => berry_flavor_urls(url, v),
        DetailV::DamageClass(v) => damage_class_urls(url, v),
        DetailV::EvolutionChain(v) => evolution_chain_urls(url, v),
        DetailV::EvolutionTrigger(v) => trigger_urls(url, v),
        DetailV::Generation(v) => generation_urls(url, v),
        DetailV::GrowthRate(v) => growth_rate_urls(url, v),
        DetailV::Habitat(v) => habitat_urls(url, v),
        DetailV::Item(v) => item_urls(url, v),
        DetailV::Location(v) => location_urls(url, v),
        DetailV::Move(v) => move_urls(url, v, loc),
        DetailV::MoveTarget(v) => move_target_urls(url, v),
        DetailV::Nature(v) => nature_urls(url, v),
        DetailV::PalParkArea(v) => pal_park_urls(url, v),
        DetailV::Pokedex(v) => pokedex_urls(url, v),
        DetailV::Pokemon(v) => pokemon_urls(url, v),
        DetailV::PokemonForm(v) => form_urls(url, v),
        DetailV::PokemonType(v) => poke_type_urls(url, v),
        DetailV::Region(v) => region_urls(url, v),
        DetailV::Shape(v) => shape_urls(url, v),
        DetailV::Species(v) => species_urls(url, v, loc),
        DetailV::Stat(v) => stat_urls(url, v),
    }
}

/// The statements one document's extraction produces when every URL is
/// well-formed.
pub open spec fn resource_sts(url: Seq<char>, name: Seq<char>, d: DetailV, loc: Seq<char>)
    -> Seq<StatementV> {
    match d {
        DetailV::Ability(v) => ability_sts(url, v, loc),
        DetailV::Berry(v) => berry_sts(url, v),
        DetailV::BerryFlavor(v) => berry_flavor_sts(url, v, loc),
        DetailV::DamageClass(v) => damage_class_sts(url, name, v, loc),
        DetailV::EvolutionChain(v) => evolution_chain_sts(url, v),
        DetailV::EvolutionTrigger(v) => trigger_sts(url, v, loc),
        DetailV::Generation(v) => generation_sts(url, v, loc),
        DetailV::GrowthRate(v) => growth_rate_sts(url, v, loc),
        DetailV::Habitat(v) => habitat_sts(url, v, loc),
        DetailV::Item(v) => item_sts(url, v, loc),
        DetailV::Location(v) => location_sts(url, v, loc),
        DetailV::Move(v) => move_sts(url, name, v, loc),
        DetailV::MoveTarget(v) => move_target_sts(url, name, v, loc),
        DetailV::Nature(v) => nature_sts(url, v, loc),
        DetailV::PalParkArea(v) => pal_park_sts(url, v, loc),
        DetailV::Pokedex(v) => pokedex_sts(url, v, loc),
        DetailV::Pokemon(v) => pokemon_sts(url, v),
        DetailV::PokemonForm(v) => form_sts(url, v, loc),
        DetailV::PokemonType(v) => poke_type_sts(url, v, loc),
        DetailV::Region(v) => region_sts(url, v, loc),
        DetailV::Shape(v) => shape_sts(url, v, loc),
        DetailV::Species(v) => species_sts(url, v, loc),
        DetailV::Stat(v) => stat_sts(url, v, loc),
    }
}

/// Extracts the statements of one fetched document, whichever its kind.
pub fn extract_resource(url: &str, name: &str, d: &ResourceDetail, locale: &str)
    -> (r: Result<Vec<Statement>, PipelineError>)
    ensures
        r.is_ok() <==> all_ok(resource_urls(url@, name@, d.deep_view(), locale@)),
        r matches Ok(v) ==> v.deep_view()
            == resource_sts(url@, name@, d.deep_view(), locale@),
        r matches Err(e) ==> e.deep_view() == ErrorV::InvalidIdentity(
            first_bad(resource_urls(url@, name@, d.deep_view(), locale@))),
{
    match d {
        ResourceDetail::Ability(v) => ability_to_statements(url, v, locale),
        ResourceDetail::Berry(v) => berry_to_statements(url, v),
        ResourceDetail::BerryFlavor(v) => berry_flavor_to_statements(url, v, locale),
        ResourceDetail::DamageClass(v) => damage_class_to_statements(url, name, v, locale),
        ResourceDetail::EvolutionChain(v) => evolution_chain_to_statements(url, v),
        ResourceDetail::EvolutionTrigger(v) => trigger_to_statements(url, v, locale),
        ResourceDetail::Generation(v) => generation_to_statements(url, v, locale),
        ResourceDetail::GrowthRate(v) => growth_rate_to_statements(url, v, locale),
        ResourceDetail::Habitat(v) => habitat_to_statements(url, v, locale),
        ResourceDetail::Item(v) => item_to_statements(url, v, locale),
        ResourceDetail::Location(v) => location_to_statements(url, v, locale),
        ResourceDetail::Move(v) => move_to_statements(url, name, v, locale),
        ResourceDetail::MoveTarget(v) => move_target_to_statements(url, name, v, locale),
        ResourceDetail::Nature(v) => nature_to_statements(url, v, locale),
        ResourceDetail::PalParkArea(v) => pal_park_to_statements(url, v, locale),
        ResourceDetail::Pokedex(v) => pokedex_to_statements(url, v, locale),
        ResourceDetail::Pokemon(v) => pokemon_to_statements(url, v),
        ResourceDetail::PokemonForm(v) => form_to_statements(url, v, locale),
        ResourceDetail::PokemonType(v) => poke_type_to_statements(url, v, locale),
        ResourceDetail::Region(v) => region_to_statements(url, v, locale),
        ResourceDetail::Shape(v) => shape_to_statements(url, v, locale),
        ResourceDetail::Species(v) => species_to_statements(url, v, locale),
        ResourceDetail::Stat(v) => stat_to_statements(url, v, locale),
    }
}

/// The launch order of the coordinator's tasks, as a spec value.
pub open spec fn kind_order_spec() -> Seq<ResourceKind> {
    seq![
        ResourceKind::Berry,
        ResourceKind::BerryFlavor,
        ResourceKind::EvolutionChain,
        ResourceKind::EvolutionTrigger,
        ResourceKind::Generation,
        ResourceKind::Pokedex,
        ResourceKind::Item,
        ResourceKind::Location,
        ResourceKind::PalParkArea,
        ResourceKind::Region,
        ResourceKind::Move,
        ResourceKind::DamageClass,
        ResourceKind::MoveTarget,
        ResourceKind::Ability,
        ResourceKind::GrowthRate,
        ResourceKind::Nature,
        ResourceKind::Pokemon,
        ResourceKind::PokemonForm,
        ResourceKind::Habitat,
        ResourceKind::Shape,
        ResourceKind::Species,
        ResourceKind::Stat,
        ResourceKind::PokemonType,
    ]
}

/// The resource kinds in the order the coordinator launches them: the
/// full registry, each kind exactly once.
pub fn kind_order() -> (r: Vec<ResourceKind>)
    ensures
        r@ == kind_order_spec(),
{
    let mut v: Vec<ResourceKind> = Vec::new();
    v.push(ResourceKind::Berry);
    v.push(ResourceKind::BerryFlavor);
    v.push(ResourceKind::EvolutionChain);
    v.push(ResourceKind::EvolutionTrigger);
    v.push(ResourceKind::Generation);
    v.push(ResourceKind::Pokedex);
    v.push(ResourceKind::Item);
    v.push(ResourceKind::Location);
    v.push(ResourceKind::PalParkArea);
    v.push(ResourceKind::Region);
    v.push(ResourceKind::Move);
    v.push(ResourceKind::DamageClass);
    v.push(ResourceKind::MoveTarget);
    v.push(ResourceKind::Ability);
    v.push(ResourceKind::GrowthRate);
    v.push(ResourceKind::Nature);
    v.push(ResourceKind::Pokemon);
    v.push(ResourceKind::PokemonForm);
    v.push(ResourceKind::Habitat);
    v.push(ResourceKind::Shape);
    v.push(ResourceKind::Species);
    v.push(ResourceKind::Stat);
    v.push(ResourceKind::PokemonType);
    proof {
        assert(v@ =~= kind_order_spec());
    }
    v
}

} // verus!
