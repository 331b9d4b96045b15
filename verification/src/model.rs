//! The fetched-document model.
//!
//! Extractors are pure functions over these plain-value documents; the
//! surrounding binary converts what the REST client returns into them.
//! Only the fields the extractors read are modeled.  Cross-references
//! appear as their canonical URL strings, locale-qualified text as a
//! language tag beside the text.

use vstd::prelude::*;

verus! {

/// The mathematical value of an optional machine integer.
pub open spec fn opt_int_view(o: Option<i64>) -> Option<int> {
    match o {
        Some(v) => Some(v as int),
        None => None,
    }
}

/// A locale-qualified piece of text: a name, description or flavor text
/// together with its language tag.
pub struct Localized {
    pub locale: String,
    pub text: String,
}

/// The mathematical value of a locale-qualified text.
#[verifier::ext_equal]
pub struct LocalizedV {
    pub locale: Seq<char>,
    pub text: Seq<char>,
}

impl DeepView for Localized {
    type V = LocalizedV;

    open spec fn deep_view(&self) -> LocalizedV {
        LocalizedV { locale: self.locale@, text: self.text@ }
    }
}

/// A locale-qualified effect description: a long and a short text.
pub struct EffectEntry {
    pub locale: String,
    pub effect: String,
    pub short_effect: String,
}

/// The mathematical value of an effect description.
#[verifier::ext_equal]
pub struct EffectEntryV {
    pub locale: Seq<char>,
    pub effect: Seq<char>,
    pub short_effect: Seq<char>,
}

impl DeepView for EffectEntry {
    type V = EffectEntryV;

    open spec fn deep_view(&self) -> EffectEntryV {
        EffectEntryV {
            locale: self.locale@,
            effect: self.effect@,
            short_effect: self.short_effect@,
        }
    }
}

/// A per-game index of an entity, with the generation or version it
/// belongs to.
pub struct GameIndex {
    pub game_index: i64,
    pub url: String,
}

/// The mathematical value of a per-game index.
#[verifier::ext_equal]
pub struct GameIndexV {
    pub game_index: int,
    pub url: Seq<char>,
}

impl DeepView for GameIndex {
    type V = GameIndexV;

    open spec fn deep_view(&self) -> GameIndexV {
        GameIndexV { game_index: self.game_index as int, url: self.url@ }
    }
}

/// One flavor entry of a berry: the flavor's URL and its potency.
pub struct BerryFlavorEntry {
    pub flavor_url: String,
    pub potency: i64,
}

/// The mathematical value of a berry's flavor entry.
#[verifier::ext_equal]
pub struct BerryFlavorEntryV {
    pub flavor_url: Seq<char>,
    pub potency: int,
}

impl DeepView for BerryFlavorEntry {
    type V = BerryFlavorEntryV;

    open spec fn deep_view(&self) -> BerryFlavorEntryV {
        BerryFlavorEntryV { flavor_url: self.flavor_url@, potency: self.potency as int }
    }
}

/// A fetched evolution-trigger document.
pub struct Trigger {
    pub id: u64,
    pub name: String,
    pub names: Vec<Localized>,
    pub species_urls: Vec<String>,
}

/// The mathematical value of an evolution-trigger document.
#[verifier::ext_equal]
pub struct TriggerV {
    pub id: nat,
    pub name: Seq<char>,
    pub names: Seq<LocalizedV>,
    pub species_urls: Seq<Seq<char>>,
}

impl DeepView for Trigger {
    type V = TriggerV;

    open spec fn deep_view(&self) -> TriggerV {
        TriggerV {
            id: self.id as nat,
            name: self.name@,
            names: self.names.deep_view(),
            species_urls: self.species_urls.deep_view(),
        }
    }
}

/// A fetched habitat document.
pub struct Habitat {
    pub id: u64,
    pub name: String,
    pub names: Vec<Localized>,
    pub species_urls: Vec<String>,
}

/// The mathematical value of a habitat document.
#[verifier::ext_equal]
pub struct HabitatV {
    pub id: nat,
    pub name: Seq<char>,
    pub names: Seq<LocalizedV>,
    pub species_urls: Seq<Seq<char>>,
}

impl DeepView for Habitat {
    type V = HabitatV;

    open spec fn deep_view(&self) -> HabitatV {
        HabitatV {
            id: self.id as nat,
            name: self.name@,
            names: self.names.deep_view(),
            species_urls: self.species_urls.deep_view(),
        }
    }
}

/// A fetched region document.
pub struct Region {
    pub id: u64,
    pub name: String,
    pub names: Vec<Localized>,
    pub location_urls: Vec<String>,
}

/// The mathematical value of a region document.
#[verifier::ext_equal]
pub struct RegionV {
    pub id: nat,
    pub name: Seq<char>,
    pub names: Seq<LocalizedV>,
    pub location_urls: Seq<Seq<char>>,
}

impl DeepView for Region {
    type V = RegionV;

    open spec fn deep_view(&self) -> RegionV {
        RegionV {
            id: self.id as nat,
            name: self.name@,
            names: self.names.deep_view(),
            location_urls: self.location_urls.deep_view(),
        }
    }
}

/// A fetched shape document.
pub struct Shape {
    pub id: u64,
    pub name: String,
    pub awesome_names: Vec<Localized>,
    pub names: Vec<Localized>,
    pub species_urls: Vec<String>,
}

/// The mathematical value of a shape document.
#[verifier::ext_equal]
pub struct ShapeV {
    pub id: nat,
    pub name: Seq<char>,
    pub awesome_names: Seq<LocalizedV>,
    pub names: Seq<LocalizedV>,
    pub species_urls: Seq<Seq<char>>,
}

impl DeepView for Shape {
    type V = ShapeV;

    open spec fn deep_view(&self) -> ShapeV {
        ShapeV {
            id: self.id as nat,
            name: self.name@,
            awesome_names: self.awesome_names.deep_view(),
            names: self.names.deep_view(),
            species_urls: self.species_urls.deep_view(),
        }
    }
}

/// A fetched move-damage-class document.
pub struct DamageClass {
    pub id: u64,
    pub descriptions: Vec<Localized>,
}

/// The mathematical value of a move-damage-class document.
#[verifier::ext_equal]
pub struct DamageClassV {
    pub id: nat,
    pub descriptions: Seq<LocalizedV>,
}

impl DeepView for DamageClass {
    type V = DamageClassV;

    open spec fn deep_view(&self) -> DamageClassV {
        DamageClassV { id: self.id as nat, descriptions: self.descriptions.deep_view() }
    }
}

/// A fetched move-target document.
pub struct MoveTarget {
    pub descriptions: Vec<Localized>,
    pub move_urls: Vec<String>,
    pub names: Vec<Localized>,
}

/// The mathematical value of a move-target document.
#[verifier::ext_equal]
pub struct MoveTargetV {
    pub descriptions: Seq<LocalizedV>,
    pub move_urls: Seq<Seq<char>>,
    pub names: Seq<LocalizedV>,
}

impl DeepView for MoveTarget {
    type V = MoveTargetV;

    open spec fn deep_view(&self) -> MoveTargetV {
        MoveTargetV {
            descriptions: self.descriptions.deep_view(),
            move_urls: self.move_urls.deep_view(),
            names: self.names.deep_view(),
        }
    }
}

/// One berry entry of a berry-flavor document.
pub struct FlavorBerry {
    pub potency: i64,
    pub berry_url: String,
}

/// The mathematical value of a flavor's berry entry.
#[verifier::ext_equal]
pub struct FlavorBerryV {
    pub potency: int,
    pub berry_url: Seq<char>,
}

impl DeepView for FlavorBerry {
    type V = FlavorBerryV;

    open spec fn deep_view(&self) -> FlavorBerryV {
        FlavorBerryV { potency: self.potency as int, berry_url: self.berry_url@ }
    }
}

/// A fetched berry-flavor document.
pub struct BerryFlavor {
    pub id: u64,
    pub name: String,
    pub berries: Vec<FlavorBerry>,
    pub contest_type_url: String,
    pub names: Vec<Localized>,
}

/// The mathematical value of a berry-flavor document.
#[verifier::ext_equal]
pub struct BerryFlavorV {
    pub id: nat,
    pub name: Seq<char>,
    pub berries: Seq<FlavorBerryV>,
    pub contest_type_url: Seq<char>,
    pub names: Seq<LocalizedV>,
}

impl DeepView for BerryFlavor {
    type V = BerryFlavorV;

    open spec fn deep_view(&self) -> BerryFlavorV {
        BerryFlavorV {
            id: self.id as nat,
            name: self.name@,
            berries: self.berries.deep_view(),
            contest_type_url: self.contest_type_url@,
            names: self.names.deep_view(),
        }
    }
}

/// One encounter entry of a pal-park-area document.
pub struct ParkEncounter {
    pub base_score: i64,
    pub rate: i64,
    pub species_url: String,
}

/// The mathematical value of a pal-park encounter entry.
#[verifier::ext_equal]
pub struct ParkEncounterV {
    pub base_score: int,
    pub rate: int,
    pub species_url: Seq<char>,
}

impl DeepView for ParkEncounter {
    type V = ParkEncounterV;

    open spec fn deep_view(&self) -> ParkEncounterV {
        ParkEncounterV {
            base_score: self.base_score as int,
            rate: self.rate as int,
            species_url: self.species_url@,
        }
    }
}

/// A fetched pal-park-area document.
pub struct PalParkArea {
    pub id: u64,
    pub name: String,
    pub names: Vec<Localized>,
    pub encounters: Vec<ParkEncounter>,
}

/// The mathematical value of a pal-park-area document.
#[verifier::ext_equal]
pub struct PalParkAreaV {
    pub id: nat,
    pub name: Seq<char>,
    pub names: Seq<LocalizedV>,
    pub encounters: Seq<ParkEncounterV>,
}

impl DeepView for PalParkArea {
    type V = PalParkAreaV;

    open spec fn deep_view(&self) -> PalParkAreaV {
        PalParkAreaV {
            id: self.id as nat,
            name: self.name@,
            names: self.names.deep_view(),
            encounters: self.encounters.deep_view(),
        }
    }
}

/// One entry of a pokedex document.
pub struct PokedexEntry {
    pub entry_number: i64,
    pub species_url: String,
}

/// The mathematical value of a pokedex entry.
#[verifier::ext_equal]
pub struct PokedexEntryV {
    pub entry_number: int,
    pub species_url: Seq<char>,
}

impl DeepView for PokedexEntry {
    type V = PokedexEntryV;

    open spec fn deep_view(&self) -> PokedexEntryV {
        PokedexEntryV {
            entry_number: self.entry_number as int,
            species_url: self.species_url@,
        }
    }
}

/// A fetched pokedex document.
pub struct Pokedex {
    pub id: u64,
    pub name: String,
    pub descriptions: Vec<Localized>,
    pub names: Vec<Localized>,
    pub entries: Vec<PokedexEntry>,
    pub region_url: Option<String>,
    pub version_group_urls: Vec<String>,
}

/// The mathematical value of a pokedex document.
#[verifier::ext_equal]
pub struct PokedexV {
    pub id: nat,
    pub name: Seq<char>,
    pub descriptions: Seq<LocalizedV>,
    pub names: Seq<LocalizedV>,
    pub entries: Seq<PokedexEntryV>,
    pub region_url: Option<Seq<char>>,
    pub version_group_urls: Seq<Seq<char>>,
}

impl DeepView for Pokedex {
    type V = PokedexV;

    open spec fn deep_view(&self) -> PokedexV {
        PokedexV {
            id: self.id as nat,
            name: self.name@,
            descriptions: self.descriptions.deep_view(),
            names: self.names.deep_view(),
            entries: self.entries.deep_view(),
            region_url: self.region_url.deep_view(),
            version_group_urls: self.version_group_urls.deep_view(),
        }
    }
}

/// One experience level of a growth-rate document.
pub struct GrowthLevel {
    pub level: u64,
    pub experience: i64,
}

/// The mathematical value of an experience level.
#[verifier::ext_equal]
pub struct GrowthLevelV {
    pub level: nat,
    pub experience: int,
}

impl DeepView for GrowthLevel {
    type V = GrowthLevelV;

    open spec fn deep_view(&self) -> GrowthLevelV {
        GrowthLevelV { level: self.level as nat, experience: self.experience as int }
    }
}

/// A fetched growth-rate document.
pub struct GrowthRate {
    pub id: u64,
    pub name: String,
    pub formula: String,
    pub descriptions: Vec<Localized>,
    pub levels: Vec<GrowthLevel>,
    pub species_urls: Vec<String>,
}

/// The mathematical value of a growth-rate document.
#[verifier::ext_equal]
pub struct GrowthRateV {
    pub id: nat,
    pub name: Seq<char>,
    pub formula: Seq<char>,
    pub descriptions: Seq<LocalizedV>,
    pub levels: Seq<GrowthLevelV>,
    pub species_urls: Seq<Seq<char>>,
}

impl DeepView for GrowthRate {
    type V = GrowthRateV;

    open spec fn deep_view(&self) -> GrowthRateV {
        GrowthRateV {
            id: self.id as nat,
            name: self.name@,
            formula: self.formula@,
            descriptions: self.descriptions.deep_view(),
            levels: self.levels.deep_view(),
            species_urls: self.species_urls.deep_view(),
        }
    }
}

/// A fetched location document.
pub struct Location {
    pub id: u64,
    pub name: String,
    pub region_url: Option<String>,
    pub names: Vec<Localized>,
    pub game_indices: Vec<GameIndex>,
    pub area_urls: Vec<String>,
}

/// The mathematical value of a location document.
#[verifier::ext_equal]
pub struct LocationV {
    pub id: nat,
    pub name: Seq<char>,
    pub region_url: Option<Seq<char>>,
    pub names: Seq<LocalizedV>,
    pub game_indices: Seq<GameIndexV>,
    pub area_urls: Seq<Seq<char>>,
}

impl DeepView for Location {
    type V = LocationV;

    open spec fn deep_view(&self) -> LocationV {
        LocationV {
            id: self.id as nat,
            name: self.name@,
            region_url: self.region_url.deep_view(),
            names: self.names.deep_view(),
            game_indices: self.game_indices.deep_view(),
            area_urls: self.area_urls.deep_view(),
        }
    }
}

/// A fetched generation document.
pub struct Generation {
    pub id: u64,
    pub name: String,
    pub ability_urls: Vec<String>,
    pub names: Vec<Localized>,
    pub main_region_url: String,
    pub move_urls: Vec<String>,
    pub species_urls: Vec<String>,
    pub type_urls: Vec<String>,
    pub version_group_urls: Vec<String>,
}

/// The mathematical value of a generation document.
#[verifier::ext_equal]
pub struct GenerationV {
    pub id: nat,
    pub name: Seq<char>,
    pub ability_urls: Seq<Seq<char>>,
    pub names: Seq<LocalizedV>,
    pub main_region_url: Seq<char>,
    pub move_urls: Seq<Seq<char>>,
    pub species_urls: Seq<Seq<char>>,
    pub type_urls: Seq<Seq<char>>,
    pub version_group_urls: Seq<Seq<char>>,
}

impl DeepView for Generation {
    type V = GenerationV;

    open spec fn deep_view(&self) -> GenerationV {
        GenerationV {
            id: self.id as nat,
            name: self.name@,
            ability_urls: self.ability_urls.deep_view(),
            names: self.names.deep_view(),
            main_region_url: self.main_region_url@,
            move_urls: self.move_urls.deep_view(),
            species_urls: self.species_urls.deep_view(),
            type_urls: self.type_urls.deep_view(),
            version_group_urls: self.version_group_urls.deep_view(),
        }
    }
}

/// One battle-style preference of a nature document.
pub struct BattlePref {
    pub low_hp: i64,
    pub high_hp: i64,
    pub style_url: String,
}

/// The mathematical value of a battle-style preference.
#[verifier::ext_equal]
pub struct BattlePrefV {
    pub low_hp: int,
    pub high_hp: int,
    pub style_url: Seq<char>,
}

impl DeepView for BattlePref {
    type V = BattlePrefV;

    open spec fn deep_view(&self) -> BattlePrefV {
        BattlePrefV {
            low_hp: self.low_hp as int,
            high_hp: self.high_hp as int,
            style_url: self.style_url@,
        }
    }
}

/// One pokeathlon stat change of a nature document.
pub struct StatChangeEntry {
    pub max_change: i64,
    pub stat_url: String,
}

/// The mathematical value of a pokeathlon stat change.
#[verifier::ext_equal]
pub struct StatChangeEntryV {
    pub max_change: int,
    pub stat_url: Seq<char>,
}

impl DeepView for StatChangeEntry {
    type V = StatChangeEntryV;

    open spec fn deep_view(&self) -> StatChangeEntryV {
        StatChangeEntryV { max_change: self.max_change as int, stat_url: self.stat_url@ }
    }
}

/// A fetched nature document.
pub struct Nature {
    pub id: u64,
    pub name: String,
    pub decreased_stat_url: Option<String>,
    pub increased_stat_url: Option<String>,
    pub hates_flavor_url: Option<String>,
    pub likes_flavor_url: Option<String>,
    pub battle_prefs: Vec<BattlePref>,
    pub pokeathlon_changes: Vec<StatChangeEntry>,
    pub names: Vec<Localized>,
}

/// The mathematical value of a nature document.
#[verifier::ext_equal]
pub struct NatureV {
    pub id: nat,
    pub name: Seq<char>,
    pub decreased_stat_url: Option<Seq<char>>,
    pub increased_stat_url: Option<Seq<char>>,
    pub hates_flavor_url: Option<Seq<char>>,
    pub likes_flavor_url: Option<Seq<char>>,
    pub battle_prefs: Seq<BattlePrefV>,
    pub pokeathlon_changes: Seq<StatChangeEntryV>,
    pub names: Seq<LocalizedV>,
}

impl DeepView for Nature {
    type V = NatureV;

    open spec fn deep_view(&self) -> NatureV {
        NatureV {
            id: self.id as nat,
            name: self.name@,
            decreased_stat_url: self.decreased_stat_url.deep_view(),
            increased_stat_url: self.increased_stat_url.deep_view(),
            hates_flavor_url: self.hates_flavor_url.deep_view(),
            likes_flavor_url: self.likes_flavor_url.deep_view(),
            battle_prefs: self.battle_prefs.deep_view(),
            pokeathlon_changes: self.pokeathlon_changes.deep_view(),
            names: self.names.deep_view(),
        }
    }
}

/// A fetched ability document.
pub struct Ability {
    pub id: u64,
    pub name: String,
    pub generation_url: String,
    pub effect_entries: Vec<EffectEntry>,
    pub flavor_texts: Vec<Localized>,
    pub pokemon_urls: Vec<String>,
}

/// The mathematical value of an ability document.
#[verifier::ext_equal]
pub struct AbilityV {
    pub id: nat,
    pub name: Seq<char>,
    pub generation_url: Seq<char>,
    pub effect_entries: Seq<EffectEntryV>,
    pub flavor_texts: Seq<LocalizedV>,
    pub pokemon_urls: Seq<Seq<char>>,
}

impl DeepView for Ability {
    type V = AbilityV;

    open spec fn deep_view(&self) -> AbilityV {
        AbilityV {
            id: self.id as nat,
            name: self.name@,
            generation_url: self.generation_url@,
            effect_entries: self.effect_entries.deep_view(),
            flavor_texts: self.flavor_texts.deep_view(),
            pokemon_urls: self.pokemon_urls.deep_view(),
        }
    }
}

/// A fetched type document.
pub struct PokeType {
    pub id: u64,
    pub name: String,
    pub double_damage_from: Vec<String>,
    pub double_damage_to: Vec<String>,
    pub half_damage_from: Vec<String>,
    pub half_damage_to: Vec<String>,
    pub no_damage_from: Vec<String>,
    pub no_damage_to: Vec<String>,
    pub game_indices: Vec<GameIndex>,
    pub generation_url: String,
    pub names: Vec<Localized>,
    pub move_damage_class_url: Option<String>,
    pub pokemon_urls: Vec<String>,
    pub move_urls: Vec<String>,
}

/// The mathematical value of a type document.
#[verifier::ext_equal]
pub struct PokeTypeV {
    pub id: nat,
    pub name: Seq<char>,
    pub double_damage_from: Seq<Seq<char>>,
    pub double_damage_to: Seq<Seq<char>>,
    pub half_damage_from: Seq<Seq<char>>,
    pub half_damage_to: Seq<Seq<char>>,
    pub no_damage_from: Seq<Seq<char>>,
    pub no_damage_to: Seq<Seq<char>>,
    pub game_indices: Seq<GameIndexV>,
    pub generation_url: Seq<char>,
    pub names: Seq<LocalizedV>,
    pub move_damage_class_url: Option<Seq<char>>,
    pub pokemon_urls: Seq<Seq<char>>,
    pub move_urls: Seq<Seq<char>>,
}

impl DeepView for PokeType {
    type V = PokeTypeV;

    open spec fn deep_view(&self) -> PokeTypeV {
        PokeTypeV {
            id: self.id as nat,
            name: self.name@,
            double_damage_from: self.double_damage_from.deep_view(),
            double_damage_to: self.double_damage_to.deep_view(),
            half_damage_from: self.half_damage_from.deep_view(),
            half_damage_to: self.half_damage_to.deep_view(),
            no_damage_from: self.no_damage_from.deep_view(),
            no_damage_to: self.no_damage_to.deep_view(),
            game_indices: self.game_indices.deep_view(),
            generation_url: self.generation_url@,
            names: self.names.deep_view(),
            move_damage_class_url: self.move_damage_class_url.deep_view(),
            pokemon_urls: self.pokemon_urls.deep_view(),
            move_urls: self.move_urls.deep_view(),
        }
    }
}

/// A fetched form document.
pub struct Form {
    pub id: u64,
    pub name: String,
    pub order: i64,
    pub form_order: i64,
    pub form_name: String,
    pub is_battle_only: bool,
    pub is_default: bool,
    pub is_mega: bool,
    pub pokemon_url: String,
    pub type_urls: Vec<String>,
    pub back_default_sprite: Option<String>,
    pub front_default_sprite: Option<String>,
    pub back_shiny_sprite: Option<String>,
    pub front_shiny_sprite: Option<String>,
    pub back_shiny_female_sprite: Option<String>,
    pub front_shiny_female_sprite: Option<String>,
    pub back_female_sprite: Option<String>,
    pub front_female_sprite: Option<String>,
    pub version_group_url: String,
    pub names: Vec<Localized>,
    pub form_names: Vec<Localized>,
}

/// The mathematical value of a form document.
#[verifier::ext_equal]
pub struct FormV {
    pub id: nat,
    pub name: Seq<char>,
    pub order: int,
    pub form_order: int,
    pub form_name: Seq<char>,
    pub is_battle_only: bool,
    pub is_default: bool,
    pub is_mega: bool,
    pub pokemon_url: Seq<char>,
    pub type_urls: Seq<Seq<char>>,
    pub back_default_sprite: Option<Seq<char>>,
    pub front_default_sprite: Option<Seq<char>>,
    pub back_shiny_sprite: Option<Seq<char>>,
    pub front_shiny_sprite: Option<Seq<char>>,
    pub back_shiny_female_sprite: Option<Seq<char>>,
    pub front_shiny_female_sprite: Option<Seq<char>>,
    pub back_female_sprite: Option<Seq<char>>,
    pub front_female_sprite: Option<Seq<char>>,
    pub version_group_url: Seq<char>,
    pub names: Seq<LocalizedV>,
    pub form_names: Seq<LocalizedV>,
}

impl DeepView for Form {
    type V = FormV;

    open spec fn deep_view(&self) -> FormV {
        FormV {
            id: self.id as nat,
            name: self.name@,
            order: self.order as int,
            form_order: self.form_order as int,
            form_name: self.form_name@,
            is_battle_only: self.is_battle_only,
            is_default: self.is_default,
            is_mega: self.is_mega,
            pokemon_url: self.pokemon_url@,
            type_urls: self.type_urls.deep_view(),
            back_default_sprite: self.back_default_sprite.deep_view(),
            front_default_sprite: self.front_default_sprite.deep_view(),
            back_shiny_sprite: self.back_shiny_sprite.deep_view(),
            front_shiny_sprite: self.front_shiny_sprite.deep_view(),
            back_shiny_female_sprite: self.back_shiny_female_sprite.deep_view(),
            front_shiny_female_sprite: self.front_shiny_female_sprite.deep_view(),
            back_female_sprite: self.back_female_sprite.deep_view(),
            front_female_sprite: self.front_female_sprite.deep_view(),
            version_group_url: self.version_group_url@,
            names: self.names.deep_view(),
            form_names: self.form_names.deep_view(),
        }
    }
}

/// One move affecting a stat, with the change it applies.
pub struct MoveChange {
    pub change: i64,
    pub move_url: String,
}

/// The mathematical value of a stat-affecting move entry.
#[verifier::ext_equal]
pub struct MoveChangeV {
    pub change: int,
    pub move_url: Seq<char>,
}

impl DeepView for MoveChange {
    type V = MoveChangeV;

    open spec fn deep_view(&self) -> MoveChangeV {
        MoveChangeV { change: self.change as int, move_url: self.move_url@ }
    }
}

/// A fetched stat document.
pub struct Stat {
    pub id: u64,
    pub name: String,
    pub moves_decrease: Vec<MoveChange>,
    pub moves_increase: Vec<MoveChange>,
    pub natures_increase: Vec<String>,
    pub natures_decrease: Vec<String>,
    pub characteristic_urls: Vec<String>,
    pub game_index: i64,
    pub is_battle_only: bool,
    pub move_damage_class_url: Option<String>,
    pub names: Vec<Localized>,
}

/// The mathematical value of a stat document.
#[verifier::ext_equal]
pub struct StatV {
    pub id: nat,
    pub name: Seq<char>,
    pub moves_decrease: Seq<MoveChangeV>,
    pub moves_increase: Seq<MoveChangeV>,
    pub natures_increase: Seq<Seq<char>>,
    pub natures_decrease: Seq<Seq<char>>,
    pub characteristic_urls: Seq<Seq<char>>,
    pub game_index: int,
    pub is_battle_only: bool,
    pub move_damage_class_url: Option<Seq<char>>,
    pub names: Seq<LocalizedV>,
}

impl DeepView for Stat {
    type V = StatV;

    open spec fn deep_view(&self) -> StatV {
        StatV {
            id: self.id as nat,
            name: self.name@,
            moves_decrease: self.moves_decrease.deep_view(),
            moves_increase: self.moves_increase.deep_view(),
            natures_increase: self.natures_increase.deep_view(),
            natures_decrease: self.natures_decrease.deep_view(),
            characteristic_urls: self.characteristic_urls.deep_view(),
            game_index: self.game_index as int,
            is_battle_only: self.is_battle_only,
            move_damage_class_url: self.move_damage_class_url.deep_view(),
            names: self.names.deep_view(),
        }
    }
}

/// One version detail of an item held by a pokemon: the version and the
/// rarity there.
pub struct HeldVersionDetail {
    pub rarity: i64,
    pub version_url: String,
}

/// The mathematical value of a held-item version detail.
#[verifier::ext_equal]
pub struct HeldVersionDetailV {
    pub rarity: int,
    pub version_url: Seq<char>,
}

impl DeepView for HeldVersionDetail {
    type V = HeldVersionDetailV;

    open spec fn deep_view(&self) -> HeldVersionDetailV {
        HeldVersionDetailV { rarity: self.rarity as int, version_url: self.version_url@ }
    }
}

/// One pokemon holding an item, with per-version details.
pub struct HeldBy {
    pub pokemon_url: String,
    pub version_details: Vec<HeldVersionDetail>,
}

/// The mathematical value of a holding pokemon entry.
#[verifier::ext_equal]
pub struct HeldByV {
    pub pokemon_url: Seq<char>,
    pub version_details: Seq<HeldVersionDetailV>,
}

impl DeepView for HeldBy {
    type V = HeldByV;

    open spec fn deep_view(&self) -> HeldByV {
        HeldByV {
            pokemon_url: self.pokemon_url@,
            version_details: self.version_details.deep_view(),
        }
    }
}

/// A fetched item document.
pub struct Item {
    pub id: u64,
    pub name: String,
    pub cost: i64,
    pub fling_power: Option<i64>,
    pub fling_effect_url: Option<String>,
    pub attribute_urls: Vec<String>,
    pub category_url: String,
    pub effect_entries: Vec<EffectEntry>,
    pub flavor_texts: Vec<Localized>,
    pub game_indices: Vec<GameIndex>,
    pub names: Vec<Localized>,
    pub sprite_url: Option<String>,
    pub held_by: Vec<HeldBy>,
    pub baby_trigger_for_url: Option<String>,
}

/// The mathematical value of an item document.
#[verifier::ext_equal]
pub struct ItemV {
    pub id: nat,
    pub name: Seq<char>,
    pub cost: int,
    pub fling_power: Option<int>,
    pub fling_effect_url: Option<Seq<char>>,
    pub attribute_urls: Seq<Seq<char>>,
    pub category_url: Seq<char>,
    pub effect_entries: Seq<EffectEntryV>,
    pub flavor_texts: Seq<LocalizedV>,
    pub game_indices: Seq<GameIndexV>,
    pub names: Seq<LocalizedV>,
    pub sprite_url: Option<Seq<char>>,
    pub held_by: Seq<HeldByV>,
    pub baby_trigger_for_url: Option<Seq<char>>,
}

impl DeepView for Item {
    type V = ItemV;

    open spec fn deep_view(&self) -> ItemV {
        ItemV {
            id: self.id as nat,
            name: self.name@,
            cost: self.cost as int,
            fling_power: opt_int_view(self.fling_power),
            fling_effect_url: self.fling_effect_url.deep_view(),
            attribute_urls: self.attribute_urls.deep_view(),
            category_url: self.category_url@,
            effect_entries: self.effect_entries.deep_view(),
            flavor_texts: self.flavor_texts.deep_view(),
            game_indices: self.game_indices.deep_view(),
            names: self.names.deep_view(),
            sprite_url: self.sprite_url.deep_view(),
            held_by: self.held_by.deep_view(),
            baby_trigger_for_url: self.baby_trigger_for_url.deep_view(),
        }
    }
}

/// One locale-qualified flavor text of a move, with its version group.
pub struct MoveFlavor {
    pub locale: String,
    pub text: String,
    pub version_group_url: String,
}

/// The mathematical value of a move's flavor text.
#[verifier::ext_equal]
pub struct MoveFlavorV {
    pub locale: Seq<char>,
    pub text: Seq<char>,
    pub version_group_url: Seq<char>,
}

impl DeepView for MoveFlavor {
    type V = MoveFlavorV;

    open spec fn deep_view(&self) -> MoveFlavorV {
        MoveFlavorV {
            locale: self.locale@,
            text: self.text@,
            version_group_url: self.version_group_url@,
        }
    }
}

/// The metadata block of a move.
pub struct MoveMeta {
    pub ailment_name: String,
    pub category_name: String,
    pub ailment_chance: i64,
    pub drain: i64,
    pub healing: i64,
    pub crit_rate: i64,
    pub flinch_chance: i64,
    pub stat_chance: i64,
    pub min_hits: Option<i64>,
    pub max_hits: Option<i64>,
    pub min_turns: Option<i64>,
    pub max_turns: Option<i64>,
}

/// The mathematical value of a move's metadata block.
#[verifier::ext_equal]
pub struct MoveMetaV {
    pub ailment_name: Seq<char>,
    pub category_name: Seq<char>,
    pub ailment_chance: int,
    pub drain: int,
    pub healing: int,
    pub crit_rate: int,
    pub flinch_chance: int,
    pub stat_chance: int,
    pub min_hits: Option<int>,
    pub max_hits: Option<int>,
    pub min_turns: Option<int>,
    pub max_turns: Option<int>,
}

impl DeepView for MoveMeta {
    type V = MoveMetaV;

    open spec fn deep_view(&self) -> MoveMetaV {
        MoveMetaV {
            ailment_name: self.ailment_name@,
            category_name: self.category_name@,
            ailment_chance: self.ailment_chance as int,
            drain: self.drain as int,
            healing: self.healing as int,
            crit_rate: self.crit_rate as int,
            flinch_chance: self.flinch_chance as int,
            stat_chance: self.stat_chance as int,
            min_hits: opt_int_view(self.min_hits),
            max_hits: opt_int_view(self.max_hits),
            min_turns: opt_int_view(self.min_turns),
            max_turns: opt_int_view(self.max_turns),
        }
    }
}

/// One stat change applied by a move: the stat's URL and name, and the
/// change.
pub struct MoveStatChange {
    pub stat_url: String,
    pub stat_name: String,
    pub change: i64,
}

/// The mathematical value of a move's stat change.
#[verifier::ext_equal]
pub struct MoveStatChangeV {
    pub stat_url: Seq<char>,
    pub stat_name: Seq<char>,
    pub change: int,
}

impl DeepView for MoveStatChange {
    type V = MoveStatChangeV;

    open spec fn deep_view(&self) -> MoveStatChangeV {
        MoveStatChangeV {
            stat_url: self.stat_url@,
            stat_name: self.stat_name@,
            change: self.change as int,
        }
    }
}

/// A fetched move document.
pub struct Move {
    pub id: u64,
    pub accuracy: Option<i64>,
    pub effect_chance: Option<i64>,
    pub pp: Option<i64>,
    pub priority: i64,
    pub power: Option<i64>,
    pub damage_class_url: String,
    pub effect_entries: Vec<EffectEntry>,
    pub flavor_texts: Vec<MoveFlavor>,
    pub learned_by_urls: Vec<String>,
    pub generation_url: String,
    pub meta: Option<MoveMeta>,
    pub names: Vec<Localized>,
    pub stat_changes: Vec<MoveStatChange>,
    pub target_url: String,
    pub type_url: String,
}

/// The mathematical value of a move document.
#[verifier::ext_equal]
pub struct MoveV {
    pub id: nat,
    pub accuracy: Option<int>,
    pub effect_chance: Option<int>,
    pub pp: Option<int>,
    pub priority: int,
    pub power: Option<int>,
    pub damage_class_url: Seq<char>,
    pub effect_entries: Seq<EffectEntryV>,
    pub flavor_texts: Seq<MoveFlavorV>,
    pub learned_by_urls: Seq<Seq<char>>,
    pub generation_url: Seq<char>,
    pub meta: Option<MoveMetaV>,
    pub names: Seq<LocalizedV>,
    pub stat_changes: Seq<MoveStatChangeV>,
    pub target_url: Seq<char>,
    pub type_url: Seq<char>,
}

impl DeepView for Move {
    type V = MoveV;

    open spec fn deep_view(&self) -> MoveV {
        MoveV {
            id: self.id as nat,
            accuracy: opt_int_view(self.accuracy),
            effect_chance: opt_int_view(self.effect_chance),
            pp: opt_int_view(self.pp),
            priority: self.priority as int,
            power: opt_int_view(self.power),
            damage_class_url: self.damage_class_url@,
            effect_entries: self.effect_entries.deep_view(),
            flavor_texts: self.flavor_texts.deep_view(),
            learned_by_urls: self.learned_by_urls.deep_view(),
            generation_url: self.generation_url@,
            meta: self.meta.deep_view(),
            names: self.names.deep_view(),
            stat_changes: self.stat_changes.deep_view(),
            target_url: self.target_url@,
            type_url: self.type_url@,
        }
    }
}

/// One evolution detail of a chain link.
pub struct EvolutionDetail {
    pub item_url: Option<String>,
    pub trigger_url: String,
    pub gender: Option<i64>,
    pub held_item_url: Option<String>,
    pub known_move_url: Option<String>,
    pub known_move_type_url: Option<String>,
    pub location_url: Option<String>,
    pub min_level: Option<i64>,
    pub min_happiness: Option<i64>,
    pub min_beauty: Option<i64>,
    pub min_affection: Option<i64>,
    pub needs_overworld_rain: bool,
    pub party_species_url: Option<String>,
    pub party_type_url: Option<String>,
    pub relative_physical_stats: Option<i64>,
    pub time_of_day: String,
    pub trade_species_url: Option<String>,
    pub turn_upside_down: bool,
}

/// The mathematical value of an evolution detail.
#[verifier::ext_equal]
pub struct EvolutionDetailV {
    pub item_url: Option<Seq<char>>,
    pub trigger_url: Seq<char>,
    pub gender: Option<int>,
    pub held_item_url: Option<Seq<char>>,
    pub known_move_url: Option<Seq<char>>,
    pub known_move_type_url: Option<Seq<char>>,
    pub location_url: Option<Seq<char>>,
    pub min_level: Option<int>,
    pub min_happiness: Option<int>,
    pub min_beauty: Option<int>,
    pub min_affection: Option<int>,
    pub needs_overworld_rain: bool,
    pub party_species_url: Option<Seq<char>>,
    pub party_type_url: Option<Seq<char>>,
    pub relative_physical_stats: Option<int>,
    pub time_of_day: Seq<char>,
    pub trade_species_url: Option<Seq<char>>,
    pub turn_upside_down: bool,
}

impl DeepView for EvolutionDetail {
    type V = EvolutionDetailV;

    open spec fn deep_view(&self) -> EvolutionDetailV {
        EvolutionDetailV {
            item_url: self.item_url.deep_view(),
            trigger_url: self.trigger_url@,
            gender: opt_int_view(self.gender),
            held_item_url: self.held_item_url.deep_view(),
            known_move_url: self.known_move_url.deep_view(),
            known_move_type_url: self.known_move_type_url.deep_view(),
            location_url: self.location_url.deep_view(),
            min_level: opt_int_view(self.min_level),
            min_happiness: opt_int_view(self.min_happiness),
            min_beauty: opt_int_view(self.min_beauty),
            min_affection: opt_int_view(self.min_affection),
            needs_overworld_rain: self.needs_overworld_rain,
            party_species_url: self.party_species_url.deep_view(),
            party_type_url: self.party_type_url.deep_view(),
            relative_physical_stats: opt_int_view(self.relative_physical_stats),
            time_of_day: self.time_of_day@,
            trade_species_url: self.trade_species_url.deep_view(),
            turn_upside_down: self.turn_upside_down,
        }
    }
}

/// One link of an evolution chain: the species at this stage and how it
/// is reached.
pub struct ChainLink {
    pub is_baby: bool,
    pub species_url: String,
    pub details: Vec<EvolutionDetail>,
}

/// The mathematical value of a chain link.
#[verifier::ext_equal]
pub struct ChainLinkV {
    pub is_baby: bool,
    pub species_url: Seq<char>,
    pub details: Seq<EvolutionDetailV>,
}

impl DeepView for ChainLink {
    type V = ChainLinkV;

    open spec fn deep_view(&self) -> ChainLinkV {
        ChainLinkV {
            is_baby: self.is_baby,
            species_url: self.species_url@,
            details: self.details.deep_view(),
        }
    }
}

/// A fetched evolution-chain document, its root link and first
/// evolutions flattened into one list.
pub struct EvolutionChain {
    pub id: u64,
    pub baby_trigger_item_url: Option<String>,
    pub links: Vec<ChainLink>,
}

/// The mathematical value of an evolution-chain document.
#[verifier::ext_equal]
pub struct EvolutionChainV {
    pub id: nat,
    pub baby_trigger_item_url: Option<Seq<char>>,
    pub links: Seq<ChainLinkV>,
}

impl DeepView for EvolutionChain {
    type V = EvolutionChainV;

    open spec fn deep_view(&self) -> EvolutionChainV {
        EvolutionChainV {
            id: self.id as nat,
            baby_trigger_item_url: self.baby_trigger_item_url.deep_view(),
            links: self.links.deep_view(),
        }
    }
}

/// One pokedex number of a species.
pub struct PokedexNumber {
    pub entry_number: i64,
    pub pokedex_url: String,
}

/// The mathematical value of a pokedex number.
#[verifier::ext_equal]
pub struct PokedexNumberV {
    pub entry_number: int,
    pub pokedex_url: Seq<char>,
}

impl DeepView for PokedexNumber {
    type V = PokedexNumberV;

    open spec fn deep_view(&self) -> PokedexNumberV {
        PokedexNumberV {
            entry_number: self.entry_number as int,
            pokedex_url: self.pokedex_url@,
        }
    }
}

/// One pal-park encounter of a species.
pub struct SpeciesPark {
    pub base_score: i64,
    pub rate: i64,
    pub area_url: String,
}

/// The mathematical value of a species' pal-park encounter.
#[verifier::ext_equal]
pub struct SpeciesParkV {
    pub base_score: int,
    pub rate: int,
    pub area_url: Seq<char>,
}

impl DeepView for SpeciesPark {
    type V = SpeciesParkV;

    open spec fn deep_view(&self) -> SpeciesParkV {
        SpeciesParkV {
            base_score: self.base_score as int,
            rate: self.rate as int,
            area_url: self.area_url@,
        }
    }
}

/// One locale-qualified flavor text of a species, with an optional
/// version.
pub struct SpeciesFlavor {
    pub locale: String,
    pub text: String,
    pub version_url: Option<String>,
}

/// The mathematical value of a species' flavor text.
#[verifier::ext_equal]
pub struct SpeciesFlavorV {
    pub locale: Seq<char>,
    pub text: Seq<char>,
    pub version_url: Option<Seq<char>>,
}

impl DeepView for SpeciesFlavor {
    type V = SpeciesFlavorV;

    open spec fn deep_view(&self) -> SpeciesFlavorV {
        SpeciesFlavorV {
            locale: self.locale@,
            text: self.text@,
            version_url: self.version_url.deep_view(),
        }
    }
}

/// One variety of a species.
pub struct Variety {
    pub is_default: bool,
    pub pokemon_url: String,
}

/// The mathematical value of a variety.
#[verifier::ext_equal]
pub struct VarietyV {
    pub is_default: bool,
    pub pokemon_url: Seq<char>,
}

impl DeepView for Variety {
    type V = VarietyV;

    open spec fn deep_view(&self) -> VarietyV {
        VarietyV { is_default: self.is_default, pokemon_url: self.pokemon_url@ }
    }
}

/// A fetched species document.
pub struct Species {
    pub id: u64,
    pub name: String,
    pub order: i64,
    pub gender_rate: i64,
    pub capture_rate: i64,
    pub base_happiness: Option<i64>,
    pub is_baby: bool,
    pub is_legendary: bool,
    pub is_mythical: bool,
    pub hatch_counter: Option<i64>,
    pub has_gender_differences: bool,
    pub forms_switchable: bool,
    pub growth_rate_url: String,
    pub pokedex_numbers: Vec<PokedexNumber>,
    pub egg_group_urls: Vec<String>,
    pub color_url: String,
    pub shape_url: Option<String>,
    pub evolves_from_url: Option<String>,
    pub evolution_chain_url: Option<String>,
    pub habitat_url: Option<String>,
    pub generation_url: String,
    pub names: Vec<Localized>,
    pub pal_park: Vec<SpeciesPark>,
    pub flavor_texts: Vec<SpeciesFlavor>,
    pub form_descriptions: Vec<Localized>,
    pub genera: Vec<Localized>,
    pub varieties: Vec<Variety>,
}

/// The mathematical value of a species document.
#[verifier::ext_equal]
pub struct SpeciesV {
    pub id: nat,
    pub name: Seq<char>,
    pub order: int,
    pub gender_rate: int,
    pub capture_rate: int,
    pub base_happiness: Option<int>,
    pub is_baby: bool,
    pub is_legendary: bool,
    pub is_mythical: bool,
    pub hatch_counter: Option<int>,
    pub has_gender_differences: bool,
    pub forms_switchable: bool,
    pub growth_rate_url: Seq<char>,
    pub pokedex_numbers: Seq<PokedexNumberV>,
    pub egg_group_urls: Seq<Seq<char>>,
    pub color_url: Seq<char>,
    pub shape_url: Option<Seq<char>>,
    pub evolves_from_url: Option<Seq<char>>,
    pub evolution_chain_url: Option<Seq<char>>,
    pub habitat_url: Option<Seq<char>>,
    pub generation_url: Seq<char>,
    pub names: Seq<LocalizedV>,
    pub pal_park: Seq<SpeciesParkV>,
    pub flavor_texts: Seq<SpeciesFlavorV>,
    pub form_descriptions: Seq<LocalizedV>,
    pub genera: Seq<LocalizedV>,
    pub varieties: Seq<VarietyV>,
}

impl DeepView for Species {
    type V = SpeciesV;

    open spec fn deep_view(&self) -> SpeciesV {
        SpeciesV {
            id: self.id as nat,
            name: self.name@,
            order: self.order as int,
            gender_rate: self.gender_rate as int,
            capture_rate: self.capture_rate as int,
            base_happiness: opt_int_view(self.base_happiness),
            is_baby: self.is_baby,
            is_legendary: self.is_legendary,
            is_mythical: self.is_mythical,
            hatch_counter: opt_int_view(self.hatch_counter),
            has_gender_differences: self.has_gender_differences,
            forms_switchable: self.forms_switchable,
            growth_rate_url: self.growth_rate_url@,
            pokedex_numbers: self.pokedex_numbers.deep_view(),
            egg_group_urls: self.egg_group_urls.deep_view(),
            color_url: self.color_url@,
            shape_url: self.shape_url.deep_view(),
            evolves_from_url: self.evolves_from_url.deep_view(),
            evolution_chain_url: self.evolution_chain_url.deep_view(),
            habitat_url: self.habitat_url.deep_view(),
            generation_url: self.generation_url@,
            names: self.names.deep_view(),
            pal_park: self.pal_park.deep_view(),
            flavor_texts: self.flavor_texts.deep_view(),
            form_descriptions: self.form_descriptions.deep_view(),
            genera: self.genera.deep_view(),
            varieties: self.varieties.deep_view(),
        }
    }
}

/// One version-group detail of a pokemon's move.
pub struct MoveVersionGroup {
    pub learn_method_url: String,
    pub version_group_url: String,
    pub level_learned_at: i64,
}

/// The mathematical value of a move's version-group detail.
#[verifier::ext_equal]
pub struct MoveVersionGroupV {
    pub learn_method_url: Seq<char>,
    pub version_group_url: Seq<char>,
    pub level_learned_at: int,
}

impl DeepView for MoveVersionGroup {
    type V = MoveVersionGroupV;

    open spec fn deep_view(&self) -> MoveVersionGroupV {
        MoveVersionGroupV {
            learn_method_url: self.learn_method_url@,
            version_group_url: self.version_group_url@,
            level_learned_at: self.level_learned_at as int,
        }
    }
}

/// One move of a pokemon, with its version-group details.
pub struct PokemonMove {
    pub move_url: String,
    pub version_details: Vec<MoveVersionGroup>,
}

/// The mathematical value of a pokemon's move.
#[verifier::ext_equal]
pub struct PokemonMoveV {
    pub move_url: Seq<char>,
    pub version_details: Seq<MoveVersionGroupV>,
}

impl DeepView for PokemonMove {
    type V = PokemonMoveV;

    open spec fn deep_view(&self) -> PokemonMoveV {
        PokemonMoveV {
            move_url: self.move_url@,
            version_details: self.version_details.deep_view(),
        }
    }
}

/// One item a pokemon may hold, with per-version details.
pub struct PokemonHeld {
    pub item_url: String,
    pub version_details: Vec<HeldVersionDetail>,
}

/// The mathematical value of a pokemon's held item.
#[verifier::ext_equal]
pub struct PokemonHeldV {
    pub item_url: Seq<char>,
    pub version_details: Seq<HeldVersionDetailV>,
}

impl DeepView for PokemonHeld {
    type V = PokemonHeldV;

    open spec fn deep_view(&self) -> PokemonHeldV {
        PokemonHeldV {
            item_url: self.item_url@,
            version_details: self.version_details.deep_view(),
        }
    }
}

/// One encounter occasion inside a version detail of a location-area
/// encounter.
pub struct EncounterCase {
    pub method_url: String,
    pub chance: i64,
    pub min_level: i64,
    pub max_level: i64,
    pub condition_urls: Vec<String>,
}

/// The mathematical value of an encounter occasion.
#[verifier::ext_equal]
pub struct EncounterCaseV {
    pub method_url: Seq<char>,
    pub chance: int,
    pub min_level: int,
    pub max_level: int,
    pub condition_urls: Seq<Seq<char>>,
}

impl DeepView for EncounterCase {
    type V = EncounterCaseV;

    open spec fn deep_view(&self) -> EncounterCaseV {
        EncounterCaseV {
            method_url: self.method_url@,
            chance: self.chance as int,
            min_level: self.min_level as int,
            max_level: self.max_level as int,
            condition_urls: self.condition_urls.deep_view(),
        }
    }
}

/// One version detail of a location-area encounter.
pub struct EncounterVersion {
    pub version_url: String,
    pub max_chance: i64,
    pub cases: Vec<EncounterCase>,
}

/// The mathematical value of an encounter's version detail.
#[verifier::ext_equal]
pub struct EncounterVersionV {
    pub version_url: Seq<char>,
    pub max_chance: int,
    pub cases: Seq<EncounterCaseV>,
}

impl DeepView for EncounterVersion {
    type V = EncounterVersionV;

    open spec fn deep_view(&self) -> EncounterVersionV {
        EncounterVersionV {
            version_url: self.version_url@,
            max_chance: self.max_chance as int,
            cases: self.cases.deep_view(),
        }
    }
}

/// One location-area encounter of a pokemon.
pub struct Encounter {
    pub location_area_url: String,
    pub version_details: Vec<EncounterVersion>,
}

/// The mathematical value of a location-area encounter.
#[verifier::ext_equal]
pub struct EncounterV {
    pub location_area_url: Seq<char>,
    pub version_details: Seq<EncounterVersionV>,
}

impl DeepView for Encounter {
    type V = EncounterV;

    open spec fn deep_view(&self) -> EncounterV {
        EncounterV {
            location_area_url: self.location_area_url@,
            version_details: self.version_details.deep_view(),
        }
    }
}

/// One past typing of a pokemon.
pub struct PastType {
    pub generation_url: String,
    pub type_urls: Vec<String>,
}

/// The mathematical value of a past typing.
#[verifier::ext_equal]
pub struct PastTypeV {
    pub generation_url: Seq<char>,
    pub type_urls: Seq<Seq<char>>,
}

impl DeepView for PastType {
    type V = PastTypeV;

    open spec fn deep_view(&self) -> PastTypeV {
        PastTypeV {
            generation_url: self.generation_url@,
            type_urls: self.type_urls.deep_view(),
        }
    }
}

/// One base stat of a pokemon.
pub struct PokemonStat {
    pub stat_url: String,
    pub base_stat: i64,
    pub effort: i64,
}

/// The mathematical value of a pokemon's base stat.
#[verifier::ext_equal]
pub struct PokemonStatV {
    pub stat_url: Seq<char>,
    pub base_stat: int,
    pub effort: int,
}

impl DeepView for PokemonStat {
    type V = PokemonStatV;

    open spec fn deep_view(&self) -> PokemonStatV {
        PokemonStatV {
            stat_url: self.stat_url@,
            base_stat: self.base_stat as int,
            effort: self.effort as int,
        }
    }
}

/// A fetched pokemon document, with the location-area encounters that a
/// second fetch nested in its extraction supplies.
pub struct Pokemon {
    pub id: u64,
    pub name: String,
    pub base_experience: Option<i64>,
    pub height: i64,
    pub order: i64,
    pub weight: i64,
    pub type_urls: Vec<String>,
    pub ability_urls: Vec<String>,
    pub moves: Vec<PokemonMove>,
    pub form_urls: Vec<String>,
    pub game_indices: Vec<GameIndex>,
    pub held_items: Vec<PokemonHeld>,
    pub location_area_encounters_url: String,
    pub encounters: Vec<Encounter>,
    pub past_types: Vec<PastType>,
    pub front_default_sprite: Option<String>,
    pub back_default_sprite: Option<String>,
    pub front_shiny_sprite: Option<String>,
    pub back_shiny_sprite: Option<String>,
    pub front_female_sprite: Option<String>,
    pub back_female_sprite: Option<String>,
    pub front_shiny_female_sprite: Option<String>,
    pub back_shiny_female_sprite: Option<String>,
    pub species_url: String,
    pub stats: Vec<PokemonStat>,
}

/// The mathematical value of a pokemon document.
#[verifier::ext_equal]
pub struct PokemonV {
    pub id: nat,
    pub name: Seq<char>,
    pub base_experience: Option<int>,
    pub height: int,
    pub order: int,
    pub weight: int,
    pub type_urls: Seq<Seq<char>>,
    pub ability_urls: Seq<Seq<char>>,
    pub moves: Seq<PokemonMoveV>,
    pub form_urls: Seq<Seq<char>>,
    pub game_indices: Seq<GameIndexV>,
    pub held_items: Seq<PokemonHeldV>,
    pub location_area_encounters_url: Seq<char>,
    pub encounters: Seq<EncounterV>,
    pub past_types: Seq<PastTypeV>,
    pub front_default_sprite: Option<Seq<char>>,
    pub back_default_sprite: Option<Seq<char>>,
    pub front_shiny_sprite: Option<Seq<char>>,
    pub back_shiny_sprite: Option<Seq<char>>,
    pub front_female_sprite: Option<Seq<char>>,
    pub back_female_sprite: Option<Seq<char>>,
    pub front_shiny_female_sprite: Option<Seq<char>>,
    pub back_shiny_female_sprite: Option<Seq<char>>,
    pub species_url: Seq<char>,
    pub stats: Seq<PokemonStatV>,
}

impl DeepView for Pokemon {
    type V = PokemonV;

    open spec fn deep_view(&self) -> PokemonV {
        PokemonV {
            id: self.id as nat,
            name: self.name@,
            base_experience: opt_int_view(self.base_experience),
            height: self.height as int,
            order: self.order as int,
            weight: self.weight as int,
            type_urls: self.type_urls.deep_view(),
            ability_urls: self.ability_urls.deep_view(),
            moves: self.moves.deep_view(),
            form_urls: self.form_urls.deep_view(),
            game_indices: self.game_indices.deep_view(),
            held_items: self.held_items.deep_view(),
            location_area_encounters_url: self.location_area_encounters_url@,
            encounters: self.encounters.deep_view(),
            past_types: self.past_types.deep_view(),
            front_default_sprite: self.front_default_sprite.deep_view(),
            back_default_sprite: self.back_default_sprite.deep_view(),
            front_shiny_sprite: self.front_shiny_sprite.deep_view(),
            back_shiny_sprite: self.back_shiny_sprite.deep_view(),
            front_female_sprite: self.front_female_sprite.deep_view(),
            back_female_sprite: self.back_female_sprite.deep_view(),
            front_shiny_female_sprite: self.front_shiny_female_sprite.deep_view(),
            back_shiny_female_sprite: self.back_shiny_female_sprite.deep_view(),
            species_url: self.species_url@,
            stats: self.stats.deep_view(),
        }
    }
}

/// A fetched berry document.
pub struct Berry {
    pub id: u64,
    pub name: String,
    pub growth_time: i64,
    pub max_harvest: i64,
    pub natural_gift_power: i64,
    pub size: i64,
    pub smoothness: i64,
    pub soil_dryness: i64,
    pub firmness_url: String,
    pub flavors: Vec<BerryFlavorEntry>,
    pub item_url: String,
    pub natural_gift_type_url: String,
}

/// The mathematical value of a berry document.
#[verifier::ext_equal]
pub struct BerryV {
    pub id: nat,
    pub name: Seq<char>,
    pub growth_time: int,
    pub max_harvest: int,
    pub natural_gift_power: int,
    pub size: int,
    pub smoothness: int,
    pub soil_dryness: int,
    pub firmness_url: Seq<char>,
    pub flavors: Seq<BerryFlavorEntryV>,
    pub item_url: Seq<char>,
    pub natural_gift_type_url: Seq<char>,
}

impl DeepView for Berry {
    type V = BerryV;

    open spec fn deep_view(&self) -> BerryV {
        BerryV {
            id: self.id as nat,
            name: self.name@,
            growth_time: self.growth_time as int,
            max_harvest: self.max_harvest as int,
            natural_gift_power: self.natural_gift_power as int,
            size: self.size as int,
            smoothness: self.smoothness as int,
            soil_dryness: self.soil_dryness as int,
            firmness_url: self.firmness_url@,
            flavors: self.flavors.deep_view(),
            item_url: self.item_url@,
            natural_gift_type_url: self.natural_gift_type_url@,
        }
    }
}

} // verus!
