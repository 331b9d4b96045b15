//! The per-kind extractors on concrete documents.

use pokemon2rdf::encode::encode_statement;
use pokemon2rdf::error::PipelineError;
use pokemon2rdf::kinds::berries::berry_to_statements;
use pokemon2rdf::kinds::move_target::move_target_to_statements;
use pokemon2rdf::kinds::poke_types::poke_type_to_statements;
use pokemon2rdf::kinds::pokemon::pokemon_to_statements;
use pokemon2rdf::kinds::triggers::trigger_to_statements;
use pokemon2rdf::model::{Berry, BerryFlavorEntry, Localized, MoveTarget, PokeType, Pokemon,
    Trigger};

fn text(locale: &str, t: &str) -> Localized {
    Localized { locale: String::from(locale), text: String::from(t) }
}

fn sample_berry() -> Berry {
    Berry {
        id: 1,
        name: String::from("cheri"),
        growth_time: 3,
        max_harvest: 5,
        natural_gift_power: 60,
        size: 20,
        smoothness: 25,
        soil_dryness: 15,
        firmness_url: String::from("https://pokeapi.co/api/v2/berry-firmness/2/"),
        flavors: vec![
            BerryFlavorEntry {
                flavor_url: String::from("https://pokeapi.co/api/v2/berry-flavor/1/"),
                potency: 10,
            },
            BerryFlavorEntry {
                flavor_url: String::from("https://pokeapi.co/api/v2/berry-flavor/2/"),
                potency: 0,
            },
        ],
        item_url: String::from("https://pokeapi.co/api/v2/item/126/"),
        natural_gift_type_url: String::from("https://pokeapi.co/api/v2/type/10/"),
    }
}

fn empty_pokemon() -> Pokemon {
    Pokemon {
        id: 10,
        name: String::from("caterpie"),
        base_experience: None,
        height: 3,
        order: 14,
        weight: 29,
        type_urls: vec![],
        ability_urls: vec![],
        moves: vec![],
        form_urls: vec![],
        game_indices: vec![],
        held_items: vec![],
        location_area_encounters_url: String::from(
            "https://pokeapi.co/api/v2/pokemon/10/encounters",
        ),
        encounters: vec![],
        past_types: vec![],
        front_default_sprite: None,
        back_default_sprite: None,
        front_shiny_sprite: None,
        back_shiny_sprite: None,
        front_female_sprite: None,
        back_female_sprite: None,
        front_shiny_female_sprite: None,
        back_shiny_female_sprite: None,
        species_url: String::from("https://pokeapi.co/api/v2/pokemon-species/10/"),
        stats: vec![],
    }
}

#[test]
fn berry_full_statement_set() {
    let url = "https://pokeapi.co/api/v2/berry/1/";
    let stmts = berry_to_statements(url, &sample_berry()).expect("valid berry");
    let lines: Vec<String> = stmts.iter().map(encode_statement).collect();
    let expected = vec![
        "<https://pokeapi.co/api/v2/berry/1/> <http://www.w3.org/1999/02/22-rdf-syntax-ns#type> <http://purl.org/pokemon/ontology#Berry> .",
        "<https://pokeapi.co/api/v2/berry/1/> <https://schema.org/identifier> \"1\"^^<http://www.w3.org/2001/XMLSchema#integer> .",
        "<https://pokeapi.co/api/v2/berry/1/> <https://schema.org/name> \"cheri\" .",
        "<https://pokeapi.co/api/v2/berry/1/> <http://purl.org/pokemon/ontology#growthTime> \"3\"^^<http://www.w3.org/2001/XMLSchema#integer> .",
        "<https://pokeapi.co/api/v2/berry/1/> <http://purl.org/pokemon/ontology#maxHarvest> \"5\"^^<http://www.w3.org/2001/XMLSchema#integer> .",
        "<https://pokeapi.co/api/v2/berry/1/> <http://purl.org/pokemon/ontology#naturalGiftPower> \"60\"^^<http://www.w3.org/2001/XMLSchema#integer> .",
        "<https://pokeapi.co/api/v2/berry/1/> <http://purl.org/pokemon/ontology#size> \"20\"^^<http://www.w3.org/2001/XMLSchema#integer> .",
        "<https://pokeapi.co/api/v2/berry/1/> <http://purl.org/pokemon/ontology#smoothness> \"25\"^^<http://www.w3.org/2001/XMLSchema#integer> .",
        "<https://pokeapi.co/api/v2/berry/1/> <http://purl.org/pokemon/ontology#soilDryness> \"15\"^^<http://www.w3.org/2001/XMLSchema#integer> .",
        "<https://pokeapi.co/api/v2/berry/1/> <http://purl.org/pokemon/ontology#firmness> <https://pokeapi.co/api/v2/berry-firmness/2/> .",
        "<https://pokeapi.co/api/v2/berry/1/> <http://purl.org/pokemon/ontology#hasFlavor> _:berry1_flavor0 .",
        "_:berry1_flavor0 <http://purl.org/pokemon/ontology#flavor> <https://pokeapi.co/api/v2/berry-flavor/1/> .",
        "_:berry1_flavor0 <http://purl.org/pokemon/ontology#potency> \"10\"^^<http://www.w3.org/2001/XMLSchema#integer> .",
        "<https://pokeapi.co/api/v2/berry/1/> <http://purl.org/pokemon/ontology#hasFlavor> _:berry1_flavor1 .",
        "_:berry1_flavor1 <http://purl.org/pokemon/ontology#flavor> <https://pokeapi.co/api/v2/berry-flavor/2/> .",
        "_:berry1_flavor1 <http://purl.org/pokemon/ontology#potency> \"0\"^^<http://www.w3.org/2001/XMLSchema#integer> .",
        "<https://pokeapi.co/api/v2/berry/1/> <http://purl.org/pokemon/ontology#item> <https://pokeapi.co/api/v2/item/126/> .",
        "<https://pokeapi.co/api/v2/berry/1/> <http://purl.org/pokemon/ontology#naturalGiftType> <https://pokeapi.co/api/v2/type/10/> .",
    ];
    assert_eq!(lines, expected);
}

#[test]
fn berry_flavor_subjects_are_distinct() {
    let url = "https://pokeapi.co/api/v2/berry/1/";
    let stmts = berry_to_statements(url, &sample_berry()).expect("valid berry");
    let lines: Vec<String> = stmts.iter().map(encode_statement).collect();
    let first: Vec<&String> = lines.iter().filter(|l| l.starts_with("_:berry1_flavor0 ")).collect();
    let second: Vec<&String> = lines.iter().filter(|l| l.starts_with("_:berry1_flavor1 ")).collect();
    assert_eq!(first.len(), 2);
    assert_eq!(second.len(), 2);
}

#[test]
fn berry_invalid_cross_reference_is_fatal() {
    let mut berry = sample_berry();
    berry.flavors[1].flavor_url = String::from("no scheme here");
    let r = berry_to_statements("https://pokeapi.co/api/v2/berry/1/", &berry);
    match r {
        Err(PipelineError::InvalidIdentity(url)) => assert_eq!(url, "no scheme here"),
        _ => panic!("expected the malformed URL to be fatal"),
    }
}

#[test]
fn absent_optional_field_emits_nothing() {
    let p = empty_pokemon();
    let stmts = pokemon_to_statements("https://pokeapi.co/api/v2/pokemon/10/", &p)
        .expect("valid pokemon");
    let lines: Vec<String> = stmts.iter().map(encode_statement).collect();
    let base: Vec<&String> = lines.iter().filter(|l| l.contains("#baseExperience>")).collect();
    assert_eq!(base.len(), 0);
}

#[test]
fn present_optional_field_emits_exactly_once() {
    let mut p = empty_pokemon();
    p.base_experience = Some(39);
    let stmts = pokemon_to_statements("https://pokeapi.co/api/v2/pokemon/10/", &p)
        .expect("valid pokemon");
    let lines: Vec<String> = stmts.iter().map(encode_statement).collect();
    let base: Vec<&String> = lines.iter().filter(|l| l.contains("#baseExperience>")).collect();
    assert_eq!(base.len(), 1);
    assert_eq!(
        base[0],
        "<https://pokeapi.co/api/v2/pokemon/10/> <http://purl.org/pokemon/ontology#baseExperience> \"39\"^^<http://www.w3.org/2001/XMLSchema#integer> ."
    );
}

#[test]
fn locale_filter_keeps_only_the_configured_locale() {
    let t = Trigger {
        id: 1,
        name: String::from("level-up"),
        names: vec![text("fr", "Montée de niveau"), text("en", "Level up"), text("de", "Levelaufstieg")],
        species_urls: vec![],
    };
    let stmts = trigger_to_statements("https://pokeapi.co/api/v2/evolution-trigger/1/", &t, "en")
        .expect("valid trigger");
    let lines: Vec<String> = stmts.iter().map(encode_statement).collect();
    let names: Vec<&String> = lines.iter().filter(|l| l.contains("#names>")).collect();
    assert_eq!(names.len(), 1);
    assert!(names[0].ends_with("\"Level up\" ."));
}

#[test]
fn locale_filter_is_configurable() {
    let t = Trigger {
        id: 1,
        name: String::from("level-up"),
        names: vec![text("fr", "Montée de niveau"), text("en", "Level up")],
        species_urls: vec![],
    };
    let stmts = trigger_to_statements("https://pokeapi.co/api/v2/evolution-trigger/1/", &t, "fr")
        .expect("valid trigger");
    let lines: Vec<String> = stmts.iter().map(encode_statement).collect();
    let names: Vec<&String> = lines.iter().filter(|l| l.contains("#names>")).collect();
    assert_eq!(names.len(), 1);
    assert!(names[0].contains("Montée de niveau"));
}

#[test]
fn move_target_has_no_identifier_statement() {
    let t = MoveTarget { descriptions: vec![], move_urls: vec![], names: vec![] };
    let stmts = move_target_to_statements("https://pokeapi.co/api/v2/move-target/1/",
        "specific-move", &t, "en").expect("valid move target");
    let lines: Vec<String> = stmts.iter().map(encode_statement).collect();
    assert_eq!(lines.len(), 2);
    assert!(lines[0].contains("#MoveTarget>"));
    assert!(lines[1].ends_with("\"specific-move\" ."));
    assert!(lines.iter().all(|l| !l.contains("identifier")));
}

fn sample_type() -> PokeType {
    PokeType {
        id: 10,
        name: String::from("fire"),
        double_damage_from: vec![
            String::from("https://pokeapi.co/api/v2/type/11/"),
            String::from("https://pokeapi.co/api/v2/type/6/"),
        ],
        double_damage_to: vec![String::from("https://pokeapi.co/api/v2/type/12/")],
        half_damage_from: vec![],
        half_damage_to: vec![],
        no_damage_from: vec![],
        no_damage_to: vec![],
        game_indices: vec![],
        generation_url: String::from("https://pokeapi.co/api/v2/generation/1/"),
        names: vec![],
        move_damage_class_url: None,
        pokemon_urls: vec![],
        move_urls: vec![],
    }
}

#[test]
fn damage_relations_are_named_references() {
    let stmts = poke_type_to_statements("https://pokeapi.co/api/v2/type/10/", &sample_type(),
        "en").expect("valid type");
    let lines: Vec<String> = stmts.iter().map(encode_statement).collect();
    let from: Vec<&String> = lines.iter().filter(|l| l.contains("#doubleDamageFrom>")).collect();
    assert_eq!(from.len(), 2);
    assert!(from[0].ends_with("<https://pokeapi.co/api/v2/type/11/> ."));
    assert!(from[1].ends_with("<https://pokeapi.co/api/v2/type/6/> ."));
    let to: Vec<&String> = lines.iter().filter(|l| l.contains("#doubleDamageTo>")).collect();
    assert_eq!(to.len(), 1);
    assert!(to[0].ends_with("<https://pokeapi.co/api/v2/type/12/> ."));
}

#[test]
fn malformed_damage_relation_is_fatal() {
    let mut d = sample_type();
    d.double_damage_to[0] = String::from("not a url");
    let r = poke_type_to_statements("https://pokeapi.co/api/v2/type/10/", &d, "en");
    match r {
        Err(PipelineError::InvalidIdentity(url)) => assert_eq!(url, "not a url"),
        _ => panic!("expected the malformed cross-reference to be fatal"),
    }
}
