//! Evolution chains, growth rates and items: nested blocks, conditional
//! fields, and occurrence-indexed identities.

use pokemon2rdf::encode::encode_statement;
use pokemon2rdf::kinds::evolution_chains::{chain_link_to_statements,
    evolution_chain_to_statements};
use pokemon2rdf::kinds::growth_rates::growth_rate_to_statements;
use pokemon2rdf::kinds::items::item_to_statements;
use pokemon2rdf::model::{ChainLink, EvolutionChain, EvolutionDetail, GrowthLevel, GrowthRate,
    HeldBy, HeldVersionDetail, Item};

fn plain_detail() -> EvolutionDetail {
    EvolutionDetail {
        item_url: None,
        trigger_url: String::from("https://pokeapi.co/api/v2/evolution-trigger/1/"),
        gender: None,
        held_item_url: None,
        known_move_url: None,
        known_move_type_url: None,
        location_url: None,
        min_level: Some(16),
        min_happiness: None,
        min_beauty: None,
        min_affection: None,
        needs_overworld_rain: false,
        party_species_url: None,
        party_type_url: None,
        relative_physical_stats: None,
        time_of_day: String::from(""),
        trade_species_url: None,
        turn_upside_down: false,
    }
}

#[test]
fn chain_link_block_lines() {
    let link = ChainLink {
        is_baby: false,
        species_url: String::from("https://pokeapi.co/api/v2/pokemon-species/2/"),
        details: vec![plain_detail()],
    };
    let stmts = chain_link_to_statements("https://pokeapi.co/api/v2/evolution-chain/1/", 1, 1,
        &link).expect("valid link");
    let lines: Vec<String> = stmts.iter().map(encode_statement).collect();
    let expected = vec![
        "<https://pokeapi.co/api/v2/evolution-chain/1/> <http://purl.org/pokemon/ontology#link> _:chain1_link1 .",
        "<https://pokeapi.co/api/v2/evolution-chain/1/> <http://purl.org/pokemon/ontology#isBaby> \"false\"^^<http://www.w3.org/2001/XMLSchema#boolean> .",
        "_:chain1_link1 <http://purl.org/pokemon/ontology#species> <https://pokeapi.co/api/v2/pokemon-species/2/> .",
        "_:chain1_link1 <http://purl.org/pokemon/ontology#evolutionDetail> _:chain1_link1_evolutionDetail0 .",
        "_:chain1_link1_evolutionDetail0 <http://purl.org/pokemon/ontology#trigger> <https://pokeapi.co/api/v2/evolution-trigger/1/> .",
        "_:chain1_link1_evolutionDetail0 <https://pokemonkg.org/ontology#minLevelToLearn> \"16\"^^<http://www.w3.org/2001/XMLSchema#integer> .",
        "_:chain1_link1_evolutionDetail0 <http://purl.org/pokemon/ontology#timeOfDay> \"\" .",
    ];
    assert_eq!(lines, expected);
}

#[test]
fn boolean_marks_appear_only_when_set() {
    let mut det = plain_detail();
    det.needs_overworld_rain = true;
    det.turn_upside_down = true;
    let link = ChainLink {
        is_baby: true,
        species_url: String::from("https://pokeapi.co/api/v2/pokemon-species/3/"),
        details: vec![det],
    };
    let chain = EvolutionChain {
        id: 1,
        baby_trigger_item_url: None,
        links: vec![link],
    };
    let stmts = evolution_chain_to_statements("https://pokeapi.co/api/v2/evolution-chain/1/",
        &chain).expect("valid chain");
    let lines: Vec<String> = stmts.iter().map(encode_statement).collect();
    assert_eq!(lines.iter().filter(|l| l.contains("needsOverworldRain")).count(), 1);
    assert_eq!(lines.iter().filter(|l| l.contains("turnUpsideDown")).count(), 1);

    let chain_without = EvolutionChain {
        id: 1,
        baby_trigger_item_url: None,
        links: vec![ChainLink {
            is_baby: true,
            species_url: String::from("https://pokeapi.co/api/v2/pokemon-species/3/"),
            details: vec![plain_detail()],
        }],
    };
    let stmts = evolution_chain_to_statements("https://pokeapi.co/api/v2/evolution-chain/1/",
        &chain_without).expect("valid chain");
    let lines: Vec<String> = stmts.iter().map(encode_statement).collect();
    assert!(lines.iter().all(|l| !l.contains("needsOverworldRain")));
    assert!(lines.iter().all(|l| !l.contains("turnUpsideDown")));
}

#[test]
fn growth_rate_levels_are_indexed_by_occurrence() {
    let d = GrowthRate {
        id: 4,
        name: String::from("medium"),
        formula: String::from("x^3"),
        descriptions: vec![],
        levels: vec![
            GrowthLevel { level: 1, experience: 0 },
            GrowthLevel { level: 100, experience: 1000000 },
        ],
        species_urls: vec![],
    };
    let stmts = growth_rate_to_statements("https://pokeapi.co/api/v2/growth-rate/4/", &d, "en")
        .expect("valid growth rate");
    let lines: Vec<String> = stmts.iter().map(encode_statement).collect();
    assert!(lines.iter().any(|l| l.starts_with("_:growthrate4_explevel0 ")));
    assert!(lines.iter().any(|l| l.starts_with("_:growthrate4_explevel1 ")));
    assert!(lines.iter().all(|l| !l.contains("_:growthrate4_explevel100")));
}

#[test]
fn duplicate_levels_keep_distinct_identities() {
    let d = GrowthRate {
        id: 7,
        name: String::from("odd"),
        formula: String::from("x"),
        descriptions: vec![],
        levels: vec![
            GrowthLevel { level: 10, experience: 100 },
            GrowthLevel { level: 10, experience: 200 },
        ],
        species_urls: vec![],
    };
    let stmts = growth_rate_to_statements("https://pokeapi.co/api/v2/growth-rate/7/", &d, "en")
        .expect("valid growth rate");
    let lines: Vec<String> = stmts.iter().map(encode_statement).collect();
    // Two distinct records with the same level value: two identities.
    let first: Vec<&String> = lines.iter()
        .filter(|l| l.starts_with("_:growthrate7_explevel0 ")).collect();
    let second: Vec<&String> = lines.iter()
        .filter(|l| l.starts_with("_:growthrate7_explevel1 ")).collect();
    assert_eq!(first.len(), 2);
    assert_eq!(second.len(), 2);
    assert!(first.iter().any(|l| l.ends_with("\"100\"^^<http://www.w3.org/2001/XMLSchema#integer> .")));
    assert!(second.iter().any(|l| l.ends_with("\"200\"^^<http://www.w3.org/2001/XMLSchema#integer> .")));
}

#[test]
fn held_item_blocks_nest_per_version() {
    let d = Item {
        id: 5,
        name: String::from("safari-ball"),
        cost: 0,
        fling_power: None,
        fling_effect_url: None,
        attribute_urls: vec![],
        category_url: String::from("https://pokeapi.co/api/v2/item-category/34/"),
        effect_entries: vec![],
        flavor_texts: vec![],
        game_indices: vec![],
        names: vec![],
        sprite_url: None,
        held_by: vec![HeldBy {
            pokemon_url: String::from("https://pokeapi.co/api/v2/pokemon/25/"),
            version_details: vec![
                HeldVersionDetail {
                    rarity: 5,
                    version_url: String::from("https://pokeapi.co/api/v2/version/1/"),
                },
                HeldVersionDetail {
                    rarity: 50,
                    version_url: String::from("https://pokeapi.co/api/v2/version/2/"),
                },
            ],
        }],
        baby_trigger_for_url: None,
    };
    let stmts = item_to_statements("https://pokeapi.co/api/v2/item/5/", &d, "en")
        .expect("valid item");
    let lines: Vec<String> = stmts.iter().map(encode_statement).collect();
    // One hold block: the pokemon link plus one link per version detail.
    assert_eq!(
        lines.iter().filter(|l| l.starts_with("_:item5_heldByPokemon0 ")).count(),
        3
    );
    // Each version detail carries its rarity and its version.
    assert_eq!(
        lines.iter().filter(|l| l.starts_with("_:item5_heldByPokemon0_versionDetail0 ")).count(),
        2
    );
    assert_eq!(
        lines.iter().filter(|l| l.starts_with("_:item5_heldByPokemon0_versionDetail1 ")).count(),
        2
    );
}
