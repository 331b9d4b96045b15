//! The per-kind resource extractors: one module per resource kind, each
//! a pure function from a fetched document to its statement sequence.

pub mod abilities;
pub mod berries;
pub mod berry_flavors;
pub mod damage_class;
pub mod evolution_chains;
pub mod forms;
pub mod generations;
pub mod growth_rates;
pub mod habitats;
pub mod items;
pub mod locations;
pub mod move_target;
pub mod moves;
pub mod natures;
pub mod pal_park;
pub mod poke_types;
pub mod pokedex;
pub mod pokemon;
pub mod regions;
pub mod shapes;
pub mod species;
pub mod stats;
pub mod triggers;
