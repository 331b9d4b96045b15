//! The resource kinds and the error taxonomy.
//!
//! Every error is fatal to the whole run: there is no partial-success
//! mode, no per-entity skip, and no retry in this core.

use vstd::prelude::*;

verus! {

/// One category of source entity, with its own listing, fetching and
/// extraction flow.
#[derive(Clone, Copy, Debug, PartialEq, Eq, Structural)]
pub enum ResourceKind {
    Ability,
    Berry,
    BerryFlavor,
    DamageClass,
    EvolutionChain,
    EvolutionTrigger,
    Generation,
    GrowthRate,
    Habitat,
    Item,
    Location,
    Move,
    MoveTarget,
    Nature,
    PalParkArea,
    Pokedex,
    Pokemon,
    PokemonForm,
    PokemonType,
    Region,
    Shape,
    Species,
    Stat,
}

/// A fatal pipeline error.
#[derive(Debug)]
pub enum PipelineError {
    /// Listing the entities of a kind failed at transport or parse level.
    ListingFailed(ResourceKind),
    /// Fetching one entity's detail failed; carries the entity's URL.
    FetchFailed(ResourceKind, String),
    /// An identifier embedded in upstream data is not a well-formed IRI.
    InvalidIdentity(String),
    /// A statement was forwarded after the sink had been closed.
    SinkClosed,
    /// Writing to the output stream failed.
    IoFailure,
}

/// The mathematical value of a pipeline error.
#[verifier::ext_equal]
pub enum ErrorV {
    ListingFailed(ResourceKind),
    FetchFailed(ResourceKind, Seq<char>),
    InvalidIdentity(Seq<char>),
    SinkClosed,
    IoFailure,
}

impl DeepView for PipelineError {
    type V = ErrorV;

    open spec fn deep_view(&self) -> ErrorV {
        match self {
            PipelineError::ListingFailed(k) => ErrorV::ListingFailed(*k),
            PipelineError::FetchFailed(k, url) => ErrorV::FetchFailed(*k, url@),
            PipelineError::InvalidIdentity(url) => ErrorV::InvalidIdentity(url@),
            PipelineError::SinkClosed => ErrorV::SinkClosed,
            PipelineError::IoFailure => ErrorV::IoFailure,
        }
    }
}

} // verus!
