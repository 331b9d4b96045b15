//! Extraction of shape documents.

use vstd::prelude::*;
use crate::error::{ErrorV, PipelineError};
use crate::extract::{all_ok, class_st, Emitter, first_bad, int_st, link_sts, loc_texts, Ns,
    pred_iri, text_st};
use crate::model::{Shape, ShapeV};
use crate::statement::{RefV, Statement, StatementV};

verus! {

/// The URLs a shape extraction checks, in order.
pub open spec fn shape_urls(url: Seq<char>, d: ShapeV) -> Seq<Seq<char>> {
    seq![url] + d.species_urls
}

/// The statements extracted from one shape document.
pub open spec fn shape_sts(url: Seq<char>, d: ShapeV, loc: Seq<char>) -> Seq<StatementV> {
    let s = RefV::Named(url);
    seq![
        class_st(s, "PokemonShape"@),
        int_st(s, pred_iri(Ns::Schema, "identifier"@), d.id as int),
        text_st(s, pred_iri(Ns::Schema, "name"@), d.name),
    ]
    + loc_texts(s, pred_iri(Ns::Poke, "awsomeNames"@), d.awesome_names, loc)
    + loc_texts(s, pred_iri(Ns::Poke, "names"@), d.names, loc)
    + link_sts(s, pred_iri(Ns::Poke, "hasPokemonSpecies"@), d.species_urls)
}

/// Extracts the statements of one shape.
#[verifier::loop_isolation(false)]
pub fn shape_to_statements(url: &str, d: &Shape, locale: &str)
    -> (r: Result<Vec<Statement>, PipelineError>)
    ensures
        r.is_ok() <==> all_ok(shape_urls(url@, d.deep_view())),
        r matches Ok(v) ==> v.deep_view() == shape_sts(url@, d.deep_view(), locale@),
        r matches Err(e) ==> e.deep_view()
            == ErrorV::InvalidIdentity(first_bad(shape_urls(url@, d.deep_view()))),
{
    let ghost dv = d.deep_view();
    let ghost s = RefV::Named(url@);
    let (mut em, subject) = Emitter::open(url);
    em.class(&subject, "PokemonShape");
    em.lit_uint(&subject, Ns::Schema, "identifier", d.id);
    em.lit_text(&subject, Ns::Schema, "name", d.name.as_str());
    proof {
        if em.ok() {
            assert(em.out_view() =~= seq![
                class_st(s, "PokemonShape"@),
                int_st(s, pred_iri(Ns::Schema, "identifier"@), dv.id as int),
                text_st(s, pred_iri(Ns::Schema, "name"@), dv.name),
            ]);
        }
    }
    em.texts(&subject, Ns::Poke, "awsomeNames", &d.awesome_names, locale);
    em.texts(&subject, Ns::Poke, "names", &d.names, locale);
    em.links(&subject, Ns::Poke, "hasPokemonSpecies", &d.species_urls);
    proof {
        assert(em.urls_view() == shape_urls(url@, dv));
        if em.ok() {
            assert(em.out_view() == shape_sts(url@, dv, locale@));
        }
    }
    em.finish()
}

} // verus!
