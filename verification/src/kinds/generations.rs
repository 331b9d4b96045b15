//! Extraction of generation documents.

use vstd::prelude::*;
use crate::error::{ErrorV, PipelineError};
use crate::extract::{all_ok, class_st, Emitter, first_bad, int_st, link_st, link_sts, loc_texts,
    Ns, pred_iri, text_st};
use crate::model::{Generation, GenerationV};
use crate::statement::{RefV, Statement, StatementV};

verus! {

/// The URLs a generation extraction checks, in order.
pub open spec fn generation_urls(url: Seq<char>, d: GenerationV) -> Seq<Seq<char>> {
    seq![url] + d.ability_urls + seq![d.main_region_url] + d.move_urls + d.species_urls
        + d.type_urls + d.version_group_urls
}

/// The statements extracted from one generation document.
pub open spec fn generation_sts(url: Seq<char>, d: GenerationV, loc: Seq<char>)
    -> Seq<StatementV> {
    let s = RefV::Named(url);
    seq![
        class_st(s, "Generation"@),
        int_st(s, pred_iri(Ns::Schema, "identifier"@), d.id as int),
        text_st(s, pred_iri(Ns::Schema, "name"@), d.name),
    ]
    + link_sts(s, pred_iri(Ns::Poke, "hasNewAbiltiy"@), d.ability_urls)
    + loc_texts(s, pred_iri(Ns::Poke, "names"@), d.names, loc)
    + seq![link_st(s, pred_iri(Ns::Poke, "region"@), d.main_region_url)]
    + link_sts(s, pred_iri(Ns::Poke, "hasNewMove"@), d.move_urls)
    + link_sts(s, pred_iri(Ns::Poke, "hasNewSpecies"@), d.species_urls)
    + link_sts(s, pred_iri(Ns::Poke, "hasNewType"@), d.type_urls)
    + link_sts(s, pred_iri(Ns::Poke, "hasNewVersionGroup"@), d.version_group_urls)
}

/// Extracts the statements of one generation.
#[verifier::loop_isolation(false)]
pub fn generation_to_statements(url: &str, d: &Generation, locale: &str)
    -> (r: Result<Vec<Statement>, PipelineError>)
    ensures
        r.is_ok() <==> all_ok(generation_urls(url@, d.deep_view())),
        r matches Ok(v) ==> v.deep_view() == generation_sts(url@, d.deep_view(), locale@),
        r matches Err(e) ==> e.deep_view()
            == ErrorV::InvalidIdentity(first_bad(generation_urls(url@, d.deep_view()))),
{
    let ghost dv = d.deep_view();
    let ghost s = RefV::Named(url@);
    let (mut em, subject) = Emitter::open(url);
    em.class(&subject, "Generation");
    em.lit_uint(&subject, Ns::Schema, "identifier", d.id);
    em.lit_text(&subject, Ns::Schema, "name", d.name.as_str());
    proof {
        if em.ok() {
            assert(em.out_view() =~= seq![
                class_st(s, "Generation"@),
                int_st(s, pred_iri(Ns::Schema, "identifier"@), dv.id as int),
                text_st(s, pred_iri(Ns::Schema, "name"@), dv.name),
            ]);
        }
    }
    em.links(&subject, Ns::Poke, "hasNewAbiltiy", &d.ability_urls);
    em.texts(&subject, Ns::Poke, "names", &d.names, locale);
    em.link(&subject, Ns::Poke, "region", d.main_region_url.as_str());
    em.links(&subject, Ns::Poke, "hasNewMove", &d.move_urls);
    em.links(&subject, Ns::Poke, "hasNewSpecies", &d.species_urls);
    em.links(&subject, Ns::Poke, "hasNewType", &d.type_urls);
    em.links(&subject, Ns::Poke, "hasNewVersionGroup", &d.version_group_urls);
    proof {
        assert(em.urls_view() == generation_urls(url@, dv));
        if em.ok() {
            assert(em.out_view() == generation_sts(url@, dv, locale@));
        }
    }
    em.finish()
}

} // verus!
