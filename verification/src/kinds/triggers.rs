//! Extraction of evolution-trigger documents.

use vstd::prelude::*;
use crate::error::{ErrorV, PipelineError};
use crate::extract::{all_ok, class_st, Emitter, first_bad, int_st, link_sts, loc_texts, Ns,
    pred_iri, text_st};
use crate::model::{Trigger, TriggerV};
use crate::statement::{RefV, Statement, StatementV};

verus! {

/// The URLs an evolution-trigger extraction checks, in order.
pub open spec fn trigger_urls(url: Seq<char>, d: TriggerV) -> Seq<Seq<char>> {
    seq![url] + d.species_urls
}

/// The statements extracted from one evolution-trigger document.
pub open spec fn trigger_sts(url: Seq<char>, d: TriggerV, loc: Seq<char>) -> Seq<StatementV> {
    let s = RefV::Named(url);
    seq![
        class_st(s, "EvolutionTrigger"@),
        int_st(s, pred_iri(Ns::Schema, "identifier"@), d.id as int),
        text_st(s, pred_iri(Ns::Schema, "name"@), d.name),
    ]
    + loc_texts(s, pred_iri(Ns::Poke, "names"@), d.names, loc)
    + link_sts(s, pred_iri(Ns::Poke, "triggersSpecies"@), d.species_urls)
}

/// Extracts the statements of one evolution trigger.
#[verifier::loop_isolation(false)]
pub fn trigger_to_statements(url: &str, d: &Trigger, locale: &str)
    -> (r: Result<Vec<Statement>, PipelineError>)
    ensures
        r.is_ok() <==> all_ok(trigger_urls(url@, d.deep_view())),
        r matches Ok(v) ==> v.deep_view() == trigger_sts(url@, d.deep_view(), locale@),
        r matches Err(e) ==> e.deep_view()
            == ErrorV::InvalidIdentity(first_bad(trigger_urls(url@, d.deep_view()))),
{
    let ghost dv = d.deep_view();
    let ghost s = RefV::Named(url@);
    let (mut em, subject) = Emitter::open(url);
    em.class(&subject, "EvolutionTrigger");
    em.lit_uint(&subject, Ns::Schema, "identifier", d.id);
    em.lit_text(&subject, Ns::Schema, "name", d.name.as_str());
    proof {
        if em.ok() {
            assert(em.out_view() =~= seq![
                class_st(s, "EvolutionTrigger"@),
                int_st(s, pred_iri(Ns::Schema, "identifier"@), dv.id as int),
                text_st(s, pred_iri(Ns::Schema, "name"@), dv.name),
            ]);
        }
    }
    em.texts(&subject, Ns::Poke, "names", &d.names, locale);
    em.links(&subject, Ns::Poke, "triggersSpecies", &d.species_urls);
    proof {
        assert(em.urls_view() == trigger_urls(url@, dv));
        if em.ok() {
            assert(em.out_view() == trigger_sts(url@, dv, locale@));
        }
    }
    em.finish()
}

} // verus!
