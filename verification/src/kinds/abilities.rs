//! Extraction of ability documents.

use vstd::prelude::*;
use crate::error::{ErrorV, PipelineError};
use crate::extract::{all_ok, class_st, effect_sts, Emitter, first_bad, int_st, link_st,
    link_sts, loc_texts, Ns, pred_iri, text_st};
use crate::model::{Ability, AbilityV};
use crate::statement::{RefV, Statement, StatementV};

verus! {

/// The URLs an ability extraction checks, in order.
pub open spec fn ability_urls(url: Seq<char>, d: AbilityV) -> Seq<Seq<char>> {
    seq![url, d.generation_url] + d.pokemon_urls
}

/// The statements extracted from one ability document.
pub open spec fn ability_sts(url: Seq<char>, d: AbilityV, loc: Seq<char>) -> Seq<StatementV> {
    let s = RefV::Named(url);
    seq![
        class_st(s, "Ability"@),
        text_st(s, pred_iri(Ns::Schema, "name"@), d.name),
        int_st(s, pred_iri(Ns::Schema, "identifier"@), d.id as int),
        link_st(s, pred_iri(Ns::Poke, "generation"@), d.generation_url),
    ]
    + effect_sts(s, pred_iri(Ns::Kg, "effectDescription"@), d.effect_entries, loc)
    + loc_texts(s, pred_iri(Ns::Poke, "flavorText"@), d.flavor_texts, loc)
    + link_sts(s, pred_iri(Ns::Poke, "mayBeFoundInPokemon"@), d.pokemon_urls)
}

/// Extracts the statements of one ability.
#[verifier::loop_isolation(false)]
pub fn ability_to_statements(url: &str, d: &Ability, locale: &str)
    -> (r: Result<Vec<Statement>, PipelineError>)
    ensures
        r.is_ok() <==> all_ok(ability_urls(url@, d.deep_view())),
        r matches Ok(v) ==> v.deep_view() == ability_sts(url@, d.deep_view(), locale@),
        r matches Err(e) ==> e.deep_view()
            == ErrorV::InvalidIdentity(first_bad(ability_urls(url@, d.deep_view()))),
{
    let ghost dv = d.deep_view();
    let ghost s = RefV::Named(url@);
    let (mut em, subject) = Emitter::open(url);
    em.class(&subject, "Ability");
    em.lit_text(&subject, Ns::Schema, "name", d.name.as_str());
    em.lit_uint(&subject, Ns::Schema, "identifier", d.id);
    em.link(&subject, Ns::Poke, "generation", d.generation_url.as_str());
    proof {
        assert(em.urls_view() =~= seq![url@, dv.generation_url]);
        if em.ok() {
            assert(em.out_view() =~= seq![
                class_st(s, "Ability"@),
                text_st(s, pred_iri(Ns::Schema, "name"@), dv.name),
                int_st(s, pred_iri(Ns::Schema, "identifier"@), dv.id as int),
                link_st(s, pred_iri(Ns::Poke, "generation"@), dv.generation_url),
            ]);
        }
    }
    em.effects(&subject, Ns::Kg, "effectDescription", &d.effect_entries, locale);
    em.texts(&subject, Ns::Poke, "flavorText", &d.flavor_texts, locale);
    em.links(&subject, Ns::Poke, "mayBeFoundInPokemon", &d.pokemon_urls);
    proof {
        assert(em.urls_view() == ability_urls(url@, dv));
        if em.ok() {
            assert(em.out_view() == ability_sts(url@, dv, locale@));
        }
    }
    em.finish()
}

} // verus!
