//! Extraction of form documents.

use vstd::prelude::*;
use crate::error::{ErrorV, PipelineError};
use crate::extract::{all_ok, bool_st, class_st, Emitter, first_bad, int_st, link_st, link_sts,
    loc_texts, Ns, opt_link_sts, opt_url, pred_iri, text_st};
use crate::model::{Form, FormV};
use crate::statement::{RefV, Statement, StatementV};

verus! {

/// The URLs a form extraction checks, in order.
pub open spec fn form_urls(url: Seq<char>, d: FormV) -> Seq<Seq<char>> {
    seq![url, d.pokemon_url]
    + d.type_urls
    + opt_url(d.back_default_sprite)
    + opt_url(d.front_default_sprite)
    + opt_url(d.back_shiny_sprite)
    + opt_url(d.front_shiny_sprite)
    + opt_url(d.back_shiny_female_sprite)
    + opt_url(d.front_shiny_female_sprite)
    + opt_url(d.back_female_sprite)
    + opt_url(d.front_female_sprite)
    + seq![d.version_group_url]
}

/// The statements extracted from one form document.
pub open spec fn form_sts(url: Seq<char>, d: FormV, loc: Seq<char>) -> Seq<StatementV> {
    let s = RefV::Named(url);
    seq![
        class_st(s, "PokemonForm"@),
        int_st(s, pred_iri(Ns::Schema, "identifier"@), d.id as int),
        text_st(s, pred_iri(Ns::Schema, "name"@), d.name),
        int_st(s, pred_iri(Ns::Poke, "order"@), d.order),
        int_st(s, pred_iri(Ns::Poke, "formOrder"@), d.form_order),
        text_st(s, pred_iri(Ns::Poke, "formName"@), d.form_name),
        bool_st(s, pred_iri(Ns::Poke, "isBattleOnly"@), d.is_battle_only),
        bool_st(s, pred_iri(Ns::Poke, "isDefault"@), d.is_default),
        bool_st(s, pred_iri(Ns::Poke, "isMega"@), d.is_mega),
        link_st(s, pred_iri(Ns::Poke, "pokemon"@), d.pokemon_url),
    ]
    + link_sts(s, pred_iri(Ns::Kg, "hasType"@), d.type_urls)
    + opt_link_sts(s, pred_iri(Ns::Poke, "backDefaultSprite"@), d.back_default_sprite)
    + opt_link_sts(s, pred_iri(Ns::Poke, "frontDefaultSprite"@), d.front_default_sprite)
    + opt_link_sts(s, pred_iri(Ns::Poke, "backShinySprite"@), d.back_shiny_sprite)
    + opt_link_sts(s, pred_iri(Ns::Poke, "frontShinySprite"@), d.front_shiny_sprite)
    + opt_link_sts(s, pred_iri(Ns::Poke, "backShinyFemaleSprite"@), d.back_shiny_female_sprite)
    + opt_link_sts(s, pred_iri(Ns::Poke, "frontShinyFemaleSprite"@),
        d.front_shiny_female_sprite)
    + opt_link_sts(s, pred_iri(Ns::Poke, "backFemaleSprite"@), d.back_female_sprite)
    + opt_link_sts(s, pred_iri(Ns::Poke, "frontFemaleSprite"@), d.front_female_sprite)
    + seq![link_st(s, pred_iri(Ns::Poke, "versionGroup"@), d.version_group_url)]
    + loc_texts(s, pred_iri(Ns::Poke, "names"@), d.names, loc)
    + loc_texts(s, pred_iri(Ns::Poke, "formNames"@), d.form_names, loc)
}

/// Extracts the statements of one form.
#[verifier::loop_isolation(false)]
pub fn form_to_statements(url: &str, d: &Form, locale: &str)
    -> (r: Result<Vec<Statement>, PipelineError>)
    ensures
        r.is_ok() <==> all_ok(form_urls(url@, d.deep_view())),
        r matches Ok(v) ==> v.deep_view() == form_sts(url@, d.deep_view(), locale@),
        r matches Err(e) ==> e.deep_view()
            == ErrorV::InvalidIdentity(first_bad(form_urls(url@, d.deep_view()))),
{
    let ghost dv = d.deep_view();
    let ghost s = RefV::Named(url@);
    let (mut em, subject) = Emitter::open(url);
    em.class(&subject, "PokemonForm");
    em.lit_uint(&subject, Ns::Schema, "identifier", d.id);
    em.lit_text(&subject, Ns::Schema, "name", d.name.as_str());
    em.lit_int(&subject, Ns::Poke, "order", d.order);
    em.lit_int(&subject, Ns::Poke, "formOrder", d.form_order);
    em.lit_text(&subject, Ns::Poke, "formName", d.form_name.as_str());
    em.lit_bool(&subject, Ns::Poke, "isBattleOnly", d.is_battle_only);
    em.lit_bool(&subject, Ns::Poke, "isDefault", d.is_default);
    em.lit_bool(&subject, Ns::Poke, "isMega", d.is_mega);
    em.link(&subject, Ns::Poke, "pokemon", d.pokemon_url.as_str());
    proof {
        assert(em.urls_view() =~= seq![url@, dv.pokemon_url]);
        if em.ok() {
            assert(em.out_view() =~= seq![
                class_st(s, "PokemonForm"@),
                int_st(s, pred_iri(Ns::Schema, "identifier"@), dv.id as int),
                text_st(s, pred_iri(Ns::Schema, "name"@), dv.name),
                int_st(s, pred_iri(Ns::Poke, "order"@), dv.order),
                int_st(s, pred_iri(Ns::Poke, "formOrder"@), dv.form_order),
                text_st(s, pred_iri(Ns::Poke, "formName"@), dv.form_name),
                bool_st(s, pred_iri(Ns::Poke, "isBattleOnly"@), dv.is_battle_only),
                bool_st(s, pred_iri(Ns::Poke, "isDefault"@), dv.is_default),
                bool_st(s, pred_iri(Ns::Poke, "isMega"@), dv.is_mega),
                link_st(s, pred_iri(Ns::Poke, "pokemon"@), dv.pokemon_url),
            ]);
        }
    }
    em.links(&subject, Ns::Kg, "hasType", &d.type_urls);
    em.opt_link(&subject, Ns::Poke, "backDefaultSprite", &d.back_default_sprite);
    em.opt_link(&subject, Ns::Poke, "frontDefaultSprite", &d.front_default_sprite);
    em.opt_link(&subject, Ns::Poke, "backShinySprite", &d.back_shiny_sprite);
    em.opt_link(&subject, Ns::Poke, "frontShinySprite", &d.front_shiny_sprite);
    em.opt_link(&subject, Ns::Poke, "backShinyFemaleSprite", &d.back_shiny_female_sprite);
    em.opt_link(&subject, Ns::Poke, "frontShinyFemaleSprite", &d.front_shiny_female_sprite);
    em.opt_link(&subject, Ns::Poke, "backFemaleSprite", &d.back_female_sprite);
    em.opt_link(&subject, Ns::Poke, "frontFemaleSprite", &d.front_female_sprite);
    em.link(&subject, Ns::Poke, "versionGroup", d.version_group_url.as_str());
    em.texts(&subject, Ns::Poke, "names", &d.names, locale);
    em.texts(&subject, Ns::Poke, "formNames", &d.form_names, locale);
    proof {
        assert(em.urls_view() == form_urls(url@, dv));
        if em.ok() {
            assert(em.out_view() == form_sts(url@, dv, locale@));
        }
    }
    em.finish()
}

} // verus!
