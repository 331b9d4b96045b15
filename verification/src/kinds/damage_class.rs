//! Extraction of move-damage-class documents.

use vstd::prelude::*;
use crate::error::{ErrorV, PipelineError};
use crate::extract::{all_ok, class_st, Emitter, first_bad, int_st, loc_texts, Ns, pred_iri,
    text_st};
use crate::model::{DamageClass, DamageClassV};
use crate::statement::{RefV, Statement, StatementV};

verus! {

/// The URLs a move-damage-class extraction checks, in order.
pub open spec fn damage_class_urls(url: Seq<char>, d: DamageClassV) -> Seq<Seq<char>> {
    seq![url]
}

/// The statements extracted from one move-damage-class document; `name`
/// comes from the listing entry.
pub open spec fn damage_class_sts(url: Seq<char>, name: Seq<char>, d: DamageClassV,
    loc: Seq<char>) -> Seq<StatementV> {
    let s = RefV::Named(url);
    seq![
        class_st(s, "MoveDamageClass"@),
        text_st(s, pred_iri(Ns::Schema, "name"@), name),
        int_st(s, pred_iri(Ns::Schema, "identifier"@), d.id as int),
    ]
    + loc_texts(s, pred_iri(Ns::Schema, "description"@), d.descriptions, loc)
}

/// Extracts the statements of one move damage class.
#[verifier::loop_isolation(false)]
pub fn damage_class_to_statements(url: &str, name: &str, d: &DamageClass, locale: &str)
    -> (r: Result<Vec<Statement>, PipelineError>)
    ensures
        r.is_ok() <==> all_ok(damage_class_urls(url@, d.deep_view())),
        r matches Ok(v) ==> v.deep_view()
            == damage_class_sts(url@, name@, d.deep_view(), locale@),
        r matches Err(e) ==> e.deep_view()
            == ErrorV::InvalidIdentity(first_bad(damage_class_urls(url@, d.deep_view()))),
{
    let ghost dv = d.deep_view();
    let ghost s = RefV::Named(url@);
    let (mut em, subject) = Emitter::open(url);
    em.class(&subject, "MoveDamageClass");
    em.lit_text(&subject, Ns::Schema, "name", name);
    em.lit_uint(&subject, Ns::Schema, "identifier", d.id);
    proof {
        if em.ok() {
            assert(em.out_view() =~= seq![
                class_st(s, "MoveDamageClass"@),
                text_st(s, pred_iri(Ns::Schema, "name"@), name@),
                int_st(s, pred_iri(Ns::Schema, "identifier"@), dv.id as int),
            ]);
        }
    }
    em.texts(&subject, Ns::Schema, "description", &d.descriptions, locale);
    proof {
        assert(em.urls_view() == damage_class_urls(url@, dv));
        if em.ok() {
            assert(em.out_view() == damage_class_sts(url@, name@, dv, locale@));
        }
    }
    em.finish()
}

} // verus!
