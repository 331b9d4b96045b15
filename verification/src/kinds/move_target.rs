//! Extraction of move-target documents.

use vstd::prelude::*;
use crate::error::{ErrorV, PipelineError};
use crate::extract::{all_ok, class_st, Emitter, first_bad, link_sts, loc_texts, Ns, pred_iri,
    text_st};
use crate::model::{MoveTarget, MoveTargetV};
use crate::statement::{RefV, Statement, StatementV};

verus! {

/// The URLs a move-target extraction checks, in order.
pub open spec fn move_target_urls(url: Seq<char>, d: MoveTargetV) -> Seq<Seq<char>> {
    seq![url] + d.move_urls
}

/// The statements extracted from one move-target document; `name` comes
/// from the listing entry.
pub open spec fn move_target_sts(url: Seq<char>, name: Seq<char>, d: MoveTargetV,
    loc: Seq<char>) -> Seq<StatementV> {
    let s = RefV::Named(url);
    seq![
        class_st(s, "MoveTarget"@),
        text_st(s, pred_iri(Ns::Schema, "name"@), name),
    ]
    + loc_texts(s, pred_iri(Ns::Schema, "description"@), d.descriptions, loc)
    + link_sts(s, pred_iri(Ns::Poke, "move"@), d.move_urls)
    + loc_texts(s, pred_iri(Ns::Poke, "names"@), d.names, loc)
}

/// Extracts the statements of one move target.
#[verifier::loop_isolation(false)]
pub fn move_target_to_statements(url: &str, name: &str, d: &MoveTarget, locale: &str)
    -> (r: Result<Vec<Statement>, PipelineError>)
    ensures
        r.is_ok() <==> all_ok(move_target_urls(url@, d.deep_view())),
        r matches Ok(v) ==> v.deep_view()
            == move_target_sts(url@, name@, d.deep_view(), locale@),
        r matches Err(e) ==> e.deep_view()
            == ErrorV::InvalidIdentity(first_bad(move_target_urls(url@, d.deep_view()))),
{
    let ghost dv = d.deep_view();
    let ghost s = RefV::Named(url@);
    let (mut em, subject) = Emitter::open(url);
    em.class(&subject, "MoveTarget");
    em.lit_text(&subject, Ns::Schema, "name", name);
    proof {
        if em.ok() {
            assert(em.out_view() =~= seq![
                class_st(s, "MoveTarget"@),
                text_st(s, pred_iri(Ns::Schema, "name"@), name@),
            ]);
        }
    }
    em.texts(&subject, Ns::Schema, "description", &d.descriptions, locale);
    em.links(&subject, Ns::Poke, "move", &d.move_urls);
    em.texts(&subject, Ns::Poke, "names", &d.names, locale);
    proof {
        assert(em.urls_view() == move_target_urls(url@, dv));
        if em.ok() {
            assert(em.out_view() == move_target_sts(url@, name@, dv, locale@));
        }
    }
    em.finish()
}

} // verus!
