//! IRI validity.
//!
//! A named reference wraps a canonical URL verbatim; whether the URL is a
//! well-formed absolute IRI is decided by the reference parser of the
//! `oxrdf` crate.  The full grammar takes pages to state, so it is given
//! a name here and every contract speaks through that name.

use vstd::prelude::*;

verus! {

/// Whether `s` is a well-formed RDF IRI, exactly as `oxrdf`'s parser
/// decides it.
pub uninterp spec fn iri_ok(s: Seq<char>) -> bool;

/// Relies on oxrdf::NamedNode::new: it accepts exactly the well-formed
/// IRIs, and acceptance depends on the characters of `s` alone.
#[verifier::external_body]
pub fn check_iri(s: &str) -> (r: bool)
    ensures
        r == iri_ok(s@),
{
    oxrdf::NamedNode::new(s).is_ok()
}

} // verus!
