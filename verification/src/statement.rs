//! The statement data model: one subject–predicate–object fact.
//!
//! A statement is created once by an extractor, is immutable, travels
//! through exactly one channel hop and is consumed exactly once by the
//! sink.

use vstd::prelude::*;
use crate::error::PipelineError;
use crate::ident::{AnonId, AnonSegV, wf_segs};
use crate::iri::{check_iri, iri_ok};

verus! {

/// A reference to an entity: the canonical URL of a real, externally
/// addressable resource, or the anonymous identity of a nested
/// sub-record.
pub enum EntityRef {
    Named(String),
    Anonymous(AnonId),
}

/// The mathematical value of an entity reference.
#[verifier::ext_equal]
pub enum RefV {
    Named(Seq<char>),
    Anonymous(Seq<AnonSegV>),
}

impl DeepView for EntityRef {
    type V = RefV;

    open spec fn deep_view(&self) -> RefV {
        match self {
            EntityRef::Named(iri) => RefV::Named(iri@),
            EntityRef::Anonymous(id) => RefV::Anonymous(id.deep_view()),
        }
    }
}

/// Well-formedness of an entity reference: a named reference holds a
/// valid IRI, an anonymous one a well-formed identity path.
pub open spec fn wf_ref(r: RefV) -> bool {
    match r {
        RefV::Named(iri) => iri_ok(iri),
        RefV::Anonymous(segs) => wf_segs(segs),
    }
}

impl EntityRef {
    /// Well-formedness of the reference.
    pub open spec fn wf(&self) -> bool {
        wf_ref(self.deep_view())
    }

    /// Wraps an externally supplied canonical URL verbatim as a named
    /// reference; rejects a URL that is not a well-formed IRI.
    pub fn named(url: String) -> (r: Result<EntityRef, PipelineError>)
        ensures
            match r {
                Ok(e) => iri_ok(url@) && e.deep_view() == RefV::Named(url@),
                Err(e) => !iri_ok(url@) && e.deep_view()
                    == crate::error::ErrorV::InvalidIdentity(url@),
            },
    {
        if check_iri(url.as_str()) {
            Ok(EntityRef::Named(url))
        } else {
            Err(PipelineError::InvalidIdentity(url))
        }
    }

    /// The anonymous reference for an identity path.
    pub fn anonymous(id: AnonId) -> (r: EntityRef)
        ensures
            r.deep_view() == RefV::Anonymous(id.deep_view()),
    {
        EntityRef::Anonymous(id)
    }

    /// A reference to the same entity.
    pub fn duplicate(&self) -> (r: EntityRef)
        ensures
            r.deep_view() == self.deep_view(),
    {
        match self {
            EntityRef::Named(iri) => EntityRef::Named(String::from_str(iri.as_str())),
            EntityRef::Anonymous(id) => EntityRef::Anonymous(id.duplicate()),
        }
    }
}

/// The object position of a statement: an entity reference or a literal
/// value — plain text, an integer, or a boolean.
pub enum Term {
    Entity(EntityRef),
    Text(String),
    Int(i64),
    UInt(u64),
    Bool(bool),
}

/// The mathematical value of a term.
#[verifier::ext_equal]
pub enum TermV {
    Entity(RefV),
    Text(Seq<char>),
    Int(int),
    Bool(bool),
}

impl DeepView for Term {
    type V = TermV;

    open spec fn deep_view(&self) -> TermV {
        match self {
            Term::Entity(e) => TermV::Entity(e.deep_view()),
            Term::Text(s) => TermV::Text(s@),
            Term::Int(i) => TermV::Int(*i as int),
            Term::UInt(n) => TermV::Int(*n as int),
            Term::Bool(b) => TermV::Bool(*b),
        }
    }
}

/// Well-formedness of a term: an entity term holds a well-formed
/// reference; literals carry no constraint.
pub open spec fn wf_term(t: TermV) -> bool {
    match t {
        TermV::Entity(r) => wf_ref(r),
        _ => true,
    }
}

/// One subject–predicate–object fact.
pub struct Statement {
    pub subject: EntityRef,
    pub predicate: String,
    pub object: Term,
}

/// The mathematical value of a statement.
#[verifier::ext_equal]
pub struct StatementV {
    pub subject: RefV,
    pub predicate: Seq<char>,
    pub object: TermV,
}

impl DeepView for Statement {
    type V = StatementV;

    open spec fn deep_view(&self) -> StatementV {
        StatementV {
            subject: self.subject.deep_view(),
            predicate: self.predicate@,
            object: self.object.deep_view(),
        }
    }
}

/// Well-formedness of a statement: subject and object hold well-formed
/// references.
pub open spec fn wf_statement(s: StatementV) -> bool {
    wf_ref(s.subject) && wf_term(s.object)
}

} // verus!
