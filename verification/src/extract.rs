//! The shared extraction contract.
//!
//! Every resource extractor is a pure function from one fetched document
//! to a finite sequence of statements: one statement declaring the
//! entity's ontology class, one per field present (absent optional
//! fields emit nothing), one per element of a repeated field, and a
//! nested block rooted at an anonymous identity for each structured
//! sub-record.  Locale-qualified text is filtered to one configured
//! locale.  The only failure is a malformed cross-reference URL, which
//! is fatal; the `Emitter` here collects statements, checks every URL in
//! emission order, and reports the first malformed one.

use vstd::prelude::*;
use crate::error::{ErrorV, PipelineError};
use crate::ident::{AnonId, AnonSegV};
use crate::iri::{check_iri, iri_ok};
use crate::model::{opt_int_view, EffectEntry, EffectEntryV, Localized, LocalizedV};
use crate::statement::{EntityRef, RefV, Statement, StatementV, Term, TermV};
use crate::text::str_eq;

verus! {

/// The locale kept by default when text is filtered.
pub open spec fn default_locale() -> Seq<char> {
    "en"@
}

/// The ontology namespace for concepts of this graph.
pub open spec fn poke_ns() -> Seq<char> {
    "http://purl.org/pokemon/ontology#"@
}

/// The shared ontology namespace used for well-known classes and
/// predicates.
pub open spec fn kg_ns() -> Seq<char> {
    "https://pokemonkg.org/ontology#"@
}

/// The general-purpose vocabulary namespace.
pub open spec fn schema_ns() -> Seq<char> {
    "https://schema.org/"@
}

/// The class-membership predicate.
pub open spec fn rdf_type() -> Seq<char> {
    "http://www.w3.org/1999/02/22-rdf-syntax-ns#type"@
}

/// A namespace selector for predicates.
#[derive(Clone, Copy)]
pub enum Ns {
    Poke,
    Kg,
    Schema,
}

/// The IRI prefix of a namespace.
pub open spec fn ns_iri(ns: Ns) -> Seq<char> {
    match ns {
        Ns::Poke => poke_ns(),
        Ns::Kg => kg_ns(),
        Ns::Schema => schema_ns(),
    }
}

/// The predicate IRI `<namespace><name>`.
pub open spec fn pred_iri(ns: Ns, name: Seq<char>) -> Seq<char> {
    ns_iri(ns) + name
}

/// Builds the predicate IRI executably.
fn make_pred(ns: Ns, name: &str) -> (s: String)
    ensures
        s@ == pred_iri(ns, name@),
{
    let mut s = match ns {
        Ns::Poke => String::from_str("http://purl.org/pokemon/ontology#"),
        Ns::Kg => String::from_str("https://pokemonkg.org/ontology#"),
        Ns::Schema => String::from_str("https://schema.org/"),
    };
    s.append(name);
    s
}

/// A statement value.
pub open spec fn st(s: RefV, p: Seq<char>, o: TermV) -> StatementV {
    StatementV { subject: s, predicate: p, object: o }
}

/// A statement whose object is a named reference.
pub open spec fn link_st(s: RefV, p: Seq<char>, url: Seq<char>) -> StatementV {
    st(s, p, TermV::Entity(RefV::Named(url)))
}

/// A statement whose object is an anonymous reference.
pub open spec fn anon_st(s: RefV, p: Seq<char>, segs: Seq<AnonSegV>) -> StatementV {
    st(s, p, TermV::Entity(RefV::Anonymous(segs)))
}

/// A statement whose object is a plain text literal.
pub open spec fn text_st(s: RefV, p: Seq<char>, t: Seq<char>) -> StatementV {
    st(s, p, TermV::Text(t))
}

/// A statement whose object is an integer literal.
pub open spec fn int_st(s: RefV, p: Seq<char>, i: int) -> StatementV {
    st(s, p, TermV::Int(i))
}

/// A statement whose object is a boolean literal.
pub open spec fn bool_st(s: RefV, p: Seq<char>, b: bool) -> StatementV {
    st(s, p, TermV::Bool(b))
}

/// Whether a class name belongs to the shared ontology namespace; novel
/// concepts go to this graph's own namespace.
pub open spec fn kg_class(name: Seq<char>) -> bool {
    ||| name == "Species"@
    ||| name == "Ability"@
    ||| name == "Move"@
    ||| name == "Type"@
    ||| name == "Region"@
    ||| name == "Habitat"@
    ||| name == "EggGroup"@
    ||| name == "Generation"@
    ||| name == "Shape"@
    ||| name == "Pokémon"@
}

/// The class IRI for a class name.
pub open spec fn class_iri(name: Seq<char>) -> Seq<char> {
    if kg_class(name) {
        kg_ns() + name
    } else {
        poke_ns() + name
    }
}

/// The statement declaring an entity's ontology class.
pub open spec fn class_st(s: RefV, name: Seq<char>) -> StatementV {
    st(s, rdf_type(), TermV::Entity(RefV::Named(class_iri(name))))
}

/// Builds the class IRI executably.
fn make_class_iri(name: &str) -> (s: String)
    ensures
        s@ == class_iri(name@),
{
    let kg = str_eq(name, "Species") || str_eq(name, "Ability") || str_eq(name, "Move")
        || str_eq(name, "Type") || str_eq(name, "Region") || str_eq(name, "Habitat")
        || str_eq(name, "EggGroup") || str_eq(name, "Generation") || str_eq(name, "Shape")
        || str_eq(name, "Pokémon");
    let mut s = if kg {
        String::from_str("https://pokemonkg.org/ontology#")
    } else {
        String::from_str("http://purl.org/pokemon/ontology#")
    };
    s.append(name);
    s
}

/// The concatenation of `f` over the elements of `s`, in order.
pub open spec fn flat_map_of<T, U>(s: Seq<T>, f: spec_fn(T) -> Seq<U>) -> Seq<U>
    decreases s.len(),
{
    if s.len() == 0 {
        Seq::empty()
    } else {
        f(s[0]) + flat_map_of(s.drop_first(), f)
    }
}

/// Extending the input of `flat_map_of` by one element appends that
/// element's image.
pub proof fn lemma_flat_map_snoc<T, U>(s: Seq<T>, x: T, f: spec_fn(T) -> Seq<U>)
    ensures
        flat_map_of(s.push(x), f) == flat_map_of(s, f) + f(x),
    decreases s.len(),
{
    assert(s.push(x).len() == s.len() + 1);
    assert(flat_map_of(s.push(x), f) == f(s.push(x)[0]) + flat_map_of(s.push(x).drop_first(), f));
    if s.len() == 0 {
        assert(s.push(x)[0] == x);
        assert(s.push(x).drop_first() =~= Seq::<T>::empty());
        assert(f(x) + Seq::<U>::empty() =~= f(x));
        assert(Seq::<U>::empty() + f(x) =~= f(x));
        assert(flat_map_of(s, f) == Seq::<U>::empty());
    } else {
        assert(s.push(x).drop_first() =~= s.drop_first().push(x));
        lemma_flat_map_snoc(s.drop_first(), x, f);
        crate::chars::lemma_concat_assoc(f(s[0]), flat_map_of(s.drop_first(), f), f(x));
        assert(s.push(x)[0] == s[0]);
        assert(flat_map_of(s, f) == f(s[0]) + flat_map_of(s.drop_first(), f));
    }
}

/// The concatenation of `f` over the elements of `s` with their
/// positions, counted from `off`.
pub open spec fn flat_map_idx<T, U>(s: Seq<T>, off: int, f: spec_fn(int, T) -> Seq<U>) -> Seq<U>
    decreases s.len(),
{
    if s.len() == 0 {
        Seq::empty()
    } else {
        f(off, s[0]) + flat_map_idx(s.drop_first(), off + 1, f)
    }
}

/// Extending the input of `flat_map_idx` by one element appends that
/// element's image at its position.
pub proof fn lemma_flat_map_idx_snoc<T, U>(s: Seq<T>, off: int, x: T, f: spec_fn(int, T) -> Seq<U>)
    ensures
        flat_map_idx(s.push(x), off, f) == flat_map_idx(s, off, f) + f(off + s.len(), x),
    decreases s.len(),
{
    assert(s.push(x).len() == s.len() + 1);
    assert(flat_map_idx(s.push(x), off, f) == f(off, s.push(x)[0])
        + flat_map_idx(s.push(x).drop_first(), off + 1, f));
    if s.len() == 0 {
        assert(s.push(x)[0] == x);
        assert(s.push(x).drop_first() =~= Seq::<T>::empty());
        assert(f(off, x) + Seq::<U>::empty() =~= f(off, x));
        assert(Seq::<U>::empty() + f(off, x) =~= f(off, x));
        assert(flat_map_idx(s, off, f) == Seq::<U>::empty());
    } else {
        assert(s.push(x).drop_first() =~= s.drop_first().push(x));
        lemma_flat_map_idx_snoc(s.drop_first(), off + 1, x, f);
        crate::chars::lemma_concat_assoc(f(off, s[0]), flat_map_idx(s.drop_first(), off + 1, f),
            f(off + s.len(), x));
        assert(s.push(x)[0] == s[0]);
        assert(flat_map_idx(s, off, f) == f(off, s[0]) + flat_map_idx(s.drop_first(), off + 1, f));
    }
}

/// Every URL in the list is a well-formed IRI.
pub open spec fn all_ok(urls: Seq<Seq<char>>) -> bool {
    forall|i: int| 0 <= i < urls.len() ==> iri_ok(#[trigger] urls[i])
}

/// The first malformed URL of the list.
pub open spec fn first_bad(urls: Seq<Seq<char>>) -> Seq<char>
    decreases urls.len(),
{
    if urls.len() == 0 {
        Seq::empty()
    } else if !iri_ok(urls[0]) {
        urls[0]
    } else {
        first_bad(urls.drop_first())
    }
}

/// The extraction outcome determined by a list of checked URLs: no error
/// when all are well-formed, else the identity error for the first
/// malformed one.
pub open spec fn err_of(urls: Seq<Seq<char>>) -> Option<ErrorV> {
    if all_ok(urls) {
        None
    } else {
        Some(ErrorV::InvalidIdentity(first_bad(urls)))
    }
}

/// Checking one more URL keeps an earlier error and otherwise fails
/// exactly on a malformed newcomer.
pub proof fn lemma_err_of_snoc(urls: Seq<Seq<char>>, u: Seq<char>)
    ensures
        err_of(urls + seq![u]) == (match err_of(urls) {
            None => if iri_ok(u) { None } else { Some(ErrorV::InvalidIdentity(u)) },
            Some(e) => Some(e),
        }),
    decreases urls.len(),
{
    let w = urls + seq![u];
    assert(w.len() == urls.len() + 1);
    assert(forall|i: int| 0 <= i < urls.len() ==> w[i] == #[trigger] urls[i]);
    assert(w[urls.len() as int] == u);
    if urls.len() == 0 {
        assert(w =~= seq![u]);
        if iri_ok(u) {
            assert(all_ok(w));
        } else {
            assert(!all_ok(w));
            assert(first_bad(w) == u);
        }
    } else {
        assert(w.drop_first() =~= urls.drop_first() + seq![u]);
        lemma_err_of_snoc(urls.drop_first(), u);
        lemma_all_ok_uncons(urls);
        lemma_all_ok_uncons(w);
        assert(w[0] == urls[0]);
        if !iri_ok(urls[0]) {
            assert(first_bad(w) == urls[0]);
            assert(first_bad(urls) == urls[0]);
        }
    }
}

/// A concatenation of URL lists is all well-formed exactly when both
/// parts are.
pub proof fn lemma_all_ok_concat(a: Seq<Seq<char>>, b: Seq<Seq<char>>)
    ensures
        all_ok(a + b) <==> all_ok(a) && all_ok(b),
{
    let w = a + b;
    assert(w.len() == a.len() + b.len());
    if all_ok(w) {
        assert forall|i: int| 0 <= i < a.len() implies iri_ok(#[trigger] a[i]) by {
            assert(a[i] == w[i]);
        }
        assert forall|i: int| 0 <= i < b.len() implies iri_ok(#[trigger] b[i]) by {
            assert(b[i] == w[a.len() + i]);
        }
    }
    if all_ok(a) && all_ok(b) {
        assert forall|i: int| 0 <= i < w.len() implies iri_ok(#[trigger] w[i]) by {
            if i < a.len() {
                assert(w[i] == a[i]);
            } else {
                assert(w[i] == b[i - a.len()]);
            }
        }
    }
}

/// A nonempty URL list is all well-formed exactly when its head and its
/// tail are.
pub proof fn lemma_all_ok_uncons(urls: Seq<Seq<char>>)
    requires
        urls.len() > 0,
    ensures
        all_ok(urls) <==> iri_ok(urls[0]) && all_ok(urls.drop_first()),
{
    if all_ok(urls) {
        assert forall|i: int| 0 <= i < urls.drop_first().len()
            implies iri_ok(#[trigger] urls.drop_first()[i]) by {
            assert(urls.drop_first()[i] == urls[i + 1]);
        }
    }
    if iri_ok(urls[0]) && all_ok(urls.drop_first()) {
        assert forall|i: int| 0 <= i < urls.len() implies iri_ok(#[trigger] urls[i]) by {
            if i > 0 {
                assert(urls[i] == urls.drop_first()[i - 1]);
            }
        }
    }
}

/// A URL list extended by one element is all well-formed exactly when
/// both parts are.
pub proof fn lemma_all_ok_snoc(urls: Seq<Seq<char>>, u: Seq<char>)
    ensures
        all_ok(urls.push(u)) <==> all_ok(urls) && iri_ok(u),
{
    let w = urls.push(u);
    assert(w[urls.len() as int] == u);
    if all_ok(w) {
        assert forall|i: int| 0 <= i < urls.len() implies iri_ok(#[trigger] urls[i]) by {
            assert(urls[i] == w[i]);
        }
    }
    if all_ok(urls) && iri_ok(u) {
        assert forall|i: int| 0 <= i < w.len() implies iri_ok(#[trigger] w[i]) by {
            if i < urls.len() {
                assert(w[i] == urls[i]);
            }
        }
    }
}

/// The statements of a locale-filtered text field: one per entry in the
/// chosen locale, in input order.
pub open spec fn loc_texts(s: RefV, p: Seq<char>, entries: Seq<LocalizedV>, loc: Seq<char>)
    -> Seq<StatementV> {
    flat_map_of(entries, |e: LocalizedV| if e.locale == loc {
        seq![text_st(s, p, e.text)]
    } else {
        Seq::empty()
    })
}

/// Extending a locale-filtered text field by one entry.
pub proof fn lemma_loc_texts_snoc(
    s: RefV,
    p: Seq<char>,
    entries: Seq<LocalizedV>,
    e: LocalizedV,
    loc: Seq<char>,
)
    ensures
        loc_texts(s, p, entries.push(e), loc) == loc_texts(s, p, entries, loc)
            + (if e.locale == loc { seq![text_st(s, p, e.text)] } else { Seq::empty() }),
{
    lemma_flat_map_snoc(entries, e, |x: LocalizedV| if x.locale == loc {
        seq![text_st(s, p, x.text)]
    } else {
        Seq::empty()
    });
}

/// The statements of a locale-filtered effect field: a long and a short
/// description per entry in the chosen locale.
pub open spec fn effect_sts(s: RefV, p: Seq<char>, entries: Seq<EffectEntryV>, loc: Seq<char>)
    -> Seq<StatementV> {
    flat_map_of(entries, |e: EffectEntryV| if e.locale == loc {
        seq![text_st(s, p, e.effect), text_st(s, p, e.short_effect)]
    } else {
        Seq::empty()
    })
}

/// Extending a locale-filtered effect field by one entry.
pub proof fn lemma_effect_sts_snoc(
    s: RefV,
    p: Seq<char>,
    entries: Seq<EffectEntryV>,
    e: EffectEntryV,
    loc: Seq<char>,
)
    ensures
        effect_sts(s, p, entries.push(e), loc) == effect_sts(s, p, entries, loc)
            + (if e.locale == loc {
                seq![text_st(s, p, e.effect), text_st(s, p, e.short_effect)]
            } else {
                Seq::empty()
            }),
{
    lemma_flat_map_snoc(entries, e, |x: EffectEntryV| if x.locale == loc {
        seq![text_st(s, p, x.effect), text_st(s, p, x.short_effect)]
    } else {
        Seq::empty()
    });
}

/// The statements of a repeated cross-reference field: one link per URL,
/// reusing the same predicate.
pub open spec fn link_sts(s: RefV, p: Seq<char>, urls: Seq<Seq<char>>) -> Seq<StatementV> {
    urls.map_values(|u: Seq<char>| link_st(s, p, u))
}

/// The URL checked by an optional cross-reference field: none when the
/// field is absent.
pub open spec fn opt_url(o: Option<Seq<char>>) -> Seq<Seq<char>> {
    match o {
        Some(u) => seq![u],
        None => Seq::empty(),
    }
}

/// The statements of an optional cross-reference field: one link when
/// present, none when absent.
pub open spec fn opt_link_sts(s: RefV, p: Seq<char>, o: Option<Seq<char>>) -> Seq<StatementV> {
    match o {
        Some(u) => seq![link_st(s, p, u)],
        None => Seq::empty(),
    }
}

/// The statements of an optional integer field: one literal when
/// present, none when absent.
pub open spec fn opt_int_sts(s: RefV, p: Seq<char>, o: Option<int>) -> Seq<StatementV> {
    match o {
        Some(i) => seq![int_st(s, p, i)],
        None => Seq::empty(),
    }
}

/// Collects the statements of one entity's extraction, checking every
/// embedded URL in emission order.  After the first malformed URL the
/// collector stops adding statements and carries the identity error.
pub struct Emitter {
    out: Vec<Statement>,
    err: Option<PipelineError>,
    urls: Ghost<Seq<Seq<char>>>,
}

impl Emitter {
    /// The statements collected so far.
    pub closed spec fn out_view(&self) -> Seq<StatementV> {
        self.out.deep_view()
    }

    /// The error encountered, if any.
    pub closed spec fn err_view(&self) -> Option<ErrorV> {
        self.err.deep_view()
    }

    /// The URLs checked so far, in order.
    pub closed spec fn urls_view(&self) -> Seq<Seq<char>> {
        self.urls@
    }

    /// The collector's error always reflects its checked URLs.
    pub open spec fn wf(&self) -> bool {
        self.err_view() == err_of(self.urls_view())
    }

    /// No error so far.
    pub open spec fn ok(&self) -> bool {
        self.err_view() is None
    }

    /// Opens a collection for the entity at `url`, which is the first
    /// URL checked; returns the entity's named reference.
    pub fn open(url: &str) -> (r: (Emitter, EntityRef))
        ensures
            r.0.wf(),
            r.0.out_view() == Seq::<StatementV>::empty(),
            r.0.urls_view() == seq![url@],
            r.1.deep_view() == RefV::Named(url@),
    {
        let owned = String::from_str(url);
        let subject = EntityRef::Named(owned);
        let ghost u0: Seq<Seq<char>> = seq![url@];
        let em = if check_iri(url) {
            Emitter { out: Vec::new(), err: None, urls: Ghost(u0) }
        } else {
            Emitter {
                out: Vec::new(),
                err: Some(PipelineError::InvalidIdentity(String::from_str(url))),
                urls: Ghost(u0),
            }
        };
        proof {
            assert(em.out_view() =~= Seq::<StatementV>::empty());
            assert(em.urls_view()[0] == url@);
            if iri_ok(url@) {
                assert(all_ok(em.urls_view()));
            } else {
                assert(!all_ok(em.urls_view()));
                assert(first_bad(em.urls_view()) == url@);
            }
        }
        (em, subject)
    }

    /// Adds the statement declaring the entity's ontology class.
    pub fn class(&mut self, subject: &EntityRef, name: &str)
        requires
            old(self).wf(),
        ensures
            final(self).wf(),
            final(self).urls_view() == old(self).urls_view(),
            final(self).err_view() == old(self).err_view(),
            old(self).ok() ==> final(self).out_view() == old(self).out_view()
                + seq![class_st(subject.deep_view(), name@)],
            !old(self).ok() ==> final(self).out_view() == old(self).out_view(),
    {
        if self.err.is_none() {
            let iri = make_class_iri(name);
            let pred = String::from_str("http://www.w3.org/1999/02/22-rdf-syntax-ns#type");
            self.out.push(Statement {
                subject: subject.duplicate(),
                predicate: pred,
                object: Term::Entity(EntityRef::Named(iri)),
            });
            proof {
                assert(self.out_view() =~= old(self).out_view()
                    + seq![class_st(subject.deep_view(), name@)]);
            }
        }
    }

    /// Adds an integer-literal statement.
    pub fn lit_int(&mut self, subject: &EntityRef, ns: Ns, name: &str, v: i64)
        requires
            old(self).wf(),
        ensures
            final(self).wf(),
            final(self).urls_view() == old(self).urls_view(),
            final(self).err_view() == old(self).err_view(),
            old(self).ok() ==> final(self).out_view() == old(self).out_view()
                + seq![int_st(subject.deep_view(), pred_iri(ns, name@), v as int)],
            !old(self).ok() ==> final(self).out_view() == old(self).out_view(),
    {
        if self.err.is_none() {
            let pred = make_pred(ns, name);
            self.out.push(Statement {
                subject: subject.duplicate(),
                predicate: pred,
                object: Term::Int(v),
            });
            proof {
                assert(self.out_view() =~= old(self).out_view()
                    + seq![int_st(subject.deep_view(), pred_iri(ns, name@), v as int)]);
            }
        }
    }

    /// Adds a nonnegative-integer-literal statement.
    pub fn lit_uint(&mut self, subject: &EntityRef, ns: Ns, name: &str, v: u64)
        requires
            old(self).wf(),
        ensures
            final(self).wf(),
            final(self).urls_view() == old(self).urls_view(),
            final(self).err_view() == old(self).err_view(),
            old(self).ok() ==> final(self).out_view() == old(self).out_view()
                + seq![int_st(subject.deep_view(), pred_iri(ns, name@), v as int)],
            !old(self).ok() ==> final(self).out_view() == old(self).out_view(),
    {
        if self.err.is_none() {
            let pred = make_pred(ns, name);
            self.out.push(Statement {
                subject: subject.duplicate(),
                predicate: pred,
                object: Term::UInt(v),
            });
            proof {
                assert(self.out_view() =~= old(self).out_view()
                    + seq![int_st(subject.deep_view(), pred_iri(ns, name@), v as int)]);
            }
        }
    }

    /// Adds a text-literal statement.
    pub fn lit_text(&mut self, subject: &EntityRef, ns: Ns, name: &str, v: &str)
        requires
            old(self).wf(),
        ensures
            final(self).wf(),
            final(self).urls_view() == old(self).urls_view(),
            final(self).err_view() == old(self).err_view(),
            old(self).ok() ==> final(self).out_view() == old(self).out_view()
                + seq![text_st(subject.deep_view(), pred_iri(ns, name@), v@)],
            !old(self).ok() ==> final(self).out_view() == old(self).out_view(),
    {
        if self.err.is_none() {
            let pred = make_pred(ns, name);
            self.out.push(Statement {
                subject: subject.duplicate(),
                predicate: pred,
                object: Term::Text(String::from_str(v)),
            });
            proof {
                assert(self.out_view() =~= old(self).out_view()
                    + seq![text_st(subject.deep_view(), pred_iri(ns, name@), v@)]);
            }
        }
    }

    /// Adds a boolean-literal statement.
    pub fn lit_bool(&mut self, subject: &EntityRef, ns: Ns, name: &str, v: bool)
        requires
            old(self).wf(),
        ensures
            final(self).wf(),
            final(self).urls_view() == old(self).urls_view(),
            final(self).err_view() == old(self).err_view(),
            old(self).ok() ==> final(self).out_view() == old(self).out_view()
                + seq![bool_st(subject.deep_view(), pred_iri(ns, name@), v)],
            !old(self).ok() ==> final(self).out_view() == old(self).out_view(),
    {
        if self.err.is_none() {
            let pred = make_pred(ns, name);
            self.out.push(Statement {
                subject: subject.duplicate(),
                predicate: pred,
                object: Term::Bool(v),
            });
            proof {
                assert(self.out_view() =~= old(self).out_view()
                    + seq![bool_st(subject.deep_view(), pred_iri(ns, name@), v)]);
            }
        }
    }

    /// Adds a statement whose object is an anonymous reference.
    pub fn anon_obj(&mut self, subject: &EntityRef, ns: Ns, name: &str, id: &AnonId)
        requires
            old(self).wf(),
        ensures
            final(self).wf(),
            final(self).urls_view() == old(self).urls_view(),
            final(self).err_view() == old(self).err_view(),
            old(self).ok() ==> final(self).out_view() == old(self).out_view()
                + seq![anon_st(subject.deep_view(), pred_iri(ns, name@), id.deep_view())],
            !old(self).ok() ==> final(self).out_view() == old(self).out_view(),
    {
        if self.err.is_none() {
            let pred = make_pred(ns, name);
            self.out.push(Statement {
                subject: subject.duplicate(),
                predicate: pred,
                object: Term::Entity(EntityRef::Anonymous(id.duplicate())),
            });
            proof {
                assert(self.out_view() =~= old(self).out_view()
                    + seq![anon_st(subject.deep_view(), pred_iri(ns, name@), id.deep_view())]);
            }
        }
    }

    /// Checks a cross-reference URL and adds the link statement for it.
    pub fn link(&mut self, subject: &EntityRef, ns: Ns, name: &str, url: &str)
        requires
            old(self).wf(),
        ensures
            final(self).wf(),
            final(self).urls_view() == old(self).urls_view() + seq![url@],
            final(self).ok() <==> old(self).ok() && iri_ok(url@),
            final(self).ok() ==> final(self).out_view() == old(self).out_view()
                + seq![link_st(subject.deep_view(), pred_iri(ns, name@), url@)],
            !old(self).ok() ==> final(self).out_view() == old(self).out_view(),
    {
        proof {
            lemma_err_of_snoc(self.urls@, url@);
        }
        self.urls = Ghost(self.urls@ + seq![url@]);
        if self.err.is_none() {
            if check_iri(url) {
                let pred = make_pred(ns, name);
                self.out.push(Statement {
                    subject: subject.duplicate(),
                    predicate: pred,
                    object: Term::Entity(EntityRef::Named(String::from_str(url))),
                });
                proof {
                    assert(self.out_view() =~= old(self).out_view()
                        + seq![link_st(subject.deep_view(), pred_iri(ns, name@), url@)]);
                }
            } else {
                self.err = Some(PipelineError::InvalidIdentity(String::from_str(url)));
            }
        }
    }

    /// Adds the integer-literal statement of an optional field: one when
    /// present, nothing when absent.
    pub fn opt_int(&mut self, subject: &EntityRef, ns: Ns, name: &str, o: &Option<i64>)
        requires
            old(self).wf(),
        ensures
            final(self).wf(),
            final(self).urls_view() == old(self).urls_view(),
            final(self).err_view() == old(self).err_view(),
            old(self).ok() ==> final(self).out_view() == old(self).out_view()
                + opt_int_sts(subject.deep_view(), pred_iri(ns, name@), opt_int_view(*o)),
            !old(self).ok() ==> final(self).out_view() == old(self).out_view(),
    {
        match o {
            Some(v) => {
                self.lit_int(subject, ns, name, *v);
                proof {
                    if old(self).ok() {
                        assert(self.out_view() =~= old(self).out_view()
                            + opt_int_sts(subject.deep_view(), pred_iri(ns, name@),
                                opt_int_view(*o)));
                    }
                }
            }
            None => {
                proof {
                    if old(self).ok() {
                        assert(self.out_view() =~= old(self).out_view()
                            + opt_int_sts(subject.deep_view(), pred_iri(ns, name@),
                                opt_int_view(*o)));
                    }
                }
            }
        }
    }

    /// Checks and links an optional cross-reference field: one link when
    /// present, nothing when absent.
    pub fn opt_link(&mut self, subject: &EntityRef, ns: Ns, name: &str, o: &Option<String>)
        requires
            old(self).wf(),
        ensures
            final(self).wf(),
            final(self).urls_view() == old(self).urls_view() + opt_url(o.deep_view()),
            final(self).ok() <==> old(self).ok() && all_ok(opt_url(o.deep_view())),
            final(self).ok() ==> final(self).out_view() == old(self).out_view()
                + opt_link_sts(subject.deep_view(), pred_iri(ns, name@), o.deep_view()),
            !old(self).ok() ==> final(self).out_view() == old(self).out_view(),
    {
        match o {
            Some(u) => {
                self.link(subject, ns, name, u.as_str());
                proof {
                    assert(opt_url(o.deep_view()) =~= seq![u@]);
                    assert(all_ok(opt_url(o.deep_view())) <==> iri_ok(u@)) by {
                        assert(opt_url(o.deep_view())[0] == u@);
                    }
                    if self.ok() {
                        assert(opt_link_sts(subject.deep_view(), pred_iri(ns, name@),
                            o.deep_view())
                            =~= seq![link_st(subject.deep_view(), pred_iri(ns, name@), u@)]);
                    }
                }
            }
            None => {
                proof {
                    assert(self.urls_view() =~= old(self).urls_view()
                        + opt_url(o.deep_view()));
                    assert(all_ok(opt_url(o.deep_view())));
                    if self.ok() {
                        assert(self.out_view() =~= old(self).out_view()
                            + opt_link_sts(subject.deep_view(), pred_iri(ns, name@),
                                o.deep_view()));
                    }
                }
            }
        }
    }

    /// Adds one link statement per URL of a repeated cross-reference
    /// field, checking each.
    pub fn links(&mut self, subject: &EntityRef, ns: Ns, name: &str, urls: &Vec<String>)
        requires
            old(self).wf(),
        ensures
            final(self).wf(),
            final(self).urls_view() == old(self).urls_view() + urls.deep_view(),
            final(self).ok() <==> old(self).ok() && all_ok(urls.deep_view()),
            final(self).ok() ==> final(self).out_view() == old(self).out_view()
                + link_sts(subject.deep_view(), pred_iri(ns, name@), urls.deep_view()),
            !old(self).ok() ==> final(self).out_view() == old(self).out_view(),
    {
        let n = urls.len();
        let mut i: usize = 0;
        while i < n
            invariant
                old(self).wf(),
                self.wf(),
                n == urls.len(),
                i <= n,
                self.urls_view() == old(self).urls_view() + urls.deep_view().take(i as int),
                self.ok() <==> old(self).ok() && all_ok(urls.deep_view().take(i as int)),
                self.ok() ==> self.out_view() == old(self).out_view() + link_sts(
                    subject.deep_view(), pred_iri(ns, name@),
                    urls.deep_view().take(i as int)),
                !old(self).ok() ==> self.out_view() == old(self).out_view(),
            decreases n - i,
        {
            let ghost pre_urls = self.urls_view();
            let ghost pre_out = self.out_view();
            let u = &urls[i];
            self.link(subject, ns, name, u.as_str());
            proof {
                let uv = urls.deep_view();
                assert(uv.take(i + 1 as int) =~= uv.take(i as int).push(uv[i as int]));
                assert(self.urls_view() =~= old(self).urls_view() + uv.take(i + 1 as int));
                lemma_all_ok_snoc(uv.take(i as int), uv[i as int]);
                if self.ok() {
                    assert(self.out_view() =~= old(self).out_view() + link_sts(
                        subject.deep_view(), pred_iri(ns, name@), uv.take(i + 1 as int)));
                }
            }
            i = i + 1;
        }
        proof {
            assert(urls.deep_view().take(n as int) =~= urls.deep_view());
        }
    }

    /// Adds the text statements of a locale-filtered text field.
    pub fn texts(
        &mut self,
        subject: &EntityRef,
        ns: Ns,
        name: &str,
        entries: &Vec<Localized>,
        locale: &str,
    )
        requires
            old(self).wf(),
        ensures
            final(self).wf(),
            final(self).urls_view() == old(self).urls_view(),
            final(self).err_view() == old(self).err_view(),
            old(self).ok() ==> final(self).out_view() == old(self).out_view()
                + loc_texts(subject.deep_view(), pred_iri(ns, name@), entries.deep_view(),
                    locale@),
            !old(self).ok() ==> final(self).out_view() == old(self).out_view(),
    {
        let n = entries.len();
        let mut i: usize = 0;
        while i < n
            invariant
                old(self).wf(),
                self.wf(),
                n == entries.len(),
                i <= n,
                self.urls_view() == old(self).urls_view(),
                self.err_view() == old(self).err_view(),
                old(self).ok() ==> self.out_view() == old(self).out_view()
                    + loc_texts(subject.deep_view(), pred_iri(ns, name@),
                        entries.deep_view().take(i as int), locale@),
                !old(self).ok() ==> self.out_view() == old(self).out_view(),
            decreases n - i,
        {
            let e = &entries[i];
            if str_eq(e.locale.as_str(), locale) {
                self.lit_text(subject, ns, name, e.text.as_str());
            }
            proof {
                let ev = entries.deep_view();
                assert(ev.take(i + 1 as int) =~= ev.take(i as int).push(ev[i as int]));
                lemma_loc_texts_snoc(subject.deep_view(), pred_iri(ns, name@),
                    ev.take(i as int), ev[i as int], locale@);
                if old(self).ok() {
                    assert(self.out_view() =~= old(self).out_view()
                        + loc_texts(subject.deep_view(), pred_iri(ns, name@),
                            ev.take(i + 1 as int), locale@));
                }
            }
            i = i + 1;
        }
        proof {
            assert(entries.deep_view().take(n as int) =~= entries.deep_view());
        }
    }

    /// Adds the long and short descriptions of a locale-filtered effect
    /// field.
    pub fn effects(
        &mut self,
        subject: &EntityRef,
        ns: Ns,
        name: &str,
        entries: &Vec<EffectEntry>,
        locale: &str,
    )
        requires
            old(self).wf(),
        ensures
            final(self).wf(),
            final(self).urls_view() == old(self).urls_view(),
            final(self).err_view() == old(self).err_view(),
            old(self).ok() ==> final(self).out_view() == old(self).out_view()
                + effect_sts(subject.deep_view(), pred_iri(ns, name@), entries.deep_view(),
                    locale@),
            !old(self).ok() ==> final(self).out_view() == old(self).out_view(),
    {
        let n = entries.len();
        let mut i: usize = 0;
        while i < n
            invariant
                old(self).wf(),
                self.wf(),
                n == entries.len(),
                i <= n,
                self.urls_view() == old(self).urls_view(),
                self.err_view() == old(self).err_view(),
                old(self).ok() ==> self.out_view() == old(self).out_view()
                    + effect_sts(subject.deep_view(), pred_iri(ns, name@),
                        entries.deep_view().take(i as int), locale@),
                !old(self).ok() ==> self.out_view() == old(self).out_view(),
            decreases n - i,
        {
            let ghost mid = self.out_view();
            let e = &entries[i];
            if str_eq(e.locale.as_str(), locale) {
                self.lit_text(subject, ns, name, e.effect.as_str());
                self.lit_text(subject, ns, name, e.short_effect.as_str());
                proof {
                    if old(self).ok() {
                        crate::chars::lemma_concat_assoc(mid,
                            seq![text_st(subject.deep_view(), pred_iri(ns, name@),
                                e.effect@)],
                            seq![text_st(subject.deep_view(), pred_iri(ns, name@),
                                e.short_effect@)]);
                        assert(seq![text_st(subject.deep_view(), pred_iri(ns, name@),
                            e.effect@)]
                            + seq![text_st(subject.deep_view(), pred_iri(ns, name@),
                                e.short_effect@)]
                            =~= seq![
                                text_st(subject.deep_view(), pred_iri(ns, name@), e.effect@),
                                text_st(subject.deep_view(), pred_iri(ns, name@),
                                    e.short_effect@)]);
                    }
                }
            }
            proof {
                let ev = entries.deep_view();
                assert(ev.take(i + 1 as int) =~= ev.take(i as int).push(ev[i as int]));
                lemma_effect_sts_snoc(subject.deep_view(), pred_iri(ns, name@),
                    ev.take(i as int), ev[i as int], locale@);
                if old(self).ok() {
                    assert(self.out_view() =~= old(self).out_view()
                        + effect_sts(subject.deep_view(), pred_iri(ns, name@),
                            ev.take(i + 1 as int), locale@));
                }
            }
            i = i + 1;
        }
        proof {
            assert(entries.deep_view().take(n as int) =~= entries.deep_view());
        }
    }

    /// Closes the collection: the full statement sequence when every URL
    /// was well-formed, else the identity error for the first malformed
    /// one.
    pub fn finish(self) -> (r: Result<Vec<Statement>, PipelineError>)
        requires
            self.wf(),
        ensures
            match r {
                Ok(v) => all_ok(self.urls_view()) && v.deep_view() == self.out_view(),
                Err(e) => !all_ok(self.urls_view())
                    && e.deep_view() == ErrorV::InvalidIdentity(first_bad(self.urls_view())),
            },
    {
        match self.err {
            None => Ok(self.out),
            Some(e) => Err(e),
        }
    }
}

} // verus!
