//! The canonical line encoding of statements.
//!
//! One statement becomes one line: subject, predicate and object in their
//! canonical textual forms, separated by single spaces and terminated by
//! the statement-end marker.  Named references render as `<iri>`,
//! anonymous references as `_:label`, text literals as quoted strings
//! with the usual escapes, integers and booleans as quoted lexical values
//! tagged with their datatype IRI.

use vstd::prelude::*;
use crate::chars::lemma_concat_assoc;
use crate::ident::{label_of, AnonId};
use crate::statement::{EntityRef, RefV, Statement, StatementV, Term, TermV};
use crate::text::{dec_i64, push_char, push_i64};

verus! {

/// The character for the hexadecimal digit `d`, upper case.
pub open spec fn hex_char(d: nat) -> char {
    if d == 0 { '0' }
    else if d == 1 { '1' }
    else if d == 2 { '2' }
    else if d == 3 { '3' }
    else if d == 4 { '4' }
    else if d == 5 { '5' }
    else if d == 6 { '6' }
    else if d == 7 { '7' }
    else if d == 8 { '8' }
    else if d == 9 { '9' }
    else if d == 10 { 'A' }
    else if d == 11 { 'B' }
    else if d == 12 { 'C' }
    else if d == 13 { 'D' }
    else if d == 14 { 'E' }
    else { 'F' }
}

/// Four hexadecimal digits of `n`, most significant first.
pub open spec fn hex4(n: nat) -> Seq<char> {
    seq![
        hex_char(n / 0x1000 % 16),
        hex_char(n / 0x100 % 16),
        hex_char(n / 0x10 % 16),
        hex_char(n % 16),
    ]
}

/// The escape of one character inside a quoted text literal.
pub open spec fn esc_char(c: char) -> Seq<char> {
    if c == '\u{8}' { seq!['\\', 'b'] }
    else if c == '\t' { seq!['\\', 't'] }
    else if c == '\n' { seq!['\\', 'n'] }
    else if c == '\u{c}' { seq!['\\', 'f'] }
    else if c == '\r' { seq!['\\', 'r'] }
    else if c == '"' { seq!['\\', '"'] }
    else if c == '\\' { seq!['\\', '\\'] }
    else if c as u32 <= 0x1f || c as u32 == 0x7f || c as u32 == 0xfffe || c as u32 == 0xffff {
        seq!['\\', 'u'] + hex4(c as u32 as nat)
    } else {
        seq![c]
    }
}

/// The escaped body of a quoted text literal.
pub open spec fn esc_text(s: Seq<char>) -> Seq<char>
    decreases s.len(),
{
    if s.len() == 0 {
        Seq::empty()
    } else {
        esc_char(s[0]) + esc_text(s.drop_first())
    }
}

/// Escaping a text one character longer appends that character's escape.
proof fn lemma_esc_snoc(s: Seq<char>, c: char)
    ensures
        esc_text(s.push(c)) == esc_text(s) + esc_char(c),
    decreases s.len(),
{
    assert(s.push(c).len() == s.len() + 1);
    assert(esc_text(s.push(c)) == esc_char(s.push(c)[0]) + esc_text(s.push(c).drop_first()));
    if s.len() == 0 {
        assert(s.push(c)[0] == c);
        assert(s.push(c).drop_first() =~= Seq::<char>::empty());
        assert(esc_char(c) + Seq::<char>::empty() =~= esc_char(c));
        assert(Seq::<char>::empty() + esc_char(c) =~= esc_char(c));
        assert(esc_text(s) == Seq::<char>::empty());
    } else {
        assert(s.push(c).drop_first() =~= s.drop_first().push(c));
        lemma_esc_snoc(s.drop_first(), c);
        lemma_concat_assoc(esc_char(s[0]), esc_text(s.drop_first()), esc_char(c));
        assert(s.push(c)[0] == s[0]);
        assert(esc_text(s) == esc_char(s[0]) + esc_text(s.drop_first()));
    }
}

/// The character for the hexadecimal digit `d`, executably.
fn hex_digit(d: u32) -> (c: char)
    requires
        d < 16,
    ensures
        c == hex_char(d as nat),
{
    if d == 0 { '0' }
    else if d == 1 { '1' }
    else if d == 2 { '2' }
    else if d == 3 { '3' }
    else if d == 4 { '4' }
    else if d == 5 { '5' }
    else if d == 6 { '6' }
    else if d == 7 { '7' }
    else if d == 8 { '8' }
    else if d == 9 { '9' }
    else if d == 10 { 'A' }
    else if d == 11 { 'B' }
    else if d == 12 { 'C' }
    else if d == 13 { 'D' }
    else if d == 14 { 'E' }
    else { 'F' }
}

/// Appends the escape of one character.
fn push_esc_char(out: &mut String, c: char)
    ensures
        final(out)@ == old(out)@ + esc_char(c),
{
    if c == '\u{8}' {
        push_char(out, '\\');
        push_char(out, 'b');
    } else if c == '\t' {
        push_char(out, '\\');
        push_char(out, 't');
    } else if c == '\n' {
        push_char(out, '\\');
        push_char(out, 'n');
    } else if c == '\u{c}' {
        push_char(out, '\\');
        push_char(out, 'f');
    } else if c == '\r' {
        push_char(out, '\\');
        push_char(out, 'r');
    } else if c == '"' {
        push_char(out, '\\');
        push_char(out, '"');
    } else if c == '\\' {
        push_char(out, '\\');
        push_char(out, '\\');
    } else {
        let code = c as u32;
        if code <= 0x1f || code == 0x7f || code == 0xfffe || code == 0xffff {
            push_char(out, '\\');
            push_char(out, 'u');
            push_char(out, hex_digit(code / 0x1000 % 16));
            push_char(out, hex_digit(code / 0x100 % 16));
            push_char(out, hex_digit(code / 0x10 % 16));
            push_char(out, hex_digit(code % 16));
            proof {
                assert(final(out)@ =~= old(out)@ + esc_char(c));
            }
        } else {
            push_char(out, c);
        }
    }
    proof {
        assert(final(out)@ =~= old(out)@ + esc_char(c));
    }
}

/// Appends the escaped form of `s`.
fn push_escaped(out: &mut String, s: &str)
    ensures
        final(out)@ == old(out)@ + esc_text(s@),
{
    let n = s.unicode_len();
    let mut i: usize = 0;
    while i < n
        invariant
            n == s@.len(),
            i <= n,
            out@ == old(out)@ + esc_text(s@.take(i as int)),
        decreases n - i,
    {
        let c = s.get_char(i);
        push_esc_char(out, c);
        proof {
            assert(s@.take(i + 1 as int) =~= s@.take(i as int).push(c));
            lemma_esc_snoc(s@.take(i as int), c);
            lemma_concat_assoc(old(out)@, esc_text(s@.take(i as int)), esc_char(c));
        }
        i = i + 1;
    }
    proof {
        assert(s@.take(n as int) =~= s@);
        assert(Seq::<char>::empty() + esc_text(s@) =~= esc_text(s@));
    }
}

/// The encoding of an IRI: the IRI between angle brackets.
pub open spec fn enc_iri(s: Seq<char>) -> Seq<char> {
    seq!['<'] + s + seq!['>']
}

/// The encoding of an entity reference.
pub open spec fn enc_ref(r: RefV) -> Seq<char> {
    match r {
        RefV::Named(iri) => enc_iri(iri),
        RefV::Anonymous(segs) => seq!['_', ':'] + label_of(segs),
    }
}

/// The datatype IRI of integer literals.
pub open spec fn xsd_integer() -> Seq<char> {
    "http://www.w3.org/2001/XMLSchema#integer"@
}

/// The datatype IRI of boolean literals.
pub open spec fn xsd_boolean() -> Seq<char> {
    "http://www.w3.org/2001/XMLSchema#boolean"@
}

/// The encoding of a term in object position.
pub open spec fn enc_term(t: TermV) -> Seq<char> {
    match t {
        TermV::Entity(r) => enc_ref(r),
        TermV::Text(s) => seq!['"'] + esc_text(s) + seq!['"'],
        TermV::Int(i) => seq!['"'] + dec_i64(i) + seq!['"', '^', '^'] + enc_iri(xsd_integer()),
        TermV::Bool(b) => seq!['"'] + (if b { "true"@ } else { "false"@ })
            + seq!['"', '^', '^'] + enc_iri(xsd_boolean()),
    }
}

/// The line encoding of a statement: subject, predicate and object,
/// space-separated, closed by the statement-end marker.
pub open spec fn enc_statement(s: StatementV) -> Seq<char> {
    enc_ref(s.subject) + seq![' '] + enc_iri(s.predicate) + seq![' '] + enc_term(s.object)
        + seq![' ', '.']
}

/// Appends the encoding of an IRI.
fn push_iri(out: &mut String, iri: &str)
    ensures
        final(out)@ == old(out)@ + enc_iri(iri@),
{
    push_char(out, '<');
    out.append(iri);
    push_char(out, '>');
    proof {
        assert(final(out)@ =~= old(out)@ + enc_iri(iri@));
    }
}

/// Appends the encoding of an entity reference.
fn push_ref(out: &mut String, r: &EntityRef)
    ensures
        final(out)@ == old(out)@ + enc_ref(r.deep_view()),
{
    match r {
        EntityRef::Named(iri) => {
            push_iri(out, iri.as_str());
        }
        EntityRef::Anonymous(id) => {
            push_char(out, '_');
            push_char(out, ':');
            let label = id.label();
            out.append(label.as_str());
            proof {
                assert(final(out)@ =~= old(out)@ + enc_ref(r.deep_view()));
            }
        }
    }
}

/// Appends the encoding of a term.
fn push_term(out: &mut String, t: &Term)
    ensures
        final(out)@ == old(out)@ + enc_term(t.deep_view()),
{
    match t {
        Term::Entity(r) => {
            push_ref(out, r);
        }
        Term::Text(s) => {
            push_char(out, '"');
            push_escaped(out, s.as_str());
            push_char(out, '"');
            proof {
                assert(final(out)@ =~= old(out)@ + enc_term(t.deep_view()));
            }
        }
        Term::UInt(n) => {
            push_char(out, '"');
            crate::text::push_u64(out, *n);
            push_char(out, '"');
            push_char(out, '^');
            push_char(out, '^');
            push_iri(out, "http://www.w3.org/2001/XMLSchema#integer");
            proof {
                assert(final(out)@ =~= old(out)@ + enc_term(t.deep_view()));
            }
        }
        Term::Int(i) => {
            push_char(out, '"');
            push_i64(out, *i);
            push_char(out, '"');
            push_char(out, '^');
            push_char(out, '^');
            push_iri(out, "http://www.w3.org/2001/XMLSchema#integer");
            proof {
                assert(final(out)@ =~= old(out)@ + enc_term(t.deep_view()));
            }
        }
        Term::Bool(b) => {
            push_char(out, '"');
            if *b {
                out.append("true");
            } else {
                out.append("false");
            }
            push_char(out, '"');
            push_char(out, '^');
            push_char(out, '^');
            push_iri(out, "http://www.w3.org/2001/XMLSchema#boolean");
            proof {
                assert(final(out)@ =~= old(out)@ + enc_term(t.deep_view()));
            }
        }
    }
}

/// Serializes one statement to its line form.
pub fn encode_statement(s: &Statement) -> (line: String)
    ensures
        line@ == enc_statement(s.deep_view()),
{
    let mut out = String::new();
    push_ref(&mut out, &s.subject);
    push_char(&mut out, ' ');
    push_iri(&mut out, s.predicate.as_str());
    push_char(&mut out, ' ');
    push_term(&mut out, &s.object);
    push_char(&mut out, ' ');
    push_char(&mut out, '.');
    proof {
        assert(out@ =~= enc_statement(s.deep_view()));
    }
    out
}

} // verus!
