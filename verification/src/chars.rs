//! Character classes and decimal digit sequences.
//!
//! Anonymous identities are rendered as labels built from alphabetic words
//! and decimal numbers.  The lemmas here — digit sequences are injective,
//! and a concatenation splits uniquely at a character-class boundary — are
//! what the collision-freedom proof for those labels rests on.

use vstd::prelude::*;

verus! {

/// An ASCII decimal digit.
pub open spec fn is_digit(c: char) -> bool {
    '0' <= c && c <= '9'
}

/// An ASCII letter.
pub open spec fn is_alpha(c: char) -> bool {
    ('a' <= c && c <= 'z') || ('A' <= c && c <= 'Z')
}

/// Every character of `s` is an ASCII letter.
pub open spec fn all_alpha(s: Seq<char>) -> bool {
    forall|i: int| 0 <= i < s.len() ==> is_alpha(#[trigger] s[i])
}

/// The character for the decimal digit `d`.
pub open spec fn digit_char(d: nat) -> char {
    if d == 0 { '0' }
    else if d == 1 { '1' }
    else if d == 2 { '2' }
    else if d == 3 { '3' }
    else if d == 4 { '4' }
    else if d == 5 { '5' }
    else if d == 6 { '6' }
    else if d == 7 { '7' }
    else if d == 8 { '8' }
    else { '9' }
}

/// The decimal rendering of `n`: most significant digit first, no leading
/// zeros (`0` renders as "0").
pub open spec fn dec(n: nat) -> Seq<char>
    decreases n,
{
    if n < 10 {
        seq![digit_char(n)]
    } else {
        dec(n / 10) + seq![digit_char(n % 10)]
    }
}

/// A decimal rendering is nonempty and consists of digits only.
pub proof fn lemma_dec_digits(n: nat)
    ensures
        dec(n).len() >= 1,
        forall|i: int| 0 <= i < dec(n).len() ==> is_digit(#[trigger] dec(n)[i]),
    decreases n,
{
    if n >= 10 {
        lemma_dec_digits(n / 10);
    }
}

/// Distinct numbers have distinct decimal renderings.
pub proof fn lemma_dec_injective(a: nat, b: nat)
    requires
        dec(a) == dec(b),
    ensures
        a == b,
    decreases a,
{
    lemma_dec_digits(a);
    lemma_dec_digits(b);
    if a < 10 && b < 10 {
        assert(dec(a) == seq![digit_char(a)]);
        assert(dec(b) == seq![digit_char(b)]);
        assert(seq![digit_char(a)][0] == seq![digit_char(b)][0]);
        assert(digit_char(a) == digit_char(b));
        assert(a == b);
    } else if a < 10 && b >= 10 {
        lemma_dec_digits(b / 10);
        assert(dec(a) == seq![digit_char(a)]);
        assert(dec(b) == dec(b / 10) + seq![digit_char(b % 10)]);
        assert(dec(b).len() >= 2);
        assert(false);
    } else if a >= 10 && b < 10 {
        lemma_dec_digits(a / 10);
        assert(dec(b) == seq![digit_char(b)]);
        assert(dec(a) == dec(a / 10) + seq![digit_char(a % 10)]);
        assert(dec(a).len() >= 2);
        assert(false);
    } else {
        assert(dec(a) == dec(a / 10) + seq![digit_char(a % 10)]);
        assert(dec(b) == dec(b / 10) + seq![digit_char(b % 10)]);
        assert(dec(a).last() == digit_char(a % 10));
        assert(dec(b).last() == digit_char(b % 10));
        assert(a % 10 == b % 10);
        assert(dec(a).drop_last() =~= dec(a / 10));
        assert(dec(b).drop_last() =~= dec(b / 10));
        lemma_dec_injective(a / 10, b / 10);
        assert(a == 10 * (a / 10) + a % 10);
        assert(b == 10 * (b / 10) + b % 10);
    }
}

/// Sequence concatenation is associative.
pub proof fn lemma_concat_assoc<A>(x: Seq<A>, y: Seq<A>, z: Seq<A>)
    ensures
        (x + y) + z == x + (y + z),
{
    assert((x + y) + z =~= x + (y + z));
}

/// A concatenation splits uniquely at the boundary of a character class:
/// if the left parts consist of class-`c` characters only and the right
/// parts are empty or start outside the class, equal concatenations have
/// equal parts.
pub proof fn lemma_class_split(
    s1: Seq<char>,
    t1: Seq<char>,
    s2: Seq<char>,
    t2: Seq<char>,
    c: spec_fn(char) -> bool,
)
    requires
        s1 + t1 == s2 + t2,
        forall|i: int| 0 <= i < s1.len() ==> c(#[trigger] s1[i]),
        forall|i: int| 0 <= i < s2.len() ==> c(#[trigger] s2[i]),
        t1.len() > 0 ==> !c(t1[0]),
        t2.len() > 0 ==> !c(t2[0]),
    ensures
        s1 == s2,
        t1 == t2,
{
    assert((s1 + t1).len() == s1.len() + t1.len());
    assert((s2 + t2).len() == s2.len() + t2.len());
    assert(s1.len() + t1.len() == s2.len() + t2.len());
    if s1.len() < s2.len() {
        assert(t1.len() > 0);
        assert((s1 + t1)[s1.len() as int] == t1[0]);
        assert((s2 + t2)[s1.len() as int] == s2[s1.len() as int]);
        assert(false);
    }
    if s2.len() < s1.len() {
        assert(t2.len() > 0);
        assert((s2 + t2)[s2.len() as int] == t2[0]);
        assert((s1 + t1)[s2.len() as int] == s1[s2.len() as int]);
        assert(false);
    }
    assert(s1 =~= s2) by {
        assert(forall|i: int| 0 <= i < s1.len() ==> (s1 + t1)[i] == #[trigger] s1[i]);
        assert(forall|i: int| 0 <= i < s2.len() ==> (s2 + t2)[i] == #[trigger] s2[i]);
    }
    assert(t1 =~= t2) by {
        assert(forall|i: int| 0 <= i < t1.len() ==> (s1 + t1)[s1.len() + i] == #[trigger] t1[i]);
        assert(forall|i: int| 0 <= i < t2.len() ==> (s2 + t2)[s2.len() + i] == #[trigger] t2[i]);
    }
}

} // verus!
