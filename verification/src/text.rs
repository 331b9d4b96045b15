//! Building strings in verified code: appending single characters and
//! rendering integers in decimal.

use vstd::prelude::*;
use crate::chars::{dec, digit_char};

verus! {

/// Whether two string slices hold the same characters.
#[verifier::loop_isolation(false)]
pub fn str_eq(a: &str, b: &str) -> (r: bool)
    ensures
        r == (a@ == b@),
{
    let n = a.unicode_len();
    let m = b.unicode_len();
    if n != m {
        proof {
            assert(a@.len() != b@.len());
        }
        return false;
    }
    let mut i: usize = 0;
    while i < n
        invariant
            n == a@.len(),
            n == b@.len(),
            i <= n,
            forall|k: int| 0 <= k < i ==> a@[k] == b@[k],
        decreases n - i,
    {
        if a.get_char(i) != b.get_char(i) {
            proof {
                assert(a@[i as int] != b@[i as int]);
            }
            return false;
        }
        i = i + 1;
    }
    proof {
        assert(a@ =~= b@);
    }
    true
}

/// Relies on String::push: appends one character to the end of the string.
#[verifier::external_body]
pub fn push_char(s: &mut String, c: char)
    ensures
        final(s)@ == old(s)@ + seq![c],
{
    s.push(c);
}

/// The character for the digit `d`, executably.
fn digit(d: u64) -> (c: char)
    requires
        d < 10,
    ensures
        c == digit_char(d as nat),
{
    if d == 0 { '0' }
    else if d == 1 { '1' }
    else if d == 2 { '2' }
    else if d == 3 { '3' }
    else if d == 4 { '4' }
    else if d == 5 { '5' }
    else if d == 6 { '6' }
    else if d == 7 { '7' }
    else if d == 8 { '8' }
    else { '9' }
}

/// Appends the decimal rendering of `n`.
pub fn push_u64(s: &mut String, n: u64)
    ensures
        final(s)@ == old(s)@ + dec(n as nat),
    decreases n,
{
    if n < 10 {
        push_char(s, digit(n));
    } else {
        push_u64(s, n / 10);
        push_char(s, digit(n % 10));
        proof {
            assert(old(s)@ + dec((n / 10) as nat) + seq![digit_char((n % 10) as nat)]
                =~= old(s)@ + dec(n as nat));
        }
    }
}

/// The decimal rendering of `n`.
pub fn fmt_u64(n: u64) -> (s: String)
    ensures
        s@ == dec(n as nat),
{
    let mut s = String::new();
    push_u64(&mut s, n);
    proof {
        assert(Seq::<char>::empty() + dec(n as nat) =~= dec(n as nat));
    }
    s
}

/// The decimal rendering of a possibly negative number: a minus sign
/// followed by the digits of its magnitude.
pub open spec fn dec_i64(n: int) -> Seq<char> {
    if n >= 0 {
        dec(n as nat)
    } else {
        seq!['-'] + dec((-n) as nat)
    }
}

/// Appends the decimal rendering of `n`, with a sign if negative.
pub fn push_i64(s: &mut String, n: i64)
    ensures
        final(s)@ == old(s)@ + dec_i64(n as int),
{
    if n >= 0 {
        push_u64(s, n as u64);
    } else {
        push_char(s, '-');
        let m: u64 = ((-(n + 1)) as u64) + 1;
        push_u64(s, m);
        proof {
            assert(old(s)@ + seq!['-'] + dec(m as nat) =~= old(s)@ + dec_i64(n as int));
        }
    }
}

/// The decimal rendering of `n`.
pub fn fmt_i64(n: i64) -> (s: String)
    ensures
        s@ == dec_i64(n as int),
{
    let mut s = String::new();
    push_i64(&mut s, n);
    proof {
        assert(Seq::<char>::empty() + dec_i64(n as int) =~= dec_i64(n as int));
    }
    s
}

} // verus!
