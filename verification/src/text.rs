//! Building blocks for the status strings the library hands to its callers:
//! decimal rendering of error codes and single-character appends.

use vstd::prelude::*;
use vstd::std_specs::iter::IteratorSpec;

verus! {

broadcast use vstd::string::next_postcondition, vstd::string::axiom_spec_iter;

/// The characters of `s`, one vector element per character.
pub fn str_chars(s: &str) -> (v: Vec<char>)
    ensures
        v@ == s@,
{
    let mut it = s.chars();
    let mut v: Vec<char> = Vec::new();
    loop
        invariant
            v@ + it.remaining() == s@,
            it.decrease() is Some,
        ensures
            v@ == s@,
        decreases it.decrease()->0,
    {
        match it.next() {
            Some(c) => {
                v.push(c);
                proof {
                    assert(v@ + it.remaining() =~= s@);
                }
            },
            None => {
                proof {
                    assert(v@ =~= s@);
                }
                break;
            },
        }
    }
    v
}

/// The decimal digit character for `d`.
pub open spec fn digit_char(d: int) -> char
    recommends
        0 <= d < 10,
{
    (('0' as u8) + d as u8) as char
}

/// The decimal rendering of `n`, most significant digit first.
pub open spec fn dec_str(n: nat) -> Seq<char>
    decreases n,
{
    if n < 10 {
        seq![digit_char(n as int)]
    } else {
        dec_str((n / 10) as nat).push(digit_char((n % 10) as int))
    }
}

/// Relies on String::push: appends exactly one character.
#[verifier::external_body]
pub(crate) fn push_char(s: &mut String, c: char)
    ensures
        final(s)@ == old(s)@.push(c),
{
    s.push(c)
}

/// Renders `n` in decimal, most significant digit first.
pub fn u32_to_decimal(n: u32) -> (s: String)
    ensures
        s@ == dec_str(n as nat),
{
    let mut digits: Vec<char> = Vec::new();
    let mut m: u32 = n;
    while m >= 10
        invariant
            dec_str(n as nat) == dec_str(m as nat) + digits@.reverse(),
        decreases m,
    {
        let d: u8 = (m % 10) as u8;
        let ghost old_digits = digits@;
        digits.push((('0' as u8) + d) as char);
        proof {
            assert(digits@.reverse() =~= seq![digit_char((m % 10) as int)] + old_digits.reverse());
            assert(dec_str(m as nat) == dec_str((m / 10) as nat).push(digit_char((m % 10) as int)));
            assert(dec_str((m / 10) as nat).push(digit_char((m % 10) as int)) + old_digits.reverse()
                =~= dec_str((m / 10) as nat) + digits@.reverse());
        }
        m = m / 10;
    }
    let d: u8 = (m % 10) as u8;
    let ghost old_digits = digits@;
    digits.push((('0' as u8) + d) as char);
    proof {
        assert(dec_str(m as nat) == seq![digit_char(m as int)]);
        assert(m % 10 == m as int);
        assert(digits@.reverse() =~= seq![digit_char(m as int)] + old_digits.reverse());
        assert(dec_str(m as nat) + old_digits.reverse() =~= digits@.reverse());
        assert(dec_str(n as nat) == digits@.reverse());
    }
    let mut s = String::new();
    let mut i: usize = digits.len();
    while i > 0
        invariant
            i <= digits@.len(),
            s@ == digits@.subrange(i as int, digits@.len() as int).reverse(),
        decreases i,
    {
        i = i - 1;
        let ghost old_s = s@;
        push_char(&mut s, digits[i]);
        proof {
            assert(s@ =~= digits@.subrange(i as int, digits@.len() as int).reverse());
        }
    }
    proof {
        assert(digits@.subrange(0, digits@.len() as int) =~= digits@);
    }
    s
}

} // verus!
