//! Decimal rendering of an unsigned machine integer as a sequence of digit
//! characters, most significant digit first, with no leading zeros beyond a
//! single `'0'` for the value zero.

use vstd::prelude::*;

verus! {

/// The character for a single decimal digit value.
pub open spec fn digit_char(d: nat) -> char {
    if d == 0 {
        '0'
    } else if d == 1 {
        '1'
    } else if d == 2 {
        '2'
    } else if d == 3 {
        '3'
    } else if d == 4 {
        '4'
    } else if d == 5 {
        '5'
    } else if d == 6 {
        '6'
    } else if d == 7 {
        '7'
    } else if d == 8 {
        '8'
    } else {
        '9'
    }
}

/// Whether a character is one of the ten decimal digit characters.
pub open spec fn is_decimal_digit(c: char) -> bool {
    c == '0' || c == '1' || c == '2' || c == '3' || c == '4' || c == '5' || c == '6' || c == '7'
        || c == '8' || c == '9'
}

/// The plain decimal digit string of `n`: most significant digit first,
/// a single `'0'` when `n` is zero.
pub open spec fn spec_digits(n: nat) -> Seq<char>
    decreases n,
{
    if n < 10 {
        seq![digit_char(n)]
    } else {
        spec_digits(n / 10).push(digit_char(n % 10))
    }
}

/// A decimal digit string is never empty.
pub proof fn lemma_spec_digits_len(n: nat)
    ensures
        spec_digits(n).len() >= 1,
    decreases n,
{
    if n >= 10 {
        lemma_spec_digits_len(n / 10);
    }
}

/// Every character of a decimal digit string is a decimal digit character.
pub proof fn lemma_spec_digits_are_digits(n: nat)
    ensures
        forall|i: int| 0 <= i < spec_digits(n).len() ==> is_decimal_digit(#[trigger] spec_digits(n)[i]),
    decreases n,
{
    if n >= 10 {
        lemma_spec_digits_are_digits(n / 10);
        assert forall|i: int| 0 <= i < spec_digits(n).len() implies is_decimal_digit(
            #[trigger] spec_digits(n)[i],
        ) by {
            if i < spec_digits(n / 10).len() {
                assert(spec_digits(n)[i] == spec_digits(n / 10)[i]);
            } else {
                assert(spec_digits(n)[i] == digit_char(n % 10));
            }
        }
    }
}

fn digit_char_exec(d: u64) -> (c: char)
    requires
        d < 10,
    ensures
        c == digit_char(d as nat),
{
    if d == 0 {
        '0'
    } else if d == 1 {
        '1'
    } else if d == 2 {
        '2'
    } else if d == 3 {
        '3'
    } else if d == 4 {
        '4'
    } else if d == 5 {
        '5'
    } else if d == 6 {
        '6'
    } else if d == 7 {
        '7'
    } else if d == 8 {
        '8'
    } else {
        '9'
    }
}

/// Renders `n` in decimal, most significant digit first.
pub fn digits_of(n: u64) -> (r: Vec<char>)
    ensures
        r@ == spec_digits(n as nat),
    decreases n,
{
    if n < 10 {
        let mut r: Vec<char> = Vec::new();
        r.push(digit_char_exec(n));
        proof {
            assert(r@ =~= spec_digits(n as nat));
        }
        r
    } else {
        let mut r = digits_of(n / 10);
        r.push(digit_char_exec(n % 10));
        r
    }
}

} // verus!
