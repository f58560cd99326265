//! The formatter's general laws, each proved once and for all inputs.

use vstd::prelude::*;
use crate::digits;
use crate::grouping;
use crate::Amount;
use crate::spec_integer_part;
use crate::spec_decimal_part;
use crate::spec_endinero;

verus! {

/// Grouping correctness: the integer part of a non-negative amount whose
/// magnitude renders as `d` decimal digits holds exactly `(d - 1) / 3`
/// separators among `d + (d - 1) / 3` characters, and, counted from the right
/// end, every position `j` with `j % 4 == 3` holds the thousands separator
/// while every other position `j` holds the digit standing `j - j / 4` places
/// from the digit string's right end: separators sit exactly three digits
/// apart, counted from the right.
pub proof fn lemma_integer_grouping(int_mag: nat, thousands_separator: char)
    ensures
        spec_integer_part(false, int_mag, thousands_separator).len() == digits::spec_digits(
            int_mag,
        ).len() + (digits::spec_digits(int_mag).len() - 1) / 3,
        forall|j: int|
            0 <= j < spec_integer_part(false, int_mag, thousands_separator).len()
                ==> #[trigger] grouping::char_from_right(
                spec_integer_part(false, int_mag, thousands_separator),
                j,
            ) == (if j % 4 == 3 {
                thousands_separator
            } else {
                grouping::char_from_right(digits::spec_digits(int_mag), j - j / 4)
            }),
{
    let ds = digits::spec_digits(int_mag);
    digits::lemma_spec_digits_len(int_mag);
    grouping::lemma_group_right_positions(ds, thousands_separator);
    assert(spec_integer_part(false, int_mag, thousands_separator) =~= grouping::spec_group_right(
        ds,
        thousands_separator,
    ));
}

/// Sign placement: the formatted result is never empty, and its first
/// character is `'-'` exactly when the amount is negative — also when the
/// truncated magnitude is zero, as for a small negative fraction.
pub proof fn lemma_sign_placement(
    amount: Amount,
    max_decimal_places: nat,
    zero_comma_decimal_places: nat,
    thousands_separator: char,
    radix_character: char,
    decimals_separator: char,
)
    ensures
        spec_endinero(
            amount,
            max_decimal_places,
            zero_comma_decimal_places,
            thousands_separator,
            radix_character,
            decimals_separator,
        ).len() > 0,
        amount.negative <==> spec_endinero(
            amount,
            max_decimal_places,
            zero_comma_decimal_places,
            thousands_separator,
            radix_character,
            decimals_separator,
        ).first() == '-',
{
    let n = amount.int_mag as nat;
    let ds = digits::spec_digits(n);
    digits::lemma_spec_digits_len(n);
    grouping::lemma_group_right_first(ds, thousands_separator);
    let ip = spec_integer_part(amount.negative, n, thousands_separator);
    let whole = spec_endinero(
        amount,
        max_decimal_places,
        zero_comma_decimal_places,
        thousands_separator,
        radix_character,
        decimals_separator,
    );
    assert(whole.first() == ip.first());
    if !amount.negative {
        digits::lemma_spec_digits_are_digits(n);
        assert(ip.first() == ds.first());
        assert(digits::is_decimal_digit(ds[0]));
    }
}

/// Magnitude-dependent precision: an amount below one in magnitude is
/// formatted under the sub-unity digit budget alone — the general budget does
/// not influence the result — and an amount of magnitude one or more is
/// formatted under the general budget alone.
pub proof fn lemma_precision_by_magnitude(
    amount: Amount,
    max_a: nat,
    max_b: nat,
    zero_comma_a: nat,
    zero_comma_b: nat,
    thousands_separator: char,
    radix_character: char,
    decimals_separator: char,
)
    ensures
        amount.int_mag == 0 ==> spec_endinero(
            amount,
            max_a,
            zero_comma_a,
            thousands_separator,
            radix_character,
            decimals_separator,
        ) == spec_endinero(
            amount,
            max_b,
            zero_comma_a,
            thousands_separator,
            radix_character,
            decimals_separator,
        ),
        amount.int_mag != 0 ==> spec_endinero(
            amount,
            max_a,
            zero_comma_a,
            thousands_separator,
            radix_character,
            decimals_separator,
        ) == spec_endinero(
            amount,
            max_a,
            zero_comma_b,
            thousands_separator,
            radix_character,
            decimals_separator,
        ),
{
}

/// Truncation, not rounding: the decimal part reads only the first
/// `total_decimals` characters of the fractional digit expansion; whatever
/// stands beyond the budget cannot influence the result — digits are dropped,
/// never rounded up.
pub proof fn lemma_truncation_not_rounding(
    frac_a: Seq<char>,
    frac_b: Seq<char>,
    total_decimals: nat,
    decimals_separator: char,
)
    requires
        total_decimals <= frac_a.len(),
        total_decimals <= frac_b.len(),
        frac_a.take(total_decimals as int) == frac_b.take(total_decimals as int),
    ensures
        spec_decimal_part(frac_a, total_decimals, decimals_separator) == spec_decimal_part(
            frac_b,
            total_decimals,
            decimals_separator,
        ),
{
}

/// Trailing-fill trimming: a decimal part of more than one character never
/// ends in `'0'` nor in the group separator.
pub proof fn lemma_decimal_part_trimmed(
    frac: Seq<char>,
    total_decimals: nat,
    decimals_separator: char,
)
    ensures
        spec_decimal_part(frac, total_decimals, decimals_separator).len() > 1 ==> (
        spec_decimal_part(frac, total_decimals, decimals_separator).last() != '0'
            && spec_decimal_part(frac, total_decimals, decimals_separator).last()
            != decimals_separator),
{
    if total_decimals > 0 {
        let budget: int = if total_decimals <= frac.len() {
            total_decimals as int
        } else {
            frac.len() as int
        };
        grouping::lemma_trim_filler_last(
            grouping::spec_group_left(frac.take(budget), decimals_separator),
            decimals_separator,
        );
    }
}

/// Idempotence: the formatted result is a function of the arguments alone.
/// Any two results that satisfy the formatter's postcondition on identical
/// arguments are character-for-character identical, so repeated calls cannot
/// drift.
pub proof fn lemma_format_deterministic(
    amount: Amount,
    max_decimal_places: nat,
    zero_comma_decimal_places: nat,
    thousands_separator: char,
    radix_character: char,
    decimals_separator: char,
    result_a: Seq<char>,
    result_b: Seq<char>,
)
    requires
        result_a == spec_endinero(
            amount,
            max_decimal_places,
            zero_comma_decimal_places,
            thousands_separator,
            radix_character,
            decimals_separator,
        ),
        result_b == spec_endinero(
            amount,
            max_decimal_places,
            zero_comma_decimal_places,
            thousands_separator,
            radix_character,
            decimals_separator,
        ),
    ensures
        result_a == result_b,
{
}

} // verus!
