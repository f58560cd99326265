//! Locale-flavored display formatting for numeric amounts: thousands
//! separators in the integer portion, a magnitude-dependent decimal digit
//! budget with pure truncation (no rounding), trailing-filler trimming, and
//! caller-chosen separator characters.
//!
//! The formatter works on an [`Amount`]: the sign, the truncated integer
//! magnitude, and a fixed-width decimal digit expansion of the fractional
//! portion of the value to display. Extracting those three pieces from a
//! floating-point value is the caller's one unverified step; everything the
//! formatter does with them is specified and proved here.

pub mod digits;
pub mod grouping;
pub mod laws;
mod text;

use vstd::prelude::*;

verus! {

/// A decomposed amount: everything the formatter reads of a finite
/// floating-point value.
///
/// `negative` says whether the original value compared strictly less than
/// zero; a `-0.0001` is negative even though it truncates to zero, while a
/// literal `-0.0` is not. `int_mag` is the truncated absolute value.
/// `frac` holds the fractional digit expansion, most significant fractional
/// digit first, rendered at the source type's safe width (seventeen digits
/// for a double-precision value, seven for single precision); digits past
/// the safe width are reproducible noise, not reliable data.
pub struct Amount {
    /// Whether the original value compared strictly less than zero.
    pub negative: bool,
    /// The truncated absolute value.
    pub int_mag: u64,
    /// The fixed-width fractional digit expansion, leftmost digit first.
    pub frac: Vec<char>,
}

impl Amount {
    /// Packs the three pieces of a decomposed amount.
    pub fn new(negative: bool, int_mag: u64, frac: Vec<char>) -> (a: Amount)
        ensures
            a.negative == negative,
            a.int_mag == int_mag,
            a.frac == frac,
    {
        Amount { negative, int_mag, frac }
    }
}

/// The integer part of the formatted result: the decimal digits of `int_mag`
/// grouped into triples from the right by the thousands separator, with a
/// leading `'-'` exactly when the amount is negative.
pub open spec fn spec_integer_part(negative: bool, int_mag: nat, thousands_separator: char) -> Seq<
    char,
> {
    (if negative {
        seq!['-']
    } else {
        Seq::<char>::empty()
    }) + grouping::spec_group_right(digits::spec_digits(int_mag), thousands_separator)
}

/// The decimal part of the formatted result: the first `total_decimals`
/// characters of the fractional digit expansion (all of it when it is
/// shorter), grouped into triples from the left by the group separator, with
/// trailing `'0'` and separator characters trimmed down to at least one
/// character. A zero digit budget yields the empty string.
pub open spec fn spec_decimal_part(
    frac: Seq<char>,
    total_decimals: nat,
    decimals_separator: char,
) -> Seq<char> {
    if total_decimals == 0 {
        Seq::<char>::empty()
    } else {
        let budget: int = if total_decimals <= frac.len() {
            total_decimals as int
        } else {
            frac.len() as int
        };
        grouping::spec_trim_filler(
            grouping::spec_group_left(frac.take(budget), decimals_separator),
            decimals_separator,
        )
    }
}

/// The whole formatted result: integer part, radix character, then the
/// decimal part under the digit budget the magnitude selects — the sub-unity
/// budget when the truncated magnitude is zero (exactly when the absolute
/// value is below one), the general budget otherwise.
pub open spec fn spec_endinero(
    amount: Amount,
    max_decimal_places: nat,
    zero_comma_decimal_places: nat,
    thousands_separator: char,
    radix_character: char,
    decimals_separator: char,
) -> Seq<char> {
    spec_integer_part(amount.negative, amount.int_mag as nat, thousands_separator) + seq![
        radix_character,
    ] + spec_decimal_part(
        amount.frac@,
        if amount.int_mag == 0 {
            zero_comma_decimal_places
        } else {
            max_decimal_places
        },
        decimals_separator,
    )
}

fn integer_part_chars(negative: bool, int_mag: u64, thousands_separator: char) -> (r: Vec<char>)
    ensures
        r@ == spec_integer_part(negative, int_mag as nat, thousands_separator),
{
    let ds = digits::digits_of(int_mag);
    let mut grouped = grouping::group_right(&ds, thousands_separator);
    let mut r: Vec<char> = Vec::new();
    if negative {
        r.push('-');
    }
    r.append(&mut grouped);
    proof {
        assert(r@ =~= spec_integer_part(negative, int_mag as nat, thousands_separator));
    }
    r
}

fn decimal_part_chars(frac: &Vec<char>, total_decimals: u16, decimals_separator: char) -> (r: Vec<
    char,
>)
    ensures
        r@ == spec_decimal_part(frac@, total_decimals as nat, decimals_separator),
{
    if total_decimals == 0 {
        Vec::new()
    } else {
        let budget: usize = if (total_decimals as usize) <= frac.len() {
            total_decimals as usize
        } else {
            frac.len()
        };
        let prefix = grouping::take_prefix(frac, budget);
        let grouped = grouping::group_left(&prefix, decimals_separator);
        grouping::trim_filler(grouped, decimals_separator)
    }
}

/// Formats the integer portion of an amount: the decimal digits of `int_mag`
/// with `thousands_separator` inserted every three digits counted from the
/// right, and a leading `'-'` exactly when `negative` holds — also for a
/// truncated magnitude of zero.
pub fn integer_part(negative: bool, int_mag: u64, thousands_separator: char) -> (r: String)
    ensures
        r@ == spec_integer_part(negative, int_mag as nat, thousands_separator),
{
    let chars = integer_part_chars(negative, int_mag, thousands_separator);
    text::chars_to_string(&chars)
}

/// Formats the fractional portion of an amount from its digit expansion: up
/// to `total_decimals` digits, grouped into triples from the left by
/// `decimals_separator`, with trailing `'0'` and separator filler trimmed.
pub fn decimal_part(frac: &Vec<char>, total_decimals: u16, decimals_separator: char) -> (r: String)
    ensures
        r@ == spec_decimal_part(frac@, total_decimals as nat, decimals_separator),
{
    let chars = decimal_part_chars(frac, total_decimals, decimals_separator);
    text::chars_to_string(&chars)
}

fn endinero(
    amount: &Amount,
    max_decimal_places: u16,
    zero_comma_decimal_places: u16,
    thousands_separator: char,
    radix_character: char,
    decimals_separator: char,
) -> (r: String)
    ensures
        r@ == spec_endinero(
            *amount,
            max_decimal_places as nat,
            zero_comma_decimal_places as nat,
            thousands_separator,
            radix_character,
            decimals_separator,
        ),
{
    let mut out = integer_part_chars(amount.negative, amount.int_mag, thousands_separator);
    out.push(radix_character);
    let total_decimals: u16 = if amount.int_mag == 0 {
        zero_comma_decimal_places
    } else {
        max_decimal_places
    };
    let mut dec = decimal_part_chars(&amount.frac, total_decimals, decimals_separator);
    out.append(&mut dec);
    proof {
        assert(out@ =~= spec_endinero(
            *amount,
            max_decimal_places as nat,
            zero_comma_decimal_places as nat,
            thousands_separator,
            radix_character,
            decimals_separator,
        ));
    }
    text::chars_to_string(&out)
}

/// Formats a double-precision amount decomposition with caller-chosen
/// separator characters and decimal precision policy: `max_decimal_places`
/// fractional digits when the magnitude is one or more,
/// `zero_comma_decimal_places` when it is below one.
pub fn endinero_f64(
    amount: &Amount,
    max_decimal_places: u16,
    zero_comma_decimal_places: u16,
    thousands_separator: char,
    radix_character: char,
    decimals_separator: char,
) -> (r: String)
    ensures
        r@ == spec_endinero(
            *amount,
            max_decimal_places as nat,
            zero_comma_decimal_places as nat,
            thousands_separator,
            radix_character,
            decimals_separator,
        ),
{
    endinero(
        amount,
        max_decimal_places,
        zero_comma_decimal_places,
        thousands_separator,
        radix_character,
        decimals_separator,
    )
}

/// Formats a single-precision amount decomposition with caller-chosen
/// separator characters and decimal precision policy. The pipeline is the
/// same as for double precision; the `Amount` is expected to carry the
/// seven-digit fractional expansion that a single-precision value supports.
pub fn endinero_f32(
    amount: &Amount,
    max_decimal_places: u16,
    zero_comma_decimal_places: u16,
    thousands_separator: char,
    radix_character: char,
    decimals_separator: char,
) -> (r: String)
    ensures
        r@ == spec_endinero(
            *amount,
            max_decimal_places as nat,
            zero_comma_decimal_places as nat,
            thousands_separator,
            radix_character,
            decimals_separator,
        ),
{
    endinero(
        amount,
        max_decimal_places,
        zero_comma_decimal_places,
        thousands_separator,
        radix_character,
        decimals_separator,
    )
}

/// Spanish-style money format for a double-precision decomposition:
/// thousands `'.'`, radix `','`, decimal groups `' '`; two decimal places for
/// magnitudes of one or more, up to seventeen below one.
pub fn dinero_f64(amount: &Amount) -> (r: String)
    ensures
        r@ == spec_endinero(*amount, 2, 17, '.', ',', ' '),
{
    endinero_f64(amount, 2, 17, '.', ',', ' ')
}

/// Spanish-style money format for a single-precision decomposition:
/// thousands `'.'`, radix `','`, decimal groups `' '`; two decimal places for
/// magnitudes of one or more, up to seven below one.
pub fn dinero_f32(amount: &Amount) -> (r: String)
    ensures
        r@ == spec_endinero(*amount, 2, 7, '.', ',', ' '),
{
    endinero_f32(amount, 2, 7, '.', ',', ' ')
}

/// US-style money format for a double-precision decomposition: thousands
/// `','`, radix `'.'`, decimal groups `' '`; two decimal places for
/// magnitudes of one or more, up to seventeen below one.
pub fn money_f64(amount: &Amount) -> (r: String)
    ensures
        r@ == spec_endinero(*amount, 2, 17, ',', '.', ' '),
{
    endinero_f64(amount, 2, 17, ',', '.', ' ')
}

/// US-style money format for a single-precision decomposition: thousands
/// `','`, radix `'.'`, decimal groups `' '`; two decimal places for
/// magnitudes of one or more, up to seven below one.
pub fn money_f32(amount: &Amount) -> (r: String)
    ensures
        r@ == spec_endinero(*amount, 2, 7, ',', '.', ' '),
{
    endinero_f64(amount, 2, 7, ',', '.', ' ')
}

} // verus!
