use vstd::prelude::*;
use vstd::std_specs::iter::IteratorSpec;

verus! {

/// `String::push` appends one character to the end of the string.
pub assume_specification[ String::push ](text: &mut String, c: char)
    ensures
        final(text)@ == old(text)@.push(c),
;

/// The characters of a string, in order.
pub(crate) fn to_chars(text: &str) -> (chars: Vec<char>)
    ensures
        chars@ == text@,
{
    let mut chars: Vec<char> = Vec::new();
    for c in rest: text.chars()
        invariant
            chars@ == rest.seq().take(rest.index() as int),
            rest.seq() == text@,
    {
        chars.push(c);
    }
    chars
}

/// The lines of a text as sequences of characters.
pub open spec fn views(lines: Seq<String>) -> Seq<Seq<char>> {
    Seq::new(lines.len(), |i: int| lines[i]@)
}

/// The character that writes the decimal digit `d`.
pub open spec fn digit_char(d: nat) -> char
    recommends
        d < 10,
{
    ('0' as nat + d) as char
}

/// A natural number in decimal, without leading zeros.
pub open spec fn decimal(n: nat) -> Seq<char>
    decreases n,
{
    if n < 10 {
        seq![digit_char(n)]
    } else {
        decimal(n / 10).push(digit_char(n % 10))
    }
}

/// The quotient `n / d` rounded to the nearest whole number, a half going up.
pub open spec fn rounded(n: nat, d: nat) -> nat
    recommends
        d > 0,
{
    (2 * n + d) / (2 * d)
}

/// A count of tenths, written with one digit after the point.
pub open spec fn one_place(tenths: nat) -> Seq<char> {
    decimal(tenths / 10).push('.').push(digit_char(tenths % 10))
}

/// A count of hundredths, written with two digits after the point.
pub open spec fn two_places(hundredths: nat) -> Seq<char> {
    decimal(hundredths / 100).push('.').push(digit_char(hundredths / 10 % 10)).push(
        digit_char(hundredths % 10),
    )
}

/// A quantity scaled for reading: as it is below a thousand, then in
/// thousands, millions or billions with one digit after the point.
pub open spec fn magnitude(value: nat) -> Seq<char> {
    if value < 1_000 {
        decimal(value)
    } else if value < 1_000_000 {
        one_place(rounded(value * 10, 1_000)).push('K')
    } else if value < 1_000_000_000 {
        one_place(rounded(value * 10, 1_000_000)).push('M')
    } else {
        one_place(rounded(value * 10, 1_000_000_000)).push('B')
    }
}

/// `100 * part / whole` in hundredths, rounded to the nearest.
pub open spec fn percent_hundredths(part: nat, whole: nat) -> nat
    recommends
        whole > 0,
{
    rounded(part * 10_000, whole)
}

/// `100 * part / whole` with two digits after the point. Where `whole` is
/// zero the quotient is no number: it is written `inf`, or `NaN` for zero by
/// zero.
pub open spec fn percent(part: nat, whole: nat) -> Seq<char> {
    if whole > 0 {
        two_places(percent_hundredths(part, whole))
    } else if part > 0 {
        "inf"@
    } else {
        "NaN"@
    }
}

/// How far `value` lies from `target`, in hundredths of a percent of
/// `target`: counted below zero where `value` is the smaller.
pub open spec fn deviation_hundredths(value: nat, target: nat) -> int
    recommends
        target > 0,
{
    if value < target {
        -(percent_hundredths((target - value) as nat, target) as int)
    } else {
        percent_hundredths((value - target) as nat, target) as int
    }
}

/// How far `value` lies from `target`, in percent of `target` with two digits
/// after the point: `-` in front where `value` is the smaller, `+` where it
/// is the greater, and no sign where the two are equal. With a `target` of
/// zero it is `+inf`, or `NaN` for zero from zero.
pub open spec fn deviation(value: nat, target: nat) -> Seq<char> {
    let hundredths = deviation_hundredths(value, target);
    if target == 0 {
        if value > 0 {
            "+inf"@
        } else {
            "NaN"@
        }
    } else if value < target {
        seq!['-'] + two_places((-hundredths) as nat)
    } else if value > target {
        seq!['+'] + two_places(hundredths as nat)
    } else {
        two_places(0)
    }
}

/// An amount of wei in gwei, with two digits after the point.
pub open spec fn gwei(wei: nat) -> Seq<char> {
    two_places(rounded(wei * 100, 1_000_000_000))
}

/// What `price` lies above `base`, in gwei; with a `-` in front where it
/// lies below.
pub open spec fn gwei_above(price: nat, base: nat) -> Seq<char> {
    if price < base {
        seq!['-'] + gwei((base - price) as nat)
    } else {
        gwei((price - base) as nat)
    }
}

/// A value that is exactly its target deviates from it by zero, which is
/// written without a sign. A target of zero is left out: nothing can be
/// measured against it.
pub proof fn lemma_on_target(target: nat)
    requires
        target > 0,
    ensures
        deviation_hundredths(target, target) == 0,
        deviation(target, target) == seq!['0', '.', '0', '0'],
{
    assert(rounded(0, target) == 0) by (nonlinear_arith)
        requires
            target > 0,
    ;
}

fn digit(d: u128) -> (c: char)
    requires
        d < 10,
    ensures
        c == digit_char(d as nat),
{
    (48u8 + d as u8) as char
}

/// Rounds `n / d` to the nearest whole number, a half going up.
fn round_div(n: u128, d: u128) -> (q: u128)
    requires
        d > 0,
        2 * n + 2 * d <= u128::MAX,
    ensures
        q == rounded(n as nat, d as nat),
{
    (2 * n + d) / (2 * d)
}

/// Appends `n` in decimal.
pub(crate) fn push_decimal(out: &mut String, n: u128)
    ensures
        final(out)@ == old(out)@ + decimal(n as nat),
    decreases n,
{
    if n >= 10 {
        push_decimal(out, n / 10);
    }
    out.push(digit(n % 10));
}

/// Appends a count of tenths with one digit after the point.
pub(crate) fn push_one_place(out: &mut String, tenths: u128)
    ensures
        final(out)@ == old(out)@ + one_place(tenths as nat),
{
    push_decimal(out, tenths / 10);
    out.push('.');
    out.push(digit(tenths % 10));
}

/// Appends a count of hundredths with two digits after the point.
pub(crate) fn push_two_places(out: &mut String, hundredths: u128)
    ensures
        final(out)@ == old(out)@ + two_places(hundredths as nat),
{
    push_decimal(out, hundredths / 100);
    out.push('.');
    out.push(digit(hundredths / 10 % 10));
    out.push(digit(hundredths % 10));
}

/// Appends a quantity scaled for reading.
pub(crate) fn push_magnitude(out: &mut String, value: u64)
    ensures
        final(out)@ == old(out)@ + magnitude(value as nat),
{
    let wide: u128 = value as u128;
    if value < 1_000 {
        push_decimal(out, wide);
    } else if value < 1_000_000 {
        push_one_place(out, round_div(wide * 10, 1_000));
        out.push('K');
    } else if value < 1_000_000_000 {
        push_one_place(out, round_div(wide * 10, 1_000_000));
        out.push('M');
    } else {
        push_one_place(out, round_div(wide * 10, 1_000_000_000));
        out.push('B');
    }
}

/// Appends `100 * part / whole` with two digits after the point.
pub(crate) fn push_percent(out: &mut String, part: u64, whole: u64)
    ensures
        final(out)@ == old(out)@ + percent(part as nat, whole as nat),
{
    if whole > 0 {
        push_two_places(out, round_div(part as u128 * 10_000, whole as u128));
    } else if part > 0 {
        out.append("inf");
    } else {
        out.append("NaN");
    }
}

/// Appends how far `value` lies from `target`, in percent and with its sign.
pub(crate) fn push_deviation(out: &mut String, value: u64, target: u64)
    ensures
        final(out)@ == old(out)@ + deviation(value as nat, target as nat),
{
    if target == 0 {
        if value > 0 {
            out.append("+inf");
        } else {
            out.append("NaN");
        }
    } else if value < target {
        out.push('-');
        push_two_places(out, round_div((target - value) as u128 * 10_000, target as u128));
    } else if value > target {
        out.push('+');
        push_two_places(out, round_div((value - target) as u128 * 10_000, target as u128));
    } else {
        push_two_places(out, 0);
    }
}

/// Appends an amount of wei in gwei.
pub(crate) fn push_gwei(out: &mut String, wei: u64)
    ensures
        final(out)@ == old(out)@ + gwei(wei as nat),
{
    push_two_places(out, round_div(wei as u128 * 100, 1_000_000_000));
}

/// Appends what `price` lies above `base`, in gwei.
pub(crate) fn push_gwei_above(out: &mut String, price: u64, base: u64)
    ensures
        final(out)@ == old(out)@ + gwei_above(price as nat, base as nat),
{
    if price < base {
        out.push('-');
        push_gwei(out, base - price);
    } else {
        push_gwei(out, price - base);
    }
}

/// Writes a quantity scaled for reading: `999`, `1.0K`, `1.5M`, `2.0B`.
pub fn format_generic(value: u64) -> (text: String)
    ensures
        text@ == magnitude(value as nat),
{
    let mut text = String::new();
    push_magnitude(&mut text, value);
    text
}

} // verus!
