use crate::error::BlockRequestError;
use crate::json::Json;
use crate::text::to_chars;
use vstd::prelude::*;

verus! {

/// The value of one hexadecimal digit, in either case.
pub open spec fn hex_digit_value(c: char) -> Option<nat> {
    if '0' <= c && c <= '9' {
        Some((c as nat - '0' as nat) as nat)
    } else if 'a' <= c && c <= 'f' {
        Some((c as nat - 'a' as nat + 10) as nat)
    } else if 'A' <= c && c <= 'F' {
        Some((c as nat - 'A' as nat + 10) as nat)
    } else {
        None
    }
}

/// The number that a string of hexadecimal digits writes, most significant
/// digit first; `None` where some character is no digit. The empty string
/// writes zero here: `decode_hex` is where it is turned away.
pub open spec fn hex_value(digits: Seq<char>) -> Option<nat>
    decreases digits.len(),
{
    if digits.len() == 0 {
        Some(0)
    } else {
        match (hex_value(digits.drop_last()), hex_digit_value(digits.last())) {
            (Some(high), Some(low)) => Some(16 * high + low),
            _ => None,
        }
    }
}

/// Whether `text` begins with the prefix of a hexadecimal quantity: `0x`,
/// or `0X`.
pub open spec fn has_prefix(text: Seq<char>) -> bool {
    text.len() >= 2 && text[0] == '0' && (text[1] == 'x' || text[1] == 'X')
}

/// `text` without the one prefix that it may begin with.
pub open spec fn without_prefix(text: Seq<char>) -> Seq<char> {
    if has_prefix(text) {
        text.skip(2)
    } else {
        text
    }
}

/// The quantity that a string encodes: after the one prefix, if there is one,
/// at least one character, hexadecimal digits only, and a value of at most 64
/// bits.
pub open spec fn decode_hex(text: Seq<char>) -> Option<u64> {
    let digits = without_prefix(text);
    match hex_value(digits) {
        Some(value) => if digits.len() > 0 && value <= u64::MAX {
            Some(value as u64)
        } else {
            None
        },
        None => None,
    }
}

/// A string has a value exactly where each of its characters is a
/// hexadecimal digit.
pub proof fn lemma_hex_value_digits(digits: Seq<char>)
    ensures
        hex_value(digits) is Some <==> forall|i: int|
            0 <= i < digits.len() ==> hex_digit_value(#[trigger] digits[i]) is Some,
    decreases digits.len(),
{
    if digits.len() > 0 {
        let front = digits.drop_last();
        lemma_hex_value_digits(front);
        if hex_value(digits) is Some {
            assert forall|i: int| 0 <= i < digits.len() implies hex_digit_value(
                #[trigger] digits[i],
            ) is Some by {
                if i < front.len() {
                    assert(front[i] == digits[i]);
                }
            }
        }
        if forall|i: int| 0 <= i < digits.len() ==> hex_digit_value(#[trigger] digits[i]) is Some {
            assert forall|i: int| 0 <= i < front.len() implies hex_digit_value(
                #[trigger] front[i],
            ) is Some by {
                assert(front[i] == digits[i]);
            }
            assert(hex_digit_value(digits[digits.len() - 1]) is Some);
        }
    }
}

/// A string of digits is worth at least as much as each of its prefixes, and
/// has no value where a prefix has none.
pub proof fn lemma_hex_value_prefix(digits: Seq<char>, k: int)
    requires
        0 <= k <= digits.len(),
    ensures
        hex_value(digits.take(k)) is None ==> hex_value(digits) is None,
        hex_value(digits) matches Some(whole) ==> hex_value(digits.take(k)) matches Some(part)
            && part <= whole,
    decreases digits.len() - k,
{
    if k == digits.len() {
        assert(digits.take(k) =~= digits);
    } else {
        assert(digits.drop_last().take(k) =~= digits.take(k));
        lemma_hex_value_prefix(digits.drop_last(), k);
    }
}

fn digit_of(c: char) -> (r: Option<u64>)
    ensures
        r matches Some(v) ==> hex_digit_value(c) == Some(v as nat) && v < 16,
        r is None ==> hex_digit_value(c) is None,
{
    if '0' <= c && c <= '9' {
        Some((c as u32 - '0' as u32) as u64)
    } else if 'a' <= c && c <= 'f' {
        Some((c as u32 - 'a' as u32 + 10) as u64)
    } else if 'A' <= c && c <= 'F' {
        Some((c as u32 - 'A' as u32 + 10) as u64)
    } else {
        None
    }
}

/// Decodes a hexadecimal quantity.
pub fn decode(text: &str) -> (r: Option<u64>)
    ensures
        r == decode_hex(text@),
{
    let chars = to_chars(text);
    let n = chars.len();
    let mut start: usize = 0;
    if n >= 2 && chars[0] == '0' && (chars[1] == 'x' || chars[1] == 'X') {
        start = 2;
    }
    let ghost digits = chars@.skip(start as int);
    assert(digits =~= without_prefix(text@));
    if start == n {
        return None;
    }
    let mut value: u64 = 0;
    let mut i: usize = start;
    assert(digits.take(0) =~= Seq::<char>::empty());
    while i < n
        invariant
            n == chars.len(),
            start <= i <= n,
            digits == chars@.skip(start as int),
            digits == without_prefix(text@),
            hex_value(digits.take(i - start)) == Some(value as nat),
        decreases n - i,
    {
        let ghost next = digits.take(i - start + 1);
        assert(next.drop_last() =~= digits.take(i - start));
        assert(next.last() == chars[i as int]);
        proof {
            lemma_hex_value_prefix(digits, i - start + 1);
        }
        match digit_of(chars[i]) {
            None => {
                return None;
            },
            Some(d) => {
                if value > (u64::MAX - d) / 16 {
                    return None;
                }
                value = value * 16 + d;
            },
        }
        i += 1;
    }
    assert(digits.take(n - start) =~= digits);
    Some(value)
}

/// What `parse_hexa_value` returns for a JSON value.
pub open spec fn hex_field(value: Json) -> Result<u64, BlockRequestError> {
    match value {
        Json::Text(text) => match decode_hex(text@) {
            Some(quantity) => Ok(quantity),
            None => Err(BlockRequestError::MalformedHex),
        },
        _ => Err(BlockRequestError::TypeMismatch),
    }
}

/// Decodes the hexadecimal quantity that a JSON string holds.
pub fn parse_hexa_value(input: &Json) -> (r: Result<u64, BlockRequestError>)
    ensures
        r == hex_field(*input),
{
    match input {
        Json::Text(text) => match decode(text.as_str()) {
            Some(quantity) => Ok(quantity),
            None => Err(BlockRequestError::MalformedHex),
        },
        _ => Err(BlockRequestError::TypeMismatch),
    }
}

/// The character that writes the hexadecimal digit `d`, in lower case.
pub open spec fn hex_digit_char(d: nat) -> char
    recommends
        d < 16,
{
    if d < 10 {
        ('0' as nat + d) as char
    } else {
        ('a' as nat + d - 10) as char
    }
}

/// A natural number in hexadecimal, in lower case and without leading zeros.
pub open spec fn hex_digits(n: nat) -> Seq<char>
    decreases n,
{
    if n < 16 {
        seq![hex_digit_char(n)]
    } else {
        hex_digits(n / 16).push(hex_digit_char(n % 16))
    }
}

/// A quantity as a JSON-RPC request writes it: `0x` and the digits.
pub open spec fn quantity(n: u64) -> Seq<char> {
    seq!['0', 'x'] + hex_digits(n as nat)
}

fn hex_digit(d: u64) -> (c: char)
    requires
        d < 16,
    ensures
        c == hex_digit_char(d as nat),
{
    if d < 10 {
        (48u8 + d as u8) as char
    } else {
        (87u8 + d as u8) as char
    }
}

fn push_hex(out: &mut String, n: u64)
    ensures
        final(out)@ == old(out)@ + hex_digits(n as nat),
    decreases n,
{
    if n >= 16 {
        push_hex(out, n / 16);
    }
    out.push(hex_digit(n % 16));
}

/// Encodes a quantity for a JSON-RPC request.
pub fn encode(n: u64) -> (text: String)
    ensures
        text@ == quantity(n),
{
    let mut text = String::new();
    text.push('0');
    text.push('x');
    push_hex(&mut text, n);
    text
}

/// The digits that `hex_digits` writes are lower-case hexadecimal digits, at
/// least one of them, and they write `n`.
pub proof fn lemma_hex_digits(n: nat)
    ensures
        hex_digits(n).len() > 0,
        forall|i: int|
            0 <= i < hex_digits(n).len() ==> {
                let c = #[trigger] hex_digits(n)[i];
                ('0' <= c && c <= '9') || ('a' <= c && c <= 'f')
            },
        hex_value(hex_digits(n)) == Some(n),
    decreases n,
{
    assert(hex_digit_value(hex_digit_char(n % 16)) == Some(n % 16));
    assert(hex_digits(n).last() == hex_digit_char(n % 16));
    if n < 16 {
        assert(hex_digits(n).drop_last() =~= Seq::<char>::empty());
        assert(hex_value(hex_digits(n).drop_last()) == Some(0nat));
    } else {
        lemma_hex_digits(n / 16);
        assert(hex_digits(n).drop_last() =~= hex_digits(n / 16));
    }
}

/// Decoding gives back every quantity that `encode` writes.
pub proof fn lemma_decode_encode(n: u64)
    ensures
        decode_hex(quantity(n)) == Some(n),
{
    let digits = hex_digits(n as nat);
    lemma_hex_digits(n as nat);
    assert(has_prefix(quantity(n)));
    assert(quantity(n).skip(2) =~= digits);
}

} // verus!
