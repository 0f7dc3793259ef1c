//! UUIDs: 128-bit numbers, the texts they are written as, and the texts they
//! are read from.

use vstd::arithmetic::power::pow;
use vstd::prelude::*;

verus! {

// ---------------------------------------------------------------------------
// Models
// ---------------------------------------------------------------------------

/// The lower-case hexadecimal digit for a number below sixteen.
pub open spec fn hex_digit(d: nat) -> char {
    if d < 10 {
        (0x30 + d) as char
    } else {
        (0x57 + d) as char
    }
}

/// The last `len` hexadecimal digits of `n`.
pub open spec fn hex_text(n: nat, len: nat) -> Seq<char>
    decreases len,
{
    if len == 0 {
        seq![]
    } else {
        hex_text(n / 16, (len - 1) as nat).push(hex_digit(n % 16))
    }
}

/// Thirty-two digits in a row.
pub open spec fn simple_text(id: u128) -> Seq<char> {
    hex_text(id as nat, 32)
}

/// Groups of eight, four, four, four and twelve digits with hyphens between.
pub open spec fn hyphenated_text(id: u128) -> Seq<char> {
    let digits = simple_text(id);
    digits.subrange(0, 8) + seq!['-'] + digits.subrange(8, 12) + seq!['-'] + digits.subrange(12, 16)
        + seq!['-'] + digits.subrange(16, 20) + seq!['-'] + digits.subrange(20, 32)
}

pub open spec fn hex_digit_value(c: char) -> Option<nat> {
    if '0' <= c <= '9' {
        Some((c as u32 - 0x30) as nat)
    } else if 'a' <= c <= 'f' {
        Some((c as u32 - 0x57) as nat)
    } else if 'A' <= c <= 'F' {
        Some((c as u32 - 0x37) as nat)
    } else {
        None
    }
}

/// The number that hexadecimal digits of either case stand for.
pub open spec fn hex_value(digits: Seq<char>) -> Option<nat>
    decreases digits.len(),
{
    if digits.len() == 0 {
        Some(0)
    } else {
        match (hex_value(digits.drop_last()), hex_digit_value(digits.last())) {
            (Some(high), Some(low)) => Some(high * 16 + low),
            _ => None,
        }
    }
}

/// The UUID that a hyphenated text stands for.
pub open spec fn hyphenated_value(s: Seq<char>) -> Option<nat> {
    if s.len() == 36 && s[8] == '-' && s[13] == '-' && s[18] == '-' && s[23] == '-' {
        hex_value(
            s.subrange(0, 8) + s.subrange(9, 13) + s.subrange(14, 18) + s.subrange(19, 23)
                + s.subrange(24, 36),
        )
    } else {
        None
    }
}

/// `c` is the letter `lower` in either case.
pub open spec fn is_letter(c: char, lower: char) -> bool {
    c == lower || c as u32 + 32 == lower as u32
}

pub open spec fn is_urn_prefix(s: Seq<char>) -> bool {
    &&& s.len() == 9
    &&& is_letter(s[0], 'u') && is_letter(s[1], 'r') && is_letter(s[2], 'n') && s[3] == ':'
    &&& is_letter(s[4], 'u') && is_letter(s[5], 'u') && is_letter(s[6], 'i') && is_letter(s[7], 'd')
    &&& s[8] == ':'
}

/// The UUID that a text stands for: digits in a row, hyphenated, hyphenated in
/// braces, or hyphenated after `urn:uuid:`.
pub open spec fn parsed_value(s: Seq<char>) -> Option<nat> {
    if s.len() == 32 {
        hex_value(s)
    } else if s.len() == 36 {
        hyphenated_value(s)
    } else if s.len() == 38 && s[0] == '{' && s[37] == '}' {
        hyphenated_value(s.subrange(1, 37))
    } else if s.len() == 45 && is_urn_prefix(s.take(9)) {
        hyphenated_value(s.skip(9))
    } else {
        None
    }
}

pub open spec fn parsed_uuid(s: Seq<char>) -> Option<u128> {
    match parsed_value(s) {
        Some(n) => Some(n as u128),
        None => None,
    }
}

/// A version 4 UUID of the standard variant: its thirteenth digit is 4, and the
/// two bits its seventeenth digit starts with are 1 and 0.
pub open spec fn is_random_uuid(id: u128) -> bool {
    &&& (id / 0x1000_0000_0000_0000_0000) % 16 == 4
    &&& (id / 0x4000_0000_0000_0000) % 4 == 2
}

// ---------------------------------------------------------------------------
// Laws
// ---------------------------------------------------------------------------

/// A UUID written with hyphens is read back as the same UUID.
pub proof fn law_hyphenated_text_reads_back(id: u128)
    ensures
        parsed_uuid(hyphenated_text(id)) == Some(id),
{
    lemma_simple_text(id);
    let d = simple_text(id);
    let s = hyphenated_text(id);
    assert(s.len() == 36 && s[8] == '-' && s[13] == '-' && s[18] == '-' && s[23] == '-');
    assert(s.subrange(0, 8) + s.subrange(9, 13) + s.subrange(14, 18) + s.subrange(19, 23)
        + s.subrange(24, 36) =~= d);
}

/// A UUID written as digits in a row is read back as the same UUID.
pub proof fn law_simple_text_reads_back(id: u128)
    ensures
        parsed_uuid(simple_text(id)) == Some(id),
{
    lemma_simple_text(id);
}

/// A UUID is read back from its hyphenated text also in braces and after
/// `urn:uuid:`, and different UUIDs have different texts.
pub proof fn law_other_forms_read_back(id: u128, other: u128)
    ensures
        parsed_uuid(seq!['{'] + hyphenated_text(id) + seq!['}']) == Some(id),
        parsed_uuid("urn:uuid:"@ + hyphenated_text(id)) == Some(id),
        hyphenated_text(id) == hyphenated_text(other) ==> id == other,
        hyphenated_text(id).len() == 36,
{
    law_hyphenated_text_reads_back(id);
    law_hyphenated_text_reads_back(other);
    lemma_simple_text(id);
    let text = hyphenated_text(id);
    let braced = seq!['{'] + text + seq!['}'];
    assert(braced.subrange(1, 37) =~= text);
    reveal_strlit("urn:uuid:");
    let urn = "urn:uuid:"@ + text;
    assert(urn.take(9) =~= "urn:uuid:"@);
    assert(urn.skip(9) =~= text);
}

/// The digits of a UUID are of lower case, and a random one has a 4 for its
/// thirteenth.
#[verifier::spinoff_prover]
#[verifier::rlimit(40)]
pub proof fn lemma_digits(id: u128)
    ensures
        simple_text(id).len() == 32,
        forall|i: int|
            0 <= i < 32 ==> ('0' <= #[trigger] simple_text(id)[i] <= '9' || 'a' <= simple_text(
                id,
            )[i] <= 'f'),
        is_random_uuid(id) ==> simple_text(id)[12] == '4',
{
    lemma_simple_text(id);
    assert(hex_text(id as nat, 32)[12] == hex_digit(
        (id / 0x1000_0000_0000_0000_0000) as nat % 16,
    )) by {
        reveal_with_fuel(hex_text, 21);
    }
}

proof fn lemma_simple_text(id: u128)
    ensures
        simple_text(id).len() == 32,
        hex_value(simple_text(id)) == Some(id as nat),
        forall|i: int|
            0 <= i < 32 ==> ('0' <= #[trigger] simple_text(id)[i] <= '9' || 'a' <= simple_text(
                id,
            )[i] <= 'f'),
{
    assert(pow(16, 32) == 0x1_0000_0000_0000_0000_0000_0000_0000_0000) by {
        reveal_with_fuel(pow, 33);
    }
    lemma_hex_text(id as nat, 32);
}

/// The digits of a number stand for that number, and each is a digit of lower
/// case.
pub proof fn lemma_hex_text(n: nat, len: nat)
    requires
        n < pow(16, len),
    ensures
        hex_text(n, len).len() == len,
        hex_value(hex_text(n, len)) == Some(n),
        forall|i: int|
            0 <= i < len ==> ('0' <= #[trigger] hex_text(n, len)[i] <= '9' || 'a' <= hex_text(
                n,
                len,
            )[i] <= 'f'),
    decreases len,
{
    if len == 0 {
        assert(pow(16, 0) == 1) by {
            reveal(pow);
        }
    } else {
        let shorter = (len - 1) as nat;
        assert(pow(16, len) == 16 * pow(16, shorter)) by {
            reveal(pow);
        }
        lemma_hex_text(n / 16, shorter);
        assert(hex_text(n, len).drop_last() =~= hex_text(n / 16, shorter));
    }
}

// ---------------------------------------------------------------------------
// The uuid crate
// ---------------------------------------------------------------------------

/// `uuid::Uuid::new_v4`. Random: all that is said of the result is what every
/// version 4 UUID has in common.
#[verifier::external_body]
pub(crate) fn new_uuid() -> (id: u128)
    ensures
        is_random_uuid(id),
{
    uuid::Uuid::new_v4().as_u128()
}

/// `uuid::Uuid::to_string`: lower-case digits in hyphenated groups.
#[verifier::external_body]
pub(crate) fn hyphenated(id: u128) -> (text: String)
    ensures
        text@ == hyphenated_text(id),
{
    uuid::Uuid::from_u128(id).to_string()
}

/// `uuid::Uuid::simple`, written out: lower-case digits in a row.
#[verifier::external_body]
pub(crate) fn simple(id: u128) -> (text: String)
    ensures
        text@ == simple_text(id),
{
    uuid::Uuid::from_u128(id).simple().to_string()
}

/// `uuid::Uuid::parse_str`: reads the four forms a UUID is written in, with
/// digits of either case, and nothing else.
#[verifier::external_body]
pub(crate) fn parse(text: &str) -> (id: Option<u128>)
    ensures
        id == parsed_uuid(text@),
{
    uuid::Uuid::parse_str(text).ok().map(|id| id.as_u128())
}

} // verus!
