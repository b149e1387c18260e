//! A model of base58 decoding over the Bitcoin alphabet, and the one
//! trusted call into the `bs58` crate that performs it.

use vstd::prelude::*;

verus! {

/// Value of `c` as a digit of the Bitcoin base58 alphabet
/// (`123456789ABCDEFGHJKLMNPQRSTUVWXYZabcdefghijkmnopqrstuvwxyz`),
/// or `-1` when `c` lies outside it.
pub open spec fn base58_digit(c: char) -> int {
    match c {
        '1' => 0,
        '2' => 1,
        '3' => 2,
        '4' => 3,
        '5' => 4,
        '6' => 5,
        '7' => 6,
        '8' => 7,
        '9' => 8,
        'A' => 9,
        'B' => 10,
        'C' => 11,
        'D' => 12,
        'E' => 13,
        'F' => 14,
        'G' => 15,
        'H' => 16,
        'J' => 17,
        'K' => 18,
        'L' => 19,
        'M' => 20,
        'N' => 21,
        'P' => 22,
        'Q' => 23,
        'R' => 24,
        'S' => 25,
        'T' => 26,
        'U' => 27,
        'V' => 28,
        'W' => 29,
        'X' => 30,
        'Y' => 31,
        'Z' => 32,
        'a' => 33,
        'b' => 34,
        'c' => 35,
        'd' => 36,
        'e' => 37,
        'f' => 38,
        'g' => 39,
        'h' => 40,
        'i' => 41,
        'j' => 42,
        'k' => 43,
        'm' => 44,
        'n' => 45,
        'o' => 46,
        'p' => 47,
        'q' => 48,
        'r' => 49,
        's' => 50,
        't' => 51,
        'u' => 52,
        'v' => 53,
        'w' => 54,
        'x' => 55,
        'y' => 56,
        'z' => 57,
        _ => -1,
    }
}

/// `c` belongs to the Bitcoin base58 alphabet.
pub open spec fn is_base58_char(c: char) -> bool {
    base58_digit(c) >= 0
}

/// Every character of `s` belongs to the base58 alphabet.
pub open spec fn all_base58(s: Seq<char>) -> bool {
    forall|i: int| 0 <= i < s.len() ==> is_base58_char(s[i])
}

/// The number that the digit string `s` denotes in base 58.
pub open spec fn base58_value(s: Seq<char>) -> int
    decreases s.len(),
{
    if s.len() == 0 {
        0
    } else {
        base58_value(s.drop_last()) * 58 + base58_digit(s.last())
    }
}

/// The shortest big-endian byte string of the non-negative number `v`:
/// empty for zero, with no leading zero byte otherwise.
pub open spec fn min_be_bytes(v: int) -> Seq<u8>
    decreases v,
{
    if v <= 0 {
        Seq::empty()
    } else {
        min_be_bytes(v / 256).push((v % 256) as u8)
    }
}

/// How many `'1'` digits `s` starts with; each stands for one zero byte
/// of the decoded string.
pub open spec fn leading_one_digits(s: Seq<char>) -> int
    decreases s.len(),
{
    if s.len() == 0 || s[0] != '1' {
        0
    } else {
        1 + leading_one_digits(s.drop_first())
    }
}

/// The byte string that base58 decoding returns on a string of alphabet
/// characters: one zero byte per leading `'1'`, then the big-endian
/// bytes of the denoted number.
pub open spec fn base58_decoded(s: Seq<char>) -> Seq<u8> {
    Seq::new(leading_one_digits(s) as nat, |i: int| 0u8) + min_be_bytes(base58_value(s))
}

/// Relies on `bs58::decode(s).into_vec()` with the crate's default
/// (Bitcoin) alphabet: it fails exactly when some character of `s` lies
/// outside that alphabet (non-ASCII characters included), and otherwise
/// returns one zero byte per leading `'1'` followed by the big-endian
/// bytes of the base-58 value of the digit string.
#[verifier::external_body]
pub(crate) fn decode_base58(s: &str) -> (r: Option<Vec<u8>>)
    ensures
        r is Some <==> all_base58(s@),
        r matches Some(v) ==> v@ == base58_decoded(s@),
{
    match bs58::decode(s).into_vec() {
        Ok(v) => Some(v),
        Err(_) => None,
    }
}

} // verus!
