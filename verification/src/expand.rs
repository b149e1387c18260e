//! Rendering of the expanded public-key expression: the decoded bytes as
//! a comma-separated list of `u8` literals, spaced as a token stream
//! prints, inside the `Pubkey::new_from_array` call.

use vstd::prelude::*;

verus! {

use vstd::string::StringExecFns;

/// The decimal digit `d` (`0 <= d <= 9`) as a one-character string.
pub open spec fn dec_digit(d: int) -> Seq<char> {
    if d == 0 {
        "0"@
    } else if d == 1 {
        "1"@
    } else if d == 2 {
        "2"@
    } else if d == 3 {
        "3"@
    } else if d == 4 {
        "4"@
    } else if d == 5 {
        "5"@
    } else if d == 6 {
        "6"@
    } else if d == 7 {
        "7"@
    } else if d == 8 {
        "8"@
    } else {
        "9"@
    }
}

/// The decimal rendering of `n` (`0 <= n <= 255`), without leading zeros.
pub open spec fn dec_u8(n: int) -> Seq<char> {
    if n < 10 {
        dec_digit(n)
    } else if n < 100 {
        dec_digit(n / 10) + dec_digit(n % 10)
    } else {
        dec_digit(n / 100) + dec_digit((n / 10) % 10) + dec_digit(n % 10)
    }
}

/// One array element: the byte in decimal with the `u8` suffix.
pub open spec fn byte_token(b: u8) -> Seq<char> {
    dec_u8(b as int) + "u8"@
}

/// The elements of `bs` as `u8` literals separated by ` , `, as a token
/// stream prints an array.
pub open spec fn byte_list(bs: Seq<u8>) -> Seq<char>
    decreases bs.len(),
{
    if bs.len() == 0 {
        Seq::empty()
    } else if bs.len() == 1 {
        byte_token(bs[0])
    } else {
        byte_list(bs.drop_last()) + " , "@ + byte_token(bs.last())
    }
}

/// The full expression that the expansion of a public-key literal
/// prints: the decoded bytes spliced into `Pubkey::new_from_array`.
pub open spec fn pubkey_expr(bs: Seq<u8>) -> Seq<char> {
    ":: anchor_lang :: prelude :: Pubkey :: new_from_array (["@ + byte_list(bs) + "])"@
}

/// The decimal digit `d` as a string slice.
fn dec_digit_str(d: u8) -> (r: &'static str)
    requires
        d <= 9,
    ensures
        r@ == dec_digit(d as int),
{
    if d == 0 {
        "0"
    } else if d == 1 {
        "1"
    } else if d == 2 {
        "2"
    } else if d == 3 {
        "3"
    } else if d == 4 {
        "4"
    } else if d == 5 {
        "5"
    } else if d == 6 {
        "6"
    } else if d == 7 {
        "7"
    } else if d == 8 {
        "8"
    } else {
        "9"
    }
}

/// Appends `byte_token(b)` to `out`.
fn push_byte_token(out: &mut String, b: u8)
    ensures
        final(out)@ == old(out)@ + byte_token(b),
{
    if b >= 100 {
        out.append(dec_digit_str(b / 100));
    }
    if b >= 10 {
        out.append(dec_digit_str((b / 10) % 10));
    }
    out.append(dec_digit_str(b % 10));
    out.append("u8");
    proof {
        assert(out@ =~= old(out)@ + byte_token(b));
    }
}

/// Renders the expansion of a 32-byte public key as source text.
pub fn render_pubkey_expr(bytes: &Vec<u8>) -> (r: String)
    ensures
        r@ == pubkey_expr(bytes@),
{
    let mut out: String = ":: anchor_lang :: prelude :: Pubkey :: new_from_array ([".to_owned();
    let mut i: usize = 0;
    while i < bytes.len()
        invariant
            i <= bytes@.len(),
            out@ == ":: anchor_lang :: prelude :: Pubkey :: new_from_array (["@ + byte_list(
                bytes@.take(i as int),
            ),
        decreases bytes@.len() - i,
    {
        if i > 0 {
            out.append(" , ");
        }
        push_byte_token(&mut out, bytes[i]);
        proof {
            let t = bytes@.take(i as int + 1);
            assert(t.drop_last() =~= bytes@.take(i as int));
            assert(t.last() == bytes@[i as int]);
            assert(out@ =~= ":: anchor_lang :: prelude :: Pubkey :: new_from_array (["@
                + byte_list(t));
        }
        i += 1;
    }
    proof {
        assert(bytes@.take(bytes@.len() as int) =~= bytes@);
    }
    out.concat("])")
}

} // verus!
