//! Compile-time helpers for a Solana verifier program, modelled on plain
//! values: decoding a base58 public-key literal into its 32 bytes and
//! rendering the constant expression for it, and splicing a fixed set of
//! account fields into a user-declared accounts struct.

use vstd::prelude::*;

pub mod accounts;
pub mod base58;
pub mod expand;

verus! {

use crate::base58::{all_base58, base58_decoded, decode_base58};
use crate::expand::{pubkey_expr, render_pubkey_expr};

/// Why expanding a `pubkey` literal failed.
#[derive(Debug, PartialEq, Eq, Structural)]
pub enum PubkeyError {
    /// The literal holds a character outside the base58 alphabet.
    InvalidBase58,
    /// The literal decodes to a byte string whose length is not 32;
    /// the payload is that length.
    InvalidLength(usize),
}

/// Decodes a base58 public-key literal into its 32 bytes, rejecting
/// strings with characters outside the alphabet and strings that decode
/// to any other length.
pub fn decode_pubkey(s: &str) -> (r: Result<Vec<u8>, PubkeyError>)
    ensures
        match r {
            Ok(v) => all_base58(s@) && v@ == base58_decoded(s@) && v@.len() == 32,
            Err(e) => match e {
                PubkeyError::InvalidBase58 => !all_base58(s@),
                PubkeyError::InvalidLength(n) => all_base58(s@) && base58_decoded(s@).len()
                    == n && n != 32,
            },
        },
{
    match decode_base58(s) {
        None => Err(PubkeyError::InvalidBase58),
        Some(v) => {
            if v.len() != 32 {
                Err(PubkeyError::InvalidLength(v.len()))
            } else {
                Ok(v)
            }
        },
    }
}

/// Expands a base58 public-key literal into the source text of the
/// constant expression that builds the key, spaced as a quoted token
/// stream prints: the 32 decoded bytes as `u8` literals inside
/// `Pubkey::new_from_array`.
pub fn pubkey(s: &str) -> (r: Result<String, PubkeyError>)
    ensures
        match r {
            Ok(out) => all_base58(s@) && base58_decoded(s@).len() == 32 && out@ == pubkey_expr(
                base58_decoded(s@),
            ),
            Err(e) => match e {
                PubkeyError::InvalidBase58 => !all_base58(s@),
                PubkeyError::InvalidLength(n) => all_base58(s@) && base58_decoded(s@).len()
                    == n && n != 32,
            },
        },
{
    match decode_pubkey(s) {
        Ok(v) => Ok(render_pubkey_expr(&v)),
        Err(e) => Err(e),
    }
}

} // verus!
