//! The two script digests used by output-script commitments.
//!
//! A P2SH output commits to a script by the 160-bit `HASH160` digest
//! (RIPEMD-160 of SHA-256), while a segwit v0 output commits by a single
//! round of SHA-256.  The two must never be conflated, so each digest gets
//! its own name and its own trusted entry point into the `bitcoin` crate.

use bitcoin::hashes::Hash as BitcoinHash;
use vstd::prelude::*;

verus! {

/// The `HASH160` digest (RIPEMD-160 of SHA-256) of a byte string, as used
/// by P2SH and P2PKH commitments.
pub uninterp spec fn hash160_of(data: Seq<u8>) -> Seq<u8>;

/// The single-round SHA-256 digest of a byte string, as used by segwit v0
/// script commitments.
pub uninterp spec fn sha256_of(data: Seq<u8>) -> Seq<u8>;

/// Relies on `bitcoin::Script::script_hash`: the 20-byte `HASH160` digest
/// of the script bytes, a function of those bytes alone.
#[verifier::external_body]
pub fn hash160(data: &[u8]) -> (r: Vec<u8>)
    ensures
        r@ == hash160_of(data@),
        r@.len() == 20,
{
    BitcoinHash::into_inner(bitcoin::Script::from(data.to_vec()).script_hash()).to_vec()
}

/// Relies on `bitcoin::Script::wscript_hash`: the 32-byte single-round
/// SHA-256 digest of the script bytes, a function of those bytes alone.
#[verifier::external_body]
pub fn sha256(data: &[u8]) -> (r: Vec<u8>)
    ensures
        r@ == sha256_of(data@),
        r@.len() == 32,
{
    BitcoinHash::into_inner(bitcoin::Script::from(data.to_vec()).wscript_hash()).to_vec()
}

} // verus!
