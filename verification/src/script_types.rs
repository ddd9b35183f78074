//! The script type hierarchy.
//!
//! Bitcoin does not distinguish scripts by their role: any well-formed
//! byte string can sit in an output, an input or a witness.  Logically the
//! roles differ, because a script can commit to another script by carrying
//! only its hash.  Each logical layer therefore gets its own wrapper type:
//! [`LockScript`] at the bottom (no nested commitments), [`PubkeyScript`]
//! for transaction outputs, [`SigScript`] for pre-segwit inputs,
//! [`RedeemScript`] for scripts committed to by a P2SH hash,
//! [`WitnessScript`] for scripts committed to by a segwit v0 program, and
//! [`TapScript`] for Taproot leaves (not yet derivable).  A value of any
//! of these types is exactly the byte string of its script program.

use vstd::prelude::*;

use crate::encoding::{max_push_len, push_encoding};
use crate::hashes::{hash160, hash160_of, sha256, sha256_of};
use crate::hex::{hex_bytes, hex_string};

verus! {

/// The bytes of a P2SH output script committing to the given 20-byte hash.
pub open spec fn p2sh_script(h: Seq<u8>) -> Seq<u8> {
    seq![0xa9u8, 0x14u8] + h + seq![0x87u8]
}

/// The bytes of a native segwit v0 output script carrying the given
/// 32-byte script hash.
pub open spec fn wsh_script(h: Seq<u8>) -> Seq<u8> {
    seq![0x00u8, 0x20u8] + h
}

/// The bytes of a native segwit v0 output script carrying the given
/// 20-byte public-key hash.
pub open spec fn wpkh_script(h: Seq<u8>) -> Seq<u8> {
    seq![0x00u8, 0x14u8] + h
}

/// The bytes of a P2PKH output script committing to the given 20-byte
/// public-key hash.
pub open spec fn p2pkh_script(h: Seq<u8>) -> Seq<u8> {
    seq![0x76u8, 0xa9u8, 0x14u8] + h + seq![0x88u8, 0xacu8]
}

/// The bytes of a P2PK output script carrying the given serialized public
/// key.
pub open spec fn p2pk_script(key: Seq<u8>) -> Seq<u8> {
    push_encoding(key) + seq![0xacu8]
}

/// The P2PKH output-script layout.
pub open spec fn is_p2pkh_script(s: Seq<u8>) -> bool {
    s.len() == 25 && s[0] == 0x76 && s[1] == 0xa9 && s[2] == 0x14 && s[23] == 0x88 && s[24] == 0xac
}

/// The P2SH output-script layout.
pub open spec fn is_p2sh_script(s: Seq<u8>) -> bool {
    s.len() == 23 && s[0] == 0xa9 && s[1] == 0x14 && s[22] == 0x87
}

/// The witness-program output-script layout: a version opcode followed by
/// one push of 2 to 40 bytes.
pub open spec fn is_witness_program_script(s: Seq<u8>) -> bool {
    &&& 4 <= s.len() <= 42
    &&& (s[0] == 0 || (0x51 <= s[0] && s[0] <= 0x60))
    &&& 2 <= s[1] <= 40
    &&& s[1] == s.len() - 2
}

/// A script that matches one of the standard output templates an address
/// can be formed for.
pub open spec fn is_standard_script(s: Seq<u8>) -> bool {
    is_p2pkh_script(s) || is_p2sh_script(s) || is_witness_program_script(s)
}

/// The bottom layer of the script hierarchy: a script containing no hash
/// of another script and no other nested commitment.
#[derive(Clone, PartialEq, Eq, Hash, Debug)]
pub struct LockScript(pub Vec<u8>);

impl View for LockScript {
    type V = Seq<u8>;

    open spec fn view(&self) -> Seq<u8> {
        self.0@
    }
}

impl LockScript {
    /// The same script bytes reinterpreted from a witness script, which is
    /// itself always a lock script.
    pub fn from_witness_script(ws: WitnessScript) -> (r: Self)
        ensures
            r@ == ws@,
    {
        LockScript(ws.0)
    }

    /// The script program as lowercase hexadecimal.
    pub fn to_hex(&self) -> (s: String)
        ensures
            s@ == hex_bytes(self@).map_values(|b: u8| b as char),
    {
        hex_string(self.0.as_slice())
    }
}

/// The content of the `scriptPubkey` field of a transaction output:
/// exactly what a verifier evaluates against the spender's input.
#[derive(Clone, PartialEq, Eq, Hash, Debug)]
pub struct PubkeyScript(pub Vec<u8>);

impl View for PubkeyScript {
    type V = Seq<u8>;

    open spec fn view(&self) -> Seq<u8> {
        self.0@
    }
}

impl PubkeyScript {
    /// The P2SH output committing to the given 20-byte script hash.
    pub fn new_p2sh(h: &[u8]) -> (r: Self)
        requires
            h@.len() == 20,
        ensures
            r@ == p2sh_script(h@),
    {
        let mut v: Vec<u8> = Vec::new();
        v.push(0xa9);
        v.push(0x14);
        crate::encoding::append_bytes(&mut v, h);
        v.push(0x87);
        proof {
            assert(v@ =~= p2sh_script(h@));
        }
        PubkeyScript(v)
    }

    /// The native segwit v0 output carrying the given 32-byte script hash.
    pub fn new_v0_wsh(h: &[u8]) -> (r: Self)
        requires
            h@.len() == 32,
        ensures
            r@ == wsh_script(h@),
    {
        let mut v: Vec<u8> = Vec::new();
        v.push(0x00);
        v.push(0x20);
        crate::encoding::append_bytes(&mut v, h);
        proof {
            assert(v@ =~= wsh_script(h@));
        }
        PubkeyScript(v)
    }

    /// The native segwit v0 output carrying the given 20-byte public-key
    /// hash.
    pub fn new_v0_wpkh(h: &[u8]) -> (r: Self)
        requires
            h@.len() == 20,
        ensures
            r@ == wpkh_script(h@),
    {
        let mut v: Vec<u8> = Vec::new();
        v.push(0x00);
        v.push(0x14);
        crate::encoding::append_bytes(&mut v, h);
        proof {
            assert(v@ =~= wpkh_script(h@));
        }
        PubkeyScript(v)
    }

    /// The P2PKH output committing to the given 20-byte public-key hash.
    pub fn new_p2pkh(h: &[u8]) -> (r: Self)
        requires
            h@.len() == 20,
        ensures
            r@ == p2pkh_script(h@),
    {
        let mut v: Vec<u8> = Vec::new();
        v.push(0x76);
        v.push(0xa9);
        v.push(0x14);
        crate::encoding::append_bytes(&mut v, h);
        v.push(0x88);
        v.push(0xac);
        proof {
            assert(v@ =~= p2pkh_script(h@));
        }
        PubkeyScript(v)
    }

    /// The P2PK output carrying the given serialized public key.
    pub fn new_p2pk(key: &[u8]) -> (r: Self)
        requires
            key@.len() < max_push_len(),
        ensures
            r@ == p2pk_script(key@),
    {
        let mut v = crate::encoding::push_slice_script(key);
        v.push(0xac);
        proof {
            assert(v@ =~= p2pk_script(key@));
        }
        PubkeyScript(v)
    }

    /// The address this output script can be shown as on the given
    /// network, or `None` when the script matches no standard template.
    pub fn address(&self, network: bitcoin::Network) -> (r: Option<bitcoin::Address>)
        ensures
            r is Some <==> is_standard_script(self@),
    {
        address_from_script(self.0.as_slice(), network)
    }

    /// The script program as lowercase hexadecimal.
    pub fn to_hex(&self) -> (s: String)
        ensures
            s@ == hex_bytes(self@).map_values(|b: u8| b as char),
    {
        hex_string(self.0.as_slice())
    }
}

/// The content of the `sigScript` field of a transaction input: the
/// pre-segwit path of satisfying an output script.  Empty for any pure
/// segwit spend.
#[derive(Clone, PartialEq, Eq, Hash, Debug)]
pub struct SigScript(pub Vec<u8>);

impl View for SigScript {
    type V = Seq<u8>;

    open spec fn view(&self) -> Seq<u8> {
        self.0@
    }
}

impl SigScript {
    /// The empty input script.
    pub fn empty() -> (r: Self)
        ensures
            r@ == Seq::<u8>::empty(),
    {
        let v: Vec<u8> = Vec::new();
        proof {
            assert(v@ =~= Seq::<u8>::empty());
        }
        SigScript(v)
    }

    /// The script program as lowercase hexadecimal.
    pub fn to_hex(&self) -> (s: String)
        ensures
            s@ == hex_bytes(self@).map_values(|b: u8| b as char),
    {
        hex_string(self.0.as_slice())
    }
}

/// The script committed to by a P2SH output: its `HASH160` digest equals
/// the hash embedded in the output script.
#[derive(Clone, PartialEq, Eq, Hash, Debug)]
pub struct RedeemScript(pub Vec<u8>);

impl View for RedeemScript {
    type V = Seq<u8>;

    open spec fn view(&self) -> Seq<u8> {
        self.0@
    }
}

impl RedeemScript {
    /// The same script bytes committed to as a redeem script.
    pub fn from_lock_script(ls: LockScript) -> (r: Self)
        ensures
            r@ == ls@,
    {
        RedeemScript(ls.0)
    }

    /// The `HASH160` digest a P2SH output embeds for this script.
    pub fn script_hash(&self) -> (r: Vec<u8>)
        ensures
            r@ == hash160_of(self@),
            r@.len() == 20,
    {
        hash160(self.0.as_slice())
    }

    /// The script program as lowercase hexadecimal.
    pub fn to_hex(&self) -> (s: String)
        ensures
            s@ == hex_bytes(self@).map_values(|b: u8| b as char),
    {
        hex_string(self.0.as_slice())
    }
}

/// The script committed to by a segwit v0 program: the segwit counterpart
/// of a redeem script, but hashed with single-round SHA-256 rather than
/// `HASH160`.
#[derive(Clone, PartialEq, Eq, Hash, Debug)]
pub struct WitnessScript(pub Vec<u8>);

impl View for WitnessScript {
    type V = Seq<u8>;

    open spec fn view(&self) -> Seq<u8> {
        self.0@
    }
}

impl WitnessScript {
    /// The same script bytes committed to as a witness script.
    pub fn from_lock_script(ls: LockScript) -> (r: Self)
        ensures
            r@ == ls@,
    {
        WitnessScript(ls.0)
    }

    /// The SHA-256 digest a segwit v0 output embeds for this script.
    pub fn script_hash(&self) -> (r: Vec<u8>)
        ensures
            r@ == sha256_of(self@),
            r@.len() == 32,
    {
        sha256(self.0.as_slice())
    }

    /// The P2WSH output script committing to this witness script.
    pub fn to_p2wsh(&self) -> (r: PubkeyScript)
        ensures
            r@ == wsh_script(sha256_of(self@)),
    {
        let h = self.script_hash();
        PubkeyScript::new_v0_wsh(h.as_slice())
    }

    /// The script program as lowercase hexadecimal.
    pub fn to_hex(&self) -> (s: String)
        ensures
            s@ == hex_bytes(self@).map_values(|b: u8| b as char),
    {
        hex_string(self.0.as_slice())
    }
}

/// A Taproot leaf script.  No conversion can produce or consume one yet:
/// every operation asked to derive a Taproot path reports
/// [`crate::convert::Error::UnsupportedCategory`] instead of guessing.
#[derive(Clone, PartialEq, Eq, Hash, Debug)]
pub struct TapScript(pub Vec<u8>);

impl View for TapScript {
    type V = Seq<u8>;

    open spec fn view(&self) -> Seq<u8> {
        self.0@
    }
}

impl TapScript {
    /// The script program as lowercase hexadecimal.
    pub fn to_hex(&self) -> (s: String)
        ensures
            s@ == hex_bytes(self@).map_values(|b: u8| b as char),
    {
        hex_string(self.0.as_slice())
    }
}

/// Relies on `bitcoin::Address::from_script`: it forms an address exactly
/// for the standard P2PKH, P2SH and witness-program layouts, and `None`
/// otherwise.
#[verifier::external_body]
fn address_from_script(bytes: &[u8], network: bitcoin::Network) -> (r: Option<bitcoin::Address>)
    ensures
        r is Some <==> is_standard_script(bytes@),
{
    bitcoin::Address::from_script(&bitcoin::Script::from(bytes.to_vec()), network)
}

#[verifier::external_type_specification]
#[verifier::external_body]
pub struct ExAddress(bitcoin::Address);

#[verifier::external_type_specification]
#[verifier::external_body]
pub struct ExNetwork(bitcoin::Network);

} // verus!
