//! Plain-value models of the key material the conversions read: a
//! serialized public key and an unhardened derivation index.

use vstd::prelude::*;

use crate::encoding::copy_bytes;

verus! {

/// Whether a byte string is a structurally well-formed serialized
/// secp256k1 public key: 33 bytes starting `0x02` or `0x03` (compressed),
/// or 65 bytes starting `0x04` (uncompressed).
pub open spec fn wf_pubkey_bytes(s: Seq<u8>) -> bool {
    (s.len() == 33 && (s[0] == 2 || s[0] == 3)) || (s.len() == 65 && s[0] == 4)
}

/// A serialized public key.  The conversions of this crate read only the
/// serialization bytes and whether the key is compressed, so the type
/// holds exactly those, with well-formedness as its invariant.
#[derive(PartialEq, Eq, Hash, Debug)]
pub struct PublicKey {
    bytes: Vec<u8>,
}

impl View for PublicKey {
    type V = Seq<u8>;

    closed spec fn view(&self) -> Seq<u8> {
        self.bytes@
    }
}

impl PublicKey {
    /// The serialization is structurally well formed.
    #[verifier::type_invariant]
    pub open spec fn wf(&self) -> bool {
        wf_pubkey_bytes(self@)
    }

    /// Whether the key uses the 33-byte compressed serialization.
    pub open spec fn spec_compressed(&self) -> bool {
        self@.len() == 33
    }

    /// Accepts exactly the structurally well-formed serializations.
    pub fn from_bytes(bytes: Vec<u8>) -> (r: Option<PublicKey>)
        ensures
            r is Some <==> wf_pubkey_bytes(bytes@),
            r matches Some(pk) ==> pk@ == bytes@,
    {
        if bytes.len() == 33 && (bytes[0] == 2 || bytes[0] == 3) {
            Some(PublicKey { bytes })
        } else if bytes.len() == 65 && bytes[0] == 4 {
            Some(PublicKey { bytes })
        } else {
            None
        }
    }

    /// Whether the key uses the compressed serialization.
    pub fn is_compressed(&self) -> (r: bool)
        ensures
            r == self.spec_compressed(),
    {
        self.bytes.len() == 33
    }

    /// The serialization bytes.
    pub fn as_bytes(&self) -> (r: &[u8])
        ensures
            r@ == self@,
    {
        self.bytes.as_slice()
    }
}

impl Clone for PublicKey {
    /// The clone serializes identically.
    fn clone(&self) -> (r: Self)
        ensures
            r@ == self@,
    {
        proof {
            use_type_invariant(&*self);
        }
        PublicKey { bytes: copy_bytes(self.bytes.as_slice()) }
    }
}

/// An index in the unhardened range of hierarchical key derivation; values
/// of the hardened range cannot be represented.
#[derive(Clone, Copy, PartialEq, Eq, Structural, Hash, Debug)]
pub struct UnhardenedIndex {
    value: u32,
}

impl UnhardenedIndex {
    /// The numeric value of the index.
    pub closed spec fn spec_value(&self) -> u32 {
        self.value
    }

    /// The index lies below the hardened boundary.
    #[verifier::type_invariant]
    pub open spec fn wf(&self) -> bool {
        self.spec_value() < 0x8000_0000
    }

    /// Accepts exactly the values below the hardened boundary.
    pub fn new(value: u32) -> (r: Option<UnhardenedIndex>)
        ensures
            r is Some <==> value < 0x8000_0000,
            r matches Some(i) ==> i.spec_value() == value,
    {
        if value < 0x8000_0000 {
            Some(UnhardenedIndex { value })
        } else {
            None
        }
    }

    /// The numeric value of the index.
    pub fn value(&self) -> (r: u32)
        ensures
            r == self.spec_value(),
            r < 0x8000_0000,
    {
        proof {
            use_type_invariant(&*self);
        }
        self.value
    }
}

} // verus!
