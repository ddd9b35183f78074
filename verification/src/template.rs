//! A minimal single-signature template: one fixed compressed key, derived
//! for every unhardened index.
//!
//! Real wallets plug richer key-derivation templates into the generator
//! through the [`DeriveLockScript`] capability; this one exercises the
//! single-signature path with the simplest possible instance.  Its
//! notation is the lowercase hexadecimal of the key's serialization.

use vstd::pervasive::unreached;
use vstd::prelude::*;
use vstd::seq_lib::*;

use crate::convert::{key_lock_script, Category, Error, ToLockScript};
use crate::encoding::{bytes_eq, copy_bytes, copy_range};
use crate::generator::{
    is_variant_code, lemma_variants_code_range, lemma_variants_roundtrip, DeriveLockScript,
    Variants,
};
use crate::hex::{
    ascii_string, hex_bytes, hex_decode, hex_decoded, hex_encode, lemma_ascii_chars_bytes,
    lemma_hex_bytes_ascii, lemma_hex_roundtrip_rev, valid_hex,
};
use crate::key::{wf_pubkey_bytes, PublicKey, UnhardenedIndex};
use crate::script_types::LockScript;

verus! {

/// A single-signature template around one fixed compressed key.
#[derive(PartialEq, Eq, Hash, Debug)]
pub struct SingleKeyTemplate {
    key: PublicKey,
}

impl Clone for SingleKeyTemplate {
    /// The clone holds the same key.
    fn clone(&self) -> (r: Self)
        ensures
            r.spec_key() == self.spec_key(),
    {
        proof {
            use_type_invariant(&*self);
        }
        SingleKeyTemplate { key: self.key.clone() }
    }
}

impl SingleKeyTemplate {
    /// The serialized key the template derives for every index.
    pub closed spec fn spec_key(&self) -> Seq<u8> {
        self.key@
    }

    /// The key is compressed: the construction-boundary invariant of
    /// single-signature templates, which makes every segwit shape
    /// derivable from them.
    #[verifier::type_invariant]
    pub open spec fn wf(&self) -> bool {
        self.spec_key().len() == 33
    }

    /// Accepts exactly the compressed keys.
    pub fn new(key: PublicKey) -> (r: Result<SingleKeyTemplate, Error>)
        ensures
            r is Ok <==> key.spec_compressed(),
            (r matches Ok(t) ==> t.spec_key() == key@),
            (r matches Err(e) ==> e == Error::UncompressedKey),
    {
        if key.is_compressed() {
            Ok(SingleKeyTemplate { key })
        } else {
            Err(Error::UncompressedKey)
        }
    }
}

impl DeriveLockScript for SingleKeyTemplate {
    open spec fn is_single_sig(&self) -> bool {
        true
    }

    open spec fn spec_public_key(&self, index: UnhardenedIndex) -> Seq<u8> {
        self.spec_key()
    }

    open spec fn spec_lock_script(&self, index: UnhardenedIndex, category: Category) -> Result<
        Seq<u8>,
        Error,
    > {
        key_lock_script(self.spec_key(), category)
    }

    open spec fn template_bytes(&self) -> Seq<u8> {
        hex_bytes(self.spec_key())
    }

    open spec fn spec_parses(s: Seq<u8>) -> bool {
        valid_hex(s) && wf_pubkey_bytes(hex_decoded(s)) && hex_decoded(s).len() == 33
    }

    fn single_sig(&self) -> (r: bool) {
        true
    }

    fn try_derive_public_key(&self, index: UnhardenedIndex) -> (pk: PublicKey) {
        proof {
            use_type_invariant(&*self);
        }
        self.key.clone()
    }

    fn derive_lock_script(&self, index: UnhardenedIndex, category: Category) -> (r: Result<
        LockScript,
        Error,
    >) {
        self.key.to_lock_script(category)
    }

    fn template_string(&self) -> (s: String) {
        let v = hex_encode(self.key.as_bytes());
        proof {
            lemma_hex_bytes_ascii(self.key@);
            lemma_ascii_chars_bytes(v@);
        }
        ascii_string(v)
    }

    fn parse_template(s: &[u8]) -> (r: Option<SingleKeyTemplate>) {
        match hex_decode(s) {
            Some(bytes) => {
                if bytes.len() == 33 {
                    match PublicKey::from_bytes(bytes) {
                        Some(pk) => {
                            proof {
                                lemma_hex_roundtrip_rev(s@);
                            }
                            Some(SingleKeyTemplate { key: pk })
                        },
                        None => None,
                    }
                } else {
                    None
                }
            },
            None => None,
        }
    }
}

/// The notation of a single-key template is parse-stable: the rendering
/// of any compressed key parses back.  Together with the round trip of
/// the generator notation, a rendered single-key generator parses back to
/// a generator with equal variants and the identical template notation.
pub proof fn lemma_single_key_template_parse_stable(t: &SingleKeyTemplate)
    requires
        t.wf(),
        wf_pubkey_bytes(t.spec_key()),
    ensures
        SingleKeyTemplate::spec_parses(t.template_bytes()),
{
    crate::hex::lemma_hex_roundtrip(t.spec_key());
}

/// The notation bytes of a lock-script template: the codes of the
/// materializable categories, a dot, then the lock script in lowercase
/// hexadecimal.
pub open spec fn lock_template_bytes(materializes: Variants, lock: Seq<u8>) -> Seq<u8> {
    materializes.spec_bytes() + seq![0x2eu8] + hex_bytes(lock)
}

/// Which byte strings parse as a lock-script template: a canonical
/// variants segment, a dot, then a well-formed hexadecimal segment.
pub open spec fn lock_template_parses(s: Seq<u8>) -> bool {
    s.index_of_first(0x2e) is Some && {
        let i = s.index_of_first(0x2e)->Some_0;
        &&& (Variants::spec_parse(s.take(i)) matches Some(v) && v.spec_bytes() == s.take(i))
        &&& valid_hex(s.subrange(i + 1, s.len() as int))
    }
}

/// A template around one fixed lock script, derived for every unhardened
/// index, together with the set of categories the template can
/// materialize: asking for any other category fails with
/// [`Error::Derivation`], which the generator propagates.  Its notation is
/// the category codes, a dot, and the script in lowercase hexadecimal.
#[derive(Clone, PartialEq, Eq, Hash, Debug)]
pub struct LockScriptTemplate {
    /// The lock script derived for every index.
    pub lock: LockScript,
    /// The categories this template can materialize.
    pub materializes: Variants,
}

impl LockScriptTemplate {
    /// A template deriving the given lock script for the given categories.
    pub fn new(lock: LockScript, materializes: Variants) -> (r: Self)
        ensures
            r.lock@ == lock@,
            r.materializes == materializes,
    {
        LockScriptTemplate { lock, materializes }
    }
}

impl DeriveLockScript for LockScriptTemplate {
    open spec fn is_single_sig(&self) -> bool {
        false
    }

    open spec fn spec_public_key(&self, index: UnhardenedIndex) -> Seq<u8> {
        Seq::empty()
    }

    open spec fn spec_lock_script(&self, index: UnhardenedIndex, category: Category) -> Result<
        Seq<u8>,
        Error,
    > {
        if self.materializes.spec_enabled(category) {
            Ok(self.lock@)
        } else {
            Err(Error::Derivation)
        }
    }

    open spec fn template_bytes(&self) -> Seq<u8> {
        lock_template_bytes(self.materializes, self.lock@)
    }

    open spec fn spec_parses(s: Seq<u8>) -> bool {
        lock_template_parses(s)
    }

    fn single_sig(&self) -> (r: bool) {
        false
    }

    fn try_derive_public_key(&self, index: UnhardenedIndex) -> (pk: PublicKey) {
        unreached()
    }

    fn derive_lock_script(&self, index: UnhardenedIndex, category: Category) -> (r: Result<
        LockScript,
        Error,
    >) {
        if self.materializes.enabled(category) {
            Ok(LockScript(copy_bytes(self.lock.0.as_slice())))
        } else {
            Err(Error::Derivation)
        }
    }

    fn template_string(&self) -> (s: String) {
        let mut buf = self.materializes.code_bytes();
        buf.push(0x2e);
        let mut h = hex_encode(self.lock.0.as_slice());
        buf.append(&mut h);
        proof {
            lemma_variants_code_range(self.materializes);
            crate::hex::lemma_hex_bytes_ascii(self.lock@);
            assert(buf@ =~= self.template_bytes());
            lemma_ascii_chars_bytes(buf@);
        }
        ascii_string(buf)
    }

    fn parse_template(s: &[u8]) -> (r: Option<LockScriptTemplate>) {
        let n = s.len();
        proof {
            s@.index_of_first_ensures(0x2e);
        }
        let mut i: usize = 0;
        while i < n && s[i] != 0x2e
            invariant
                i <= n == s@.len(),
                forall|j: int| 0 <= j < i ==> s@[j] != 0x2e,
            decreases n - i,
        {
            i = i + 1;
        }
        proof {
            s@.index_of_first_ensures(0x2e);
        }
        if i == n {
            return None;
        }
        let vbytes = copy_range(s, 0, i);
        let variants = match Variants::parse_bytes(vbytes.as_slice()) {
            Some(v) => v,
            None => {
                return None;
            },
        };
        let canonical = variants.code_bytes();
        if !bytes_eq(canonical.as_slice(), vbytes.as_slice()) {
            return None;
        }
        let hpart = copy_range(s, i + 1, n - i - 1);
        let lock = match hex_decode(hpart.as_slice()) {
            Some(bytes) => LockScript(bytes),
            None => {
                return None;
            },
        };
        proof {
            lemma_hex_roundtrip_rev(hpart@);
            assert(lock_template_bytes(variants, hex_decoded(hpart@)) =~= s@);
        }
        Some(LockScriptTemplate { lock, materializes: variants })
    }
}

/// The notation of a lock-script template is parse-stable: the rendering
/// of any lock script and category set parses back.  Together with the
/// round trip of the generator notation, a rendered lock-script generator
/// parses back to a generator with equal variants and the identical
/// template notation.
pub proof fn lemma_lock_script_template_parse_stable(t: &LockScriptTemplate)
    ensures
        LockScriptTemplate::spec_parses(t.template_bytes()),
{
    let s = t.template_bytes();
    let vb = t.materializes.spec_bytes();
    let hb = hex_bytes(t.lock@);
    lemma_variants_roundtrip(t.materializes);
    crate::hex::lemma_hex_roundtrip(t.lock@);
    assert(s[vb.len() as int] == 0x2e);
    s.index_of_first_ensures(0x2e);
    assert(s.contains(0x2e)) by {
        assert(s[vb.len() as int] == 0x2e);
    }
    let i = s.index_of_first(0x2e)->Some_0;
    assert(i <= vb.len()) by {
        if vb.len() < i {
            assert(s[vb.len() as int] != 0x2e);
        }
    }
    assert(vb.len() <= i) by {
        if i < vb.len() {
            assert(s[i] == vb[i]);
            assert(is_variant_code(vb[i]));
        }
    }
    assert(s.take(i) =~= vb);
    assert(s.subrange(i + 1, s.len() as int) =~= hb);
}

} // verus!
