//! The derivation capability set: turning a lock script or a public key
//! into the concrete scripts of a requested category.
//!
//! Three composable behaviours cover the conversions: producing the
//! bottom-layer lock script (meaningful for keys), producing the output
//! script, and producing the full script set of output script, input
//! script and witness.  Each behaviour is parameterized by the
//! [`Category`] of commitment the caller wants.

use vstd::prelude::*;

use crate::encoding::{
    clean_element, copy_bytes, data_pushes, lemma_append_empty, lemma_data_pushes_step,
    max_push_len, push_encoding, push_slice_script,
};
use crate::hashes::{hash160, hash160_of, sha256, sha256_of};
use crate::key::PublicKey;
use crate::script_set::{witness_view, ScriptSet};
use crate::script_types::{
    p2pk_script, p2pkh_script, p2sh_script, wpkh_script, wsh_script, LockScript, PubkeyScript,
    SigScript,
};
use crate::witness::Witness;

verus! {

/// A commitment strategy for turning a lock script or a key into an
/// output script.
#[derive(Clone, Copy, PartialEq, Eq, Structural, Hash, Debug)]
pub enum Category {
    /// The script (or key) is published in the output as it is.
    Bare,
    /// The output commits to the `HASH160` digest of the script or key
    /// (P2SH / P2PKH).
    Hashed,
    /// The output is a P2SH commitment wrapping a segwit v0 program.
    Nested,
    /// The output is a native segwit v0 program.
    SegWit,
    /// Taproot output; not yet derivable.
    Taproot,
}

/// Why a conversion or a descriptor derivation failed.
#[derive(Clone, Copy, PartialEq, Eq, Structural, Hash, Debug)]
pub enum Error {
    /// The requested category cannot be derived yet; asking for a Taproot
    /// script path reports this rather than silently substituting another
    /// category.
    UnsupportedCategory,
    /// A segwit form was requested from an uncompressed public key.
    UncompressedKey,
    /// The template's lock-script derivation failed for the requested
    /// index and category.
    Derivation,
}

/// The output script derived from a lock script for each category.
pub open spec fn lock_pubkey_script(lock: Seq<u8>, category: Category) -> Result<Seq<u8>, Error> {
    match category {
        Category::Bare => Ok(lock),
        Category::Hashed => Ok(p2sh_script(hash160_of(lock))),
        Category::SegWit => Ok(wsh_script(sha256_of(lock))),
        Category::Nested => Ok(p2sh_script(hash160_of(wsh_script(sha256_of(lock))))),
        Category::Taproot => Err(Error::UnsupportedCategory),
    }
}

/// The input script derived from a lock script for each category: it
/// reveals the pre-image of whatever hash the output side committed to.
pub open spec fn lock_sig_script(lock: Seq<u8>, category: Category) -> Result<Seq<u8>, Error> {
    match category {
        Category::Bare => Ok(Seq::empty()),
        Category::Hashed => Ok(push_encoding(lock)),
        Category::SegWit => Ok(Seq::empty()),
        Category::Nested => Ok(push_encoding(wsh_script(sha256_of(lock)))),
        Category::Taproot => Err(Error::UnsupportedCategory),
    }
}

/// The witness derived from a lock script for each category.
pub open spec fn lock_witness(lock: Seq<u8>, category: Category) -> Result<
    Option<Seq<Seq<u8>>>,
    Error,
> {
    match category {
        Category::Bare => Ok(None),
        Category::Hashed => Ok(None),
        Category::SegWit => Ok(Some(seq![lock])),
        Category::Nested => Ok(Some(seq![lock])),
        Category::Taproot => Err(Error::UnsupportedCategory),
    }
}

/// The lock script derived from a serialized public key for each
/// category.  The segwit forms exist only for compressed keys; asking for
/// them with an uncompressed key is a recoverable caller error.
pub open spec fn key_lock_script(key: Seq<u8>, category: Category) -> Result<Seq<u8>, Error> {
    match category {
        Category::Bare => Ok(p2pk_script(key)),
        Category::Hashed => Ok(p2pkh_script(hash160_of(key))),
        Category::SegWit => if key.len() == 33 {
            Ok(wpkh_script(hash160_of(key)))
        } else {
            Err(Error::UncompressedKey)
        },
        Category::Nested => if key.len() == 33 {
            Ok(p2sh_script(hash160_of(wpkh_script(hash160_of(key)))))
        } else {
            Err(Error::UncompressedKey)
        },
        Category::Taproot => Err(Error::UnsupportedCategory),
    }
}

/// The input script derived from a serialized public key for each
/// category.
pub open spec fn key_sig_script(key: Seq<u8>, category: Category) -> Result<Seq<u8>, Error> {
    match category {
        Category::Bare => Ok(Seq::empty()),
        Category::Hashed => Ok(push_encoding(key)),
        Category::SegWit => Ok(Seq::empty()),
        Category::Nested => if key.len() == 33 {
            Ok(push_encoding(wpkh_script(hash160_of(key))))
        } else {
            Err(Error::UncompressedKey)
        },
        Category::Taproot => Err(Error::UnsupportedCategory),
    }
}

/// The witness derived from a serialized public key for each category.
pub open spec fn key_witness(key: Seq<u8>, category: Category) -> Result<
    Option<Seq<Seq<u8>>>,
    Error,
> {
    match category {
        Category::Bare => Ok(None),
        Category::Hashed => Ok(None),
        Category::SegWit => if key.len() == 33 {
            Ok(Some(seq![key]))
        } else {
            Err(Error::UncompressedKey)
        },
        Category::Nested => if key.len() == 33 {
            Ok(Some(seq![key]))
        } else {
            Err(Error::UncompressedKey)
        },
        Category::Taproot => Err(Error::UnsupportedCategory),
    }
}

/// Conversion to a [`LockScript`], from which the end-point scripts of
/// each layer are then derived.
pub trait ToLockScript {
    /// The lock-script bytes this producer derives for a category, or the
    /// error.
    spec fn spec_to_lock_script(&self, category: Category) -> Result<Seq<u8>, Error>;

    /// Derives the bottom-layer lock script for a category.
    fn to_lock_script(&self, category: Category) -> (r: Result<LockScript, Error>)
        ensures
            (r matches Ok(l) ==> (self.spec_to_lock_script(category) matches Ok(b) && l@ == b)),
            (r matches Err(e) ==> self.spec_to_lock_script(category) == Err::<Seq<u8>, Error>(e)),
    ;
}

/// Conversion of a producer (a lock script or a public key) into the
/// output script of a requested category.
pub trait ToPubkeyScript {
    /// The output-script bytes this producer derives for a category, or
    /// the error.
    spec fn spec_to_pubkey_script(&self, category: Category) -> Result<Seq<u8>, Error>;

    /// Derives the output script for a category.
    fn to_pubkey_script(&self, category: Category) -> (r: Result<PubkeyScript, Error>)
        ensures
            (r matches Ok(p) ==> (self.spec_to_pubkey_script(category) matches Ok(b) && p@ == b)),
            (r matches Err(e) ==> self.spec_to_pubkey_script(category) == Err::<Seq<u8>, Error>(e)),
    ;
}

/// Full script-set generation from a producer: output script, input
/// script and witness for a requested category.
pub trait ToScripts: ToPubkeyScript {
    /// The input-script bytes this producer derives for a category, or
    /// the error.
    spec fn spec_to_sig_script(&self, category: Category) -> Result<Seq<u8>, Error>;

    /// The witness stack this producer derives for a category (absent for
    /// the legacy categories), or the error.
    spec fn spec_to_witness(&self, category: Category) -> Result<Option<Seq<Seq<u8>>>, Error>;

    /// What the producer requires of itself before deriving input-side
    /// data for a category.
    spec fn to_scripts_req(&self, category: Category) -> bool;

    /// Derives the input script for a category.
    fn to_sig_script(&self, category: Category) -> (r: Result<SigScript, Error>)
        requires
            self.to_scripts_req(category),
        ensures
            (r matches Ok(s) ==> (self.spec_to_sig_script(category) matches Ok(b) && s@ == b)),
            (r matches Err(e) ==> self.spec_to_sig_script(category) == Err::<Seq<u8>, Error>(e)),
    ;

    /// Derives the witness stack for a category.
    fn to_witness(&self, category: Category) -> (r: Result<Option<Witness>, Error>)
        requires
            self.to_scripts_req(category),
        ensures
            (r matches Ok(w) ==> (self.spec_to_witness(category) matches Ok(b) && witness_view(w)
                == b)),
            (r matches Err(e) ==> self.spec_to_witness(category) == Err::<
                Option<Seq<Seq<u8>>>,
                Error,
            >(e)),
    ;

    /// Derives the full script set for a category: the single entry point
    /// callers use once they hold a concrete producer and know the
    /// category they want.
    fn to_scripts(&self, category: Category) -> (r: Result<ScriptSet, Error>)
        requires
            self.to_scripts_req(category),
        ensures
            (r matches Ok(set) ==> ({
                &&& (self.spec_to_pubkey_script(category) matches Ok(b) && set.pubkey_script@ == b)
                &&& (self.spec_to_sig_script(category) matches Ok(b) && set.sig_script@ == b)
                &&& (self.spec_to_witness(category) matches Ok(b) && witness_view(
                    set.witness_script,
                ) == b)
            })),
            (r matches Err(e) ==> self.spec_to_pubkey_script(category) == Err::<Seq<u8>, Error>(e)
                || self.spec_to_sig_script(category) == Err::<Seq<u8>, Error>(e)
                || self.spec_to_witness(category) == Err::<Option<Seq<Seq<u8>>>, Error>(e)),
    ;
}

impl ToPubkeyScript for LockScript {
    open spec fn spec_to_pubkey_script(&self, category: Category) -> Result<Seq<u8>, Error> {
        lock_pubkey_script(self@, category)
    }

    fn to_pubkey_script(&self, category: Category) -> (r: Result<PubkeyScript, Error>) {
        match category {
            Category::Bare => Ok(PubkeyScript(copy_bytes(self.0.as_slice()))),
            Category::Hashed => {
                let h = hash160(self.0.as_slice());
                Ok(PubkeyScript::new_p2sh(h.as_slice()))
            },
            Category::SegWit => {
                let h = sha256(self.0.as_slice());
                Ok(PubkeyScript::new_v0_wsh(h.as_slice()))
            },
            Category::Nested => {
                let h = sha256(self.0.as_slice());
                let ws = PubkeyScript::new_v0_wsh(h.as_slice());
                let h2 = hash160(ws.0.as_slice());
                Ok(PubkeyScript::new_p2sh(h2.as_slice()))
            },
            Category::Taproot => Err(Error::UnsupportedCategory),
        }
    }
}

impl ToScripts for LockScript {
    open spec fn spec_to_sig_script(&self, category: Category) -> Result<Seq<u8>, Error> {
        lock_sig_script(self@, category)
    }

    open spec fn spec_to_witness(&self, category: Category) -> Result<Option<Seq<Seq<u8>>>, Error> {
        lock_witness(self@, category)
    }

    open spec fn to_scripts_req(&self, category: Category) -> bool {
        category is Hashed ==> self@.len() < max_push_len()
    }

    fn to_sig_script(&self, category: Category) -> (r: Result<SigScript, Error>) {
        match category {
            Category::Bare => Ok(SigScript::empty()),
            Category::SegWit => Ok(SigScript::empty()),
            Category::Hashed => Ok(SigScript(push_slice_script(self.0.as_slice()))),
            Category::Nested => {
                let h = sha256(self.0.as_slice());
                let ws = PubkeyScript::new_v0_wsh(h.as_slice());
                Ok(SigScript(push_slice_script(ws.0.as_slice())))
            },
            Category::Taproot => Err(Error::UnsupportedCategory),
        }
    }

    fn to_witness(&self, category: Category) -> (r: Result<Option<Witness>, Error>) {
        match category {
            Category::Bare => Ok(None),
            Category::Hashed => Ok(None),
            Category::SegWit => Ok(Some(witness_of_element(copy_bytes(self.0.as_slice())))),
            Category::Nested => Ok(Some(witness_of_element(copy_bytes(self.0.as_slice())))),
            Category::Taproot => Err(Error::UnsupportedCategory),
        }
    }

    fn to_scripts(&self, category: Category) -> (r: Result<ScriptSet, Error>) {
        let pubkey_script = match self.to_pubkey_script(category) {
            Ok(v) => v,
            Err(e) => {
                return Err(e);
            },
        };
        let sig_script = match self.to_sig_script(category) {
            Ok(v) => v,
            Err(e) => {
                return Err(e);
            },
        };
        let witness_script = match self.to_witness(category) {
            Ok(v) => v,
            Err(e) => {
                return Err(e);
            },
        };
        Ok(ScriptSet { pubkey_script, sig_script, witness_script })
    }
}

/// A witness stack holding exactly one element.
fn witness_of_element(element: Vec<u8>) -> (r: Witness)
    ensures
        r@ == seq![element@],
{
    let mut v: Vec<Vec<u8>> = Vec::new();
    v.push(element);
    let r = Witness(v);
    proof {
        assert(r@ =~= seq![v@[0]@]);
    }
    r
}

impl ToLockScript for PublicKey {
    open spec fn spec_to_lock_script(&self, category: Category) -> Result<Seq<u8>, Error> {
        key_lock_script(self@, category)
    }

    fn to_lock_script(&self, category: Category) -> (r: Result<LockScript, Error>) {
        proof {
            use_type_invariant(&*self);
        }
        match category {
            Category::Bare => {
                let mut v = push_slice_script(self.as_bytes());
                v.push(0xac);
                proof {
                    assert(v@ =~= p2pk_script(self@));
                }
                Ok(LockScript(v))
            },
            Category::Hashed => {
                let h = hash160(self.as_bytes());
                Ok(LockScript(PubkeyScript::new_p2pkh(h.as_slice()).0))
            },
            Category::SegWit => {
                if self.is_compressed() {
                    let h = hash160(self.as_bytes());
                    Ok(LockScript(PubkeyScript::new_v0_wpkh(h.as_slice()).0))
                } else {
                    Err(Error::UncompressedKey)
                }
            },
            Category::Nested => {
                if self.is_compressed() {
                    let h = hash160(self.as_bytes());
                    let w = PubkeyScript::new_v0_wpkh(h.as_slice());
                    let h2 = hash160(w.0.as_slice());
                    Ok(LockScript(PubkeyScript::new_p2sh(h2.as_slice()).0))
                } else {
                    Err(Error::UncompressedKey)
                }
            },
            Category::Taproot => Err(Error::UnsupportedCategory),
        }
    }
}

impl ToPubkeyScript for PublicKey {
    open spec fn spec_to_pubkey_script(&self, category: Category) -> Result<Seq<u8>, Error> {
        key_lock_script(self@, category)
    }

    fn to_pubkey_script(&self, category: Category) -> (r: Result<PubkeyScript, Error>) {
        match self.to_lock_script(category) {
            Ok(l) => Ok(PubkeyScript(l.0)),
            Err(e) => Err(e),
        }
    }
}

impl ToScripts for PublicKey {
    open spec fn spec_to_sig_script(&self, category: Category) -> Result<Seq<u8>, Error> {
        key_sig_script(self@, category)
    }

    open spec fn spec_to_witness(&self, category: Category) -> Result<Option<Seq<Seq<u8>>>, Error> {
        key_witness(self@, category)
    }

    open spec fn to_scripts_req(&self, category: Category) -> bool {
        true
    }

    fn to_sig_script(&self, category: Category) -> (r: Result<SigScript, Error>) {
        proof {
            use_type_invariant(&*self);
        }
        match category {
            Category::Bare => Ok(SigScript::empty()),
            Category::SegWit => Ok(SigScript::empty()),
            Category::Hashed => Ok(SigScript(push_slice_script(self.as_bytes()))),
            Category::Nested => {
                if self.is_compressed() {
                    let h = hash160(self.as_bytes());
                    let w = PubkeyScript::new_v0_wpkh(h.as_slice());
                    Ok(SigScript(push_slice_script(w.0.as_slice())))
                } else {
                    Err(Error::UncompressedKey)
                }
            },
            Category::Taproot => Err(Error::UnsupportedCategory),
        }
    }

    fn to_witness(&self, category: Category) -> (r: Result<Option<Witness>, Error>) {
        proof {
            use_type_invariant(&*self);
        }
        match category {
            Category::Bare => Ok(None),
            Category::Hashed => Ok(None),
            Category::SegWit | Category::Nested => {
                if self.is_compressed() {
                    Ok(Some(witness_of_element(copy_bytes(self.as_bytes()))))
                } else {
                    Err(Error::UncompressedKey)
                }
            },
            Category::Taproot => Err(Error::UnsupportedCategory),
        }
    }

    fn to_scripts(&self, category: Category) -> (r: Result<ScriptSet, Error>) {
        let pubkey_script = match self.to_pubkey_script(category) {
            Ok(v) => v,
            Err(e) => {
                return Err(e);
            },
        };
        let sig_script = match self.to_sig_script(category) {
            Ok(v) => v,
            Err(e) => {
                return Err(e);
            },
        };
        let witness_script = match self.to_witness(category) {
            Ok(v) => v,
            Err(e) => {
                return Err(e);
            },
        };
        Ok(ScriptSet { pubkey_script, sig_script, witness_script })
    }
}

/// For the Bare, Hashed and SegWit categories, the input-side derivation
/// of a lock script reveals exactly the pre-image of the hash the derived
/// output script embeds: the P2SH output embeds `HASH160` of the lock
/// script at bytes 2 to 21 and the input script pushes the lock script
/// itself; the segwit output embeds SHA-256 of the lock script at bytes 2
/// to 33 and the witness carries the lock script as its one element; a
/// bare output is the lock script with an empty input script.
pub proof fn lemma_script_set_commitment(lock: Seq<u8>, category: Category)
    requires
        category == Category::Bare || category == Category::Hashed || category == Category::SegWit,
    ensures
        category == Category::Bare ==> lock_pubkey_script(lock, category) == Ok::<Seq<u8>, Error>(
            lock,
        ) && lock_sig_script(lock, category) == Ok::<Seq<u8>, Error>(Seq::<u8>::empty()),
        category == Category::Hashed ==> ({
            &&& (lock_pubkey_script(lock, category) matches Ok(pk) && (hash160_of(lock).len() == 20
                ==> pk.subrange(2, 22) == hash160_of(lock)))
            &&& (lock_sig_script(lock, category) matches Ok(sig) && (clean_element(lock)
                ==> data_pushes(sig) == seq![lock]))
        }),
        category == Category::SegWit ==> ({
            &&& (lock_pubkey_script(lock, category) matches Ok(pk) && (sha256_of(lock).len() == 32
                ==> pk.subrange(2, 34) == sha256_of(lock)))
            &&& lock_witness(lock, category) == Ok::<Option<Seq<Seq<u8>>>, Error>(
                Some(seq![lock]),
            )
        }),
{
    if category == Category::Hashed {
        let pk = p2sh_script(hash160_of(lock));
        if hash160_of(lock).len() == 20 {
            assert(pk.subrange(2, 22) =~= hash160_of(lock));
        }
        if clean_element(lock) {
            lemma_data_pushes_step(lock, Seq::empty());
            lemma_append_empty(push_encoding(lock));
            assert(data_pushes(push_encoding(lock)) =~= seq![lock] + data_pushes(
                Seq::<u8>::empty(),
            ));
            assert(seq![lock] + data_pushes(Seq::<u8>::empty()) =~= seq![lock]);
        }
    } else if category == Category::SegWit {
        let pk = wsh_script(sha256_of(lock));
        if sha256_of(lock).len() == 32 {
            assert(pk.subrange(2, 34) =~= sha256_of(lock));
        }
    }
}

} // verus!
