//! The descriptor generator: combinatorial expansion of a key-derivation
//! template into one concrete descriptor per requested category.
//!
//! A [`Generator`] pairs a template — an external capability that derives
//! a public key or a lock script for an unhardened index — with the
//! [`Variants`] bitset of requested categories.  Its compact notation is
//! `VVVV<TEMPLATE>`: the fixed-order variant codes, then the template's
//! own notation between angle brackets.

use vstd::prelude::*;
use vstd::seq_lib::*;
use vstd::string::StringSliceAdditionalSpecFns;
use vstd::utf8::encode_utf8;

use crate::convert::{Category, Error};
use crate::encoding::{copy_range, push_slice_script};
use crate::hashes::{hash160, hash160_of, sha256, sha256_of};
use crate::hex::{ascii_string, lemma_ascii_chars_bytes, lemma_encode_utf8_concat};
use crate::key::{wf_pubkey_bytes, PublicKey, UnhardenedIndex};
use crate::script_types::{
    p2pk_script, p2pkh_script, p2sh_script, wpkh_script, wsh_script, LockScript, PubkeyScript,
    RedeemScript, WitnessScript,
};

verus! {

/// An element is in a concatenation exactly when it is in one of the
/// parts.
proof fn lemma_contains_append<A>(a: Seq<A>, b: Seq<A>, x: A)
    ensures
        (a + b).contains(x) <==> (a.contains(x) || b.contains(x)),
{
    if (a + b).contains(x) {
        let i = choose|i: int| 0 <= i < (a + b).len() && (a + b)[i] == x;
        if i < a.len() {
            assert(a[i] == x);
        } else {
            assert(b[i - a.len()] == x);
        }
    }
    if a.contains(x) {
        let i = choose|i: int| 0 <= i < a.len() && a[i] == x;
        assert((a + b)[i] == x);
    }
    if b.contains(x) {
        let i = choose|i: int| 0 <= i < b.len() && b[i] == x;
        assert((a + b)[a.len() + i] == x);
    }
}

/// A one-element sequence contains exactly its element.
proof fn lemma_contains_singleton<A>(y: A, x: A)
    ensures
        seq![y].contains(x) <==> x == y,
{
    if seq![y].contains(x) {
        let i = choose|i: int| 0 <= i < seq![y].len() && seq![y][i] == x;
        assert(seq![y][0] == y);
    }
    if x == y {
        assert(seq![y][0] == x);
    }
}

/// The ASCII code of the notation character for each category, in the
/// fixed serialization order bare, hashed, nested, segwit, taproot.
pub open spec fn is_variant_code(b: u8) -> bool {
    b == 0x42 || b == 0x48 || b == 0x4e || b == 0x53 || b == 0x54
}

/// A bitset over the five categories, naming which output-script variants
/// the generator shall produce.  The taproot flag is reserved: it is
/// carried and serialized, but the generator never acts on it yet.
#[derive(Clone, Copy, PartialEq, Eq, Structural, Hash, Debug)]
pub struct Variants {
    /// Produce the bare variant.
    pub bare: bool,
    /// Produce the hashed (P2SH / P2PKH) variant.
    pub hashed: bool,
    /// Produce the P2SH-nested segwit variant.
    pub nested: bool,
    /// Produce the native segwit v0 variant.
    pub segwit: bool,
    /// Reserved for Taproot; currently inert.
    pub taproot: bool,
}

impl Variants {
    /// Whether a category is enabled.
    pub open spec fn spec_enabled(&self, category: Category) -> bool {
        match category {
            Category::Bare => self.bare,
            Category::Hashed => self.hashed,
            Category::Nested => self.nested,
            Category::SegWit => self.segwit,
            Category::Taproot => self.taproot,
        }
    }

    /// The notation bytes: one fixed-order code character per enabled
    /// category.
    pub open spec fn spec_bytes(&self) -> Seq<u8> {
        (if self.bare {
            seq![0x42u8]
        } else {
            Seq::<u8>::empty()
        }) + (if self.hashed {
            seq![0x48u8]
        } else {
            Seq::<u8>::empty()
        }) + (if self.nested {
            seq![0x4eu8]
        } else {
            Seq::<u8>::empty()
        }) + (if self.segwit {
            seq![0x53u8]
        } else {
            Seq::<u8>::empty()
        }) + (if self.taproot {
            seq![0x54u8]
        } else {
            Seq::<u8>::empty()
        })
    }

    /// The bitset a notation byte string denotes: each byte must be a
    /// code character, and each code enables its category.
    pub open spec fn spec_parse(s: Seq<u8>) -> Option<Variants> {
        if forall|i: int| 0 <= i < s.len() ==> is_variant_code(#[trigger] s[i]) {
            Some(
                Variants {
                    bare: s.contains(0x42),
                    hashed: s.contains(0x48),
                    nested: s.contains(0x4e),
                    segwit: s.contains(0x53),
                    taproot: s.contains(0x54),
                },
            )
        } else {
            None
        }
    }

    /// Whether a category is enabled.
    pub fn enabled(&self, category: Category) -> (r: bool)
        ensures
            r == self.spec_enabled(category),
    {
        match category {
            Category::Bare => self.bare,
            Category::Hashed => self.hashed,
            Category::Nested => self.nested,
            Category::SegWit => self.segwit,
            Category::Taproot => self.taproot,
        }
    }

    /// The notation bytes: one fixed-order code character per enabled
    /// category.
    pub fn code_bytes(&self) -> (r: Vec<u8>)
        ensures
            r@ == self.spec_bytes(),
    {
        let mut buf: Vec<u8> = Vec::new();
        if self.bare {
            buf.push(0x42);
        }
        if self.hashed {
            buf.push(0x48);
        }
        if self.nested {
            buf.push(0x4e);
        }
        if self.segwit {
            buf.push(0x53);
        }
        if self.taproot {
            buf.push(0x54);
        }
        proof {
            assert(buf@ =~= self.spec_bytes());
        }
        buf
    }

    /// Parses the notation bytes of a bitset; `None` exactly when some
    /// byte is not a code character.
    pub fn parse_bytes(s: &[u8]) -> (r: Option<Variants>)
        ensures
            r == Variants::spec_parse(s@),
    {
        let mut v = Variants {
            bare: false,
            hashed: false,
            nested: false,
            segwit: false,
            taproot: false,
        };
        let mut i: usize = 0;
        proof {
            assert(s@.take(0) =~= Seq::<u8>::empty());
        }
        while i < s.len()
            invariant
                i <= s@.len(),
                forall|j: int| 0 <= j < i ==> is_variant_code(#[trigger] s@[j]),
                v.bare == s@.take(i as int).contains(0x42),
                v.hashed == s@.take(i as int).contains(0x48),
                v.nested == s@.take(i as int).contains(0x4e),
                v.segwit == s@.take(i as int).contains(0x53),
                v.taproot == s@.take(i as int).contains(0x54),
            decreases s@.len() - i,
        {
            let ghost t1 = s@.take(i as int);
            let b = s[i];
            match b {
                0x42 => v.bare = true,
                0x48 => v.hashed = true,
                0x4e => v.nested = true,
                0x53 => v.segwit = true,
                0x54 => v.taproot = true,
                _ => {
                    proof {
                        assert(!is_variant_code(s@[i as int]));
                    }
                    return None;
                },
            }
            i = i + 1;
            proof {
                let t2 = s@.take(i as int);
                assert(t2 =~= t1 + seq![s@[i - 1]]);
                lemma_contains_append(t1, seq![s@[i - 1]], 0x42u8);
                lemma_contains_append(t1, seq![s@[i - 1]], 0x48u8);
                lemma_contains_append(t1, seq![s@[i - 1]], 0x4eu8);
                lemma_contains_append(t1, seq![s@[i - 1]], 0x53u8);
                lemma_contains_append(t1, seq![s@[i - 1]], 0x54u8);
                lemma_contains_singleton(s@[i - 1], 0x42u8);
                lemma_contains_singleton(s@[i - 1], 0x48u8);
                lemma_contains_singleton(s@[i - 1], 0x4eu8);
                lemma_contains_singleton(s@[i - 1], 0x53u8);
                lemma_contains_singleton(s@[i - 1], 0x54u8);
            }
        }
        proof {
            assert(s@.take(i as int) =~= s@);
        }
        Some(v)
    }

    /// Renders the bitset as its fixed-order code characters.
    pub fn to_string(&self) -> (s: String)
        ensures
            encode_utf8(s@) == self.spec_bytes(),
    {
        let buf = self.code_bytes();
        proof {
            lemma_variants_code_range(*self);
            lemma_ascii_chars_bytes(buf@);
        }
        ascii_string(buf)
    }
}

/// Every byte of a bitset's notation is a code character.
pub proof fn lemma_variants_code_range(v: Variants)
    ensures
        forall|i: int|
            0 <= i < v.spec_bytes().len() ==> is_variant_code(#[trigger] v.spec_bytes()[i]),
{
    lemma_variants_roundtrip(v);
}

/// Parsing a bitset's own notation yields the bitset back.
pub proof fn lemma_variants_roundtrip(v: Variants)
    ensures
        Variants::spec_parse(v.spec_bytes()) == Some(v),
        forall|i: int|
            0 <= i < v.spec_bytes().len() ==> is_variant_code(#[trigger] v.spec_bytes()[i]),
        !v.spec_bytes().contains(0x3c),
{
    let p1 = if v.bare {
        seq![0x42u8]
    } else {
        Seq::<u8>::empty()
    };
    let p2 = if v.hashed {
        seq![0x48u8]
    } else {
        Seq::<u8>::empty()
    };
    let p3 = if v.nested {
        seq![0x4eu8]
    } else {
        Seq::<u8>::empty()
    };
    let p4 = if v.segwit {
        seq![0x53u8]
    } else {
        Seq::<u8>::empty()
    };
    let p5 = if v.taproot {
        seq![0x54u8]
    } else {
        Seq::<u8>::empty()
    };
    let s = v.spec_bytes();
    assert(s == p1 + p2 + p3 + p4 + p5);
    assert forall|x: u8| #[trigger] s.contains(x) implies (v.bare && x == 0x42) || (v.hashed && x
        == 0x48) || (v.nested && x == 0x4e) || (v.segwit && x == 0x53) || (v.taproot && x
        == 0x54) by {
        lemma_contains_append(p1 + p2 + p3 + p4, p5, x);
        lemma_contains_append(p1 + p2 + p3, p4, x);
        lemma_contains_append(p1 + p2, p3, x);
        lemma_contains_append(p1, p2, x);
        if v.bare {
            lemma_contains_singleton(0x42u8, x);
        }
        if v.hashed {
            lemma_contains_singleton(0x48u8, x);
        }
        if v.nested {
            lemma_contains_singleton(0x4eu8, x);
        }
        if v.segwit {
            lemma_contains_singleton(0x53u8, x);
        }
        if v.taproot {
            lemma_contains_singleton(0x54u8, x);
        }
    }
    assert forall|x: u8|
        ((v.bare && x == 0x42) || (v.hashed && x == 0x48) || (v.nested && x == 0x4e) || (v.segwit
            && x == 0x53) || (v.taproot && x == 0x54)) implies #[trigger] s.contains(x) by {
        lemma_contains_append(p1 + p2 + p3 + p4, p5, x);
        lemma_contains_append(p1 + p2 + p3, p4, x);
        lemma_contains_append(p1 + p2, p3, x);
        lemma_contains_append(p1, p2, x);
        if v.bare && x == 0x42 {
            assert(p1[0] == x);
            assert(p1.contains(x));
        }
        if v.hashed && x == 0x48 {
            assert(p2[0] == x);
            assert(p2.contains(x));
        }
        if v.nested && x == 0x4e {
            assert(p3[0] == x);
            assert(p3.contains(x));
        }
        if v.segwit && x == 0x53 {
            assert(p4[0] == x);
            assert(p4.contains(x));
        }
        if v.taproot && x == 0x54 {
            assert(p5[0] == x);
            assert(p5.contains(x));
        }
    }
    assert forall|i: int| 0 <= i < s.len() implies is_variant_code(#[trigger] s[i]) by {
        assert(s.contains(s[i]));
    }
}

/// The template capability a generator consumes: an external key-derivation
/// template that yields a single public key per index (single-signature
/// case) or a lock script per index and category (general case), and that
/// has a notation of its own.  Single-signature templates derive a
/// well-formed compressed key for every unhardened index — an invariant
/// enforced at the template's construction boundary — and their notation
/// is canonical: parsing a rendered template yields a template with the
/// same notation and the same derivations.
pub trait DeriveLockScript: Sized {
    /// Whether this is a single-signature template.
    spec fn is_single_sig(&self) -> bool;

    /// The serialized key derived for an index (meaningful for
    /// single-signature templates).
    spec fn spec_public_key(&self, index: UnhardenedIndex) -> Seq<u8>;

    /// The lock-script bytes derived for an index and category, or the
    /// template's error.
    spec fn spec_lock_script(&self, index: UnhardenedIndex, category: Category) -> Result<
        Seq<u8>,
        Error,
    >;

    /// The template's notation bytes.
    spec fn template_bytes(&self) -> Seq<u8>;

    /// Which notation byte strings parse as a template.
    spec fn spec_parses(s: Seq<u8>) -> bool;

    /// Whether this is a single-signature template.
    fn single_sig(&self) -> (r: bool)
        ensures
            r == self.is_single_sig(),
    ;

    /// Derives the public key for an index.  Single-signature templates
    /// derive a compressed key for every unhardened index; a failure here
    /// would be a violation of their construction invariant, not a
    /// runtime error.
    fn try_derive_public_key(&self, index: UnhardenedIndex) -> (pk: PublicKey)
        requires
            self.is_single_sig(),
        ensures
            pk@ == self.spec_public_key(index),
            pk.spec_compressed(),
    ;

    /// Derives the lock script for an index and category; failures are the
    /// template's own and are propagated verbatim by the generator.
    fn derive_lock_script(&self, index: UnhardenedIndex, category: Category) -> (r: Result<
        LockScript,
        Error,
    >)
        ensures
            (r matches Ok(l) ==> (self.spec_lock_script(index, category) matches Ok(b) && l@
                == b)),
            (r matches Err(e) ==> self.spec_lock_script(index, category) == Err::<Seq<u8>, Error>(
                e,
            )),
    ;

    /// Renders the template in its own notation.
    fn template_string(&self) -> (s: String)
        ensures
            encode_utf8(s@) == self.template_bytes(),
    ;

    /// Parses a template from its notation bytes; the notation is
    /// canonical, so the parsed template renders back to the very bytes.
    fn parse_template(s: &[u8]) -> (r: Option<Self>)
        ensures
            r is Some <==> Self::spec_parses(s@),
            (r matches Some(t) ==> t.template_bytes() == s@),
    ;
}

/// A concrete, category-tagged descriptor shape the generator emits:
/// single-key forms for single-signature templates, script forms
/// otherwise.
#[derive(Clone, PartialEq, Eq, Hash, Debug)]
pub enum Expanded {
    /// P2PK from a single key.
    Pk(PublicKey),
    /// P2PKH from a single key.
    Pkh(PublicKey),
    /// P2WPKH nested in P2SH, from a single compressed key.
    ShWpkh(PublicKey),
    /// Native P2WPKH from a single compressed key.
    Wpkh(PublicKey),
    /// A bare output script.
    Bare(PubkeyScript),
    /// P2SH around a redeem script.
    Sh(RedeemScript),
    /// P2WSH nested in P2SH, around a witness script.
    ShWsh(WitnessScript),
    /// Native P2WSH around a witness script.
    Wsh(WitnessScript),
}

/// The shape and payload bytes of an [`Expanded`] descriptor.
pub enum ExpandedView {
    /// P2PK from a single key.
    Pk(Seq<u8>),
    /// P2PKH from a single key.
    Pkh(Seq<u8>),
    /// P2WPKH nested in P2SH.
    ShWpkh(Seq<u8>),
    /// Native P2WPKH.
    Wpkh(Seq<u8>),
    /// A bare output script.
    Bare(Seq<u8>),
    /// P2SH around a redeem script.
    Sh(Seq<u8>),
    /// P2WSH nested in P2SH.
    ShWsh(Seq<u8>),
    /// Native P2WSH.
    Wsh(Seq<u8>),
}

impl View for Expanded {
    type V = ExpandedView;

    open spec fn view(&self) -> ExpandedView {
        match self {
            Expanded::Pk(pk) => ExpandedView::Pk(pk@),
            Expanded::Pkh(pk) => ExpandedView::Pkh(pk@),
            Expanded::ShWpkh(pk) => ExpandedView::ShWpkh(pk@),
            Expanded::Wpkh(pk) => ExpandedView::Wpkh(pk@),
            Expanded::Bare(s) => ExpandedView::Bare(s@),
            Expanded::Sh(s) => ExpandedView::Sh(s@),
            Expanded::ShWsh(s) => ExpandedView::ShWsh(s@),
            Expanded::Wsh(s) => ExpandedView::Wsh(s@),
        }
    }
}

/// The key variants carry a well-formed key, compressed where the shape
/// is a segwit one.
pub open spec fn expanded_wf(e: ExpandedView) -> bool {
    match e {
        ExpandedView::Pk(k) => wf_pubkey_bytes(k),
        ExpandedView::Pkh(k) => wf_pubkey_bytes(k),
        ExpandedView::ShWpkh(k) => wf_pubkey_bytes(k) && k.len() == 33,
        ExpandedView::Wpkh(k) => wf_pubkey_bytes(k) && k.len() == 33,
        _ => true,
    }
}

/// The output script each descriptor shape denotes.
pub open spec fn expanded_pubkey_script(e: ExpandedView) -> Seq<u8> {
    match e {
        ExpandedView::Pk(k) => p2pk_script(k),
        ExpandedView::Pkh(k) => p2pkh_script(hash160_of(k)),
        ExpandedView::ShWpkh(k) => p2sh_script(hash160_of(wpkh_script(hash160_of(k)))),
        ExpandedView::Wpkh(k) => wpkh_script(hash160_of(k)),
        ExpandedView::Bare(s) => s,
        ExpandedView::Sh(s) => p2sh_script(hash160_of(s)),
        ExpandedView::ShWsh(s) => p2sh_script(hash160_of(wsh_script(sha256_of(s)))),
        ExpandedView::Wsh(s) => wsh_script(sha256_of(s)),
    }
}

impl Expanded {
    /// Converts the descriptor to its concrete output script — a no-fail
    /// conversion.
    pub fn to_pubkey_script(&self) -> (r: PubkeyScript)
        requires
            expanded_wf(self@),
        ensures
            r@ == expanded_pubkey_script(self@),
    {
        match self {
            Expanded::Pk(pk) => {
                proof {
                    use_type_invariant(pk);
                }
                let mut v = push_slice_script(pk.as_bytes());
                v.push(0xac);
                proof {
                    assert(v@ =~= p2pk_script(pk@));
                }
                PubkeyScript(v)
            },
            Expanded::Pkh(pk) => {
                let h = hash160(pk.as_bytes());
                PubkeyScript::new_p2pkh(h.as_slice())
            },
            Expanded::ShWpkh(pk) => {
                let h = hash160(pk.as_bytes());
                let w = PubkeyScript::new_v0_wpkh(h.as_slice());
                let h2 = hash160(w.0.as_slice());
                PubkeyScript::new_p2sh(h2.as_slice())
            },
            Expanded::Wpkh(pk) => {
                let h = hash160(pk.as_bytes());
                PubkeyScript::new_v0_wpkh(h.as_slice())
            },
            Expanded::Bare(s) => PubkeyScript(crate::encoding::copy_bytes(s.0.as_slice())),
            Expanded::Sh(s) => {
                let h = hash160(s.0.as_slice());
                PubkeyScript::new_p2sh(h.as_slice())
            },
            Expanded::ShWsh(s) => {
                let h = sha256(s.0.as_slice());
                let w = PubkeyScript::new_v0_wsh(h.as_slice());
                let h2 = hash160(w.0.as_slice());
                PubkeyScript::new_p2sh(h2.as_slice())
            },
            Expanded::Wsh(s) => {
                let h = sha256(s.0.as_slice());
                PubkeyScript::new_v0_wsh(h.as_slice())
            },
        }
    }
}

/// Error parsing a descriptor generator: the string is not of the form
/// `VVVV<TEMPLATE>`, a segment does not parse, or characters trail the
/// closing delimiter.
#[derive(Clone, Copy, PartialEq, Eq, Structural, Hash, Debug)]
pub struct GeneratorParseError;

/// A key-derivation template paired with the set of script variants to
/// generate; immutable after construction.
#[derive(Clone, PartialEq, Eq, Hash, Debug)]
pub struct Generator<T> {
    /// The key-derivation template.
    pub template: T,
    /// The categories to expand into.
    pub variants: Variants,
}

/// The descriptors a generator emits for one derivation index, one per
/// requested category; an absent entry means the category was not
/// requested.
#[derive(Clone, PartialEq, Eq, Hash, Debug)]
pub struct Descriptors {
    /// The bare descriptor, when requested.
    pub bare: Option<Expanded>,
    /// The hashed descriptor, when requested.
    pub hashed: Option<Expanded>,
    /// The nested-segwit descriptor, when requested.
    pub nested: Option<Expanded>,
    /// The native-segwit descriptor, when requested.
    pub segwit: Option<Expanded>,
}

/// The shapes and payloads of a [`Descriptors`] mapping.
pub struct DescriptorsView {
    /// The bare entry.
    pub bare: Option<ExpandedView>,
    /// The hashed entry.
    pub hashed: Option<ExpandedView>,
    /// The nested entry.
    pub nested: Option<ExpandedView>,
    /// The segwit entry.
    pub segwit: Option<ExpandedView>,
}

/// The view of an optional descriptor.
pub open spec fn opt_view(e: Option<Expanded>) -> Option<ExpandedView> {
    match e {
        Some(x) => Some(x@),
        None => None,
    }
}

impl View for Descriptors {
    type V = DescriptorsView;

    open spec fn view(&self) -> DescriptorsView {
        DescriptorsView {
            bare: opt_view(self.bare),
            hashed: opt_view(self.hashed),
            nested: opt_view(self.nested),
            segwit: opt_view(self.segwit),
        }
    }
}

impl DescriptorsView {
    /// The entry for a category; Taproot never has one.
    pub open spec fn spec_get(&self, category: Category) -> Option<ExpandedView> {
        match category {
            Category::Bare => self.bare,
            Category::Hashed => self.hashed,
            Category::Nested => self.nested,
            Category::SegWit => self.segwit,
            Category::Taproot => None,
        }
    }
}

impl Descriptors {
    /// The entry for a category; Taproot never has one.
    pub fn get(&self, category: Category) -> (r: Option<&Expanded>)
        ensures
            (r matches Some(e) ==> self@.spec_get(category) == Some(e@)),
            (r is None <==> self@.spec_get(category) is None),
    {
        match category {
            Category::Bare => self.bare.as_ref(),
            Category::Hashed => self.hashed.as_ref(),
            Category::Nested => self.nested.as_ref(),
            Category::SegWit => self.segwit.as_ref(),
            Category::Taproot => None,
        }
    }
}

/// The concrete output scripts a generator emits for one derivation
/// index, one per requested category.
#[derive(Clone, PartialEq, Eq, Hash, Debug)]
pub struct PubkeyScripts {
    /// The bare output script, when requested.
    pub bare: Option<PubkeyScript>,
    /// The hashed output script, when requested.
    pub hashed: Option<PubkeyScript>,
    /// The nested-segwit output script, when requested.
    pub nested: Option<PubkeyScript>,
    /// The native-segwit output script, when requested.
    pub segwit: Option<PubkeyScript>,
}

/// The bytes of a [`PubkeyScripts`] mapping.
pub struct PubkeyScriptsView {
    /// The bare entry.
    pub bare: Option<Seq<u8>>,
    /// The hashed entry.
    pub hashed: Option<Seq<u8>>,
    /// The nested entry.
    pub nested: Option<Seq<u8>>,
    /// The segwit entry.
    pub segwit: Option<Seq<u8>>,
}

/// The bytes of an optional output script.
pub open spec fn opt_script_view(e: Option<PubkeyScript>) -> Option<Seq<u8>> {
    match e {
        Some(x) => Some(x@),
        None => None,
    }
}

impl View for PubkeyScripts {
    type V = PubkeyScriptsView;

    open spec fn view(&self) -> PubkeyScriptsView {
        PubkeyScriptsView {
            bare: opt_script_view(self.bare),
            hashed: opt_script_view(self.hashed),
            nested: opt_script_view(self.nested),
            segwit: opt_script_view(self.segwit),
        }
    }
}

/// The descriptor mapping a generator derives for an index: for a
/// single-signature template, the single-key shape per enabled category,
/// all sharing the one key derived for the index; otherwise the script
/// shape per enabled category, wrapping the template's lock script, with
/// the first derivation failure (in the fixed order bare, hashed, nested,
/// segwit) aborting the whole mapping.  Taproot is never derived.
pub open spec fn spec_descriptors<T: DeriveLockScript>(
    template: &T,
    variants: Variants,
    index: UnhardenedIndex,
) -> Result<DescriptorsView, Error> {
    if template.is_single_sig() {
        let k = template.spec_public_key(index);
        Ok(
            DescriptorsView {
                bare: if variants.bare {
                    Some(ExpandedView::Pk(k))
                } else {
                    None
                },
                hashed: if variants.hashed {
                    Some(ExpandedView::Pkh(k))
                } else {
                    None
                },
                nested: if variants.nested {
                    Some(ExpandedView::ShWpkh(k))
                } else {
                    None
                },
                segwit: if variants.segwit {
                    Some(ExpandedView::Wpkh(k))
                } else {
                    None
                },
            },
        )
    } else {
        let rb = template.spec_lock_script(index, Category::Bare);
        let rh = template.spec_lock_script(index, Category::Hashed);
        let rn = template.spec_lock_script(index, Category::Nested);
        let rs = template.spec_lock_script(index, Category::SegWit);
        if variants.bare && rb is Err {
            Err(rb->Err_0)
        } else if variants.hashed && rh is Err {
            Err(rh->Err_0)
        } else if variants.nested && rn is Err {
            Err(rn->Err_0)
        } else if variants.segwit && rs is Err {
            Err(rs->Err_0)
        } else {
            Ok(
                DescriptorsView {
                    bare: if variants.bare {
                        Some(ExpandedView::Bare(rb->Ok_0))
                    } else {
                        None
                    },
                    hashed: if variants.hashed {
                        Some(ExpandedView::Sh(rh->Ok_0))
                    } else {
                        None
                    },
                    nested: if variants.nested {
                        Some(ExpandedView::ShWsh(rn->Ok_0))
                    } else {
                        None
                    },
                    segwit: if variants.segwit {
                        Some(ExpandedView::Wsh(rs->Ok_0))
                    } else {
                        None
                    },
                },
            )
        }
    }
}

/// The output script of a descriptor entry.
pub open spec fn opt_expanded_script(e: Option<ExpandedView>) -> Option<Seq<u8>> {
    match e {
        Some(x) => Some(expanded_pubkey_script(x)),
        None => None,
    }
}

/// The output-script mapping a generator derives for an index: the
/// descriptor mapping with each entry converted to its concrete output
/// script.
pub open spec fn spec_pubkey_scripts<T: DeriveLockScript>(
    template: &T,
    variants: Variants,
    index: UnhardenedIndex,
) -> Result<PubkeyScriptsView, Error> {
    match spec_descriptors(template, variants, index) {
        Ok(d) => Ok(
            PubkeyScriptsView {
                bare: opt_expanded_script(d.bare),
                hashed: opt_expanded_script(d.hashed),
                nested: opt_expanded_script(d.nested),
                segwit: opt_expanded_script(d.segwit),
            },
        ),
        Err(e) => Err(e),
    }
}

/// The shapes and payloads of a descriptor-expansion result.
pub open spec fn descriptors_result_view(r: Result<Descriptors, Error>) -> Result<
    DescriptorsView,
    Error,
> {
    match r {
        Ok(d) => Ok(d@),
        Err(e) => Err(e),
    }
}

/// The bytes of an output-script-expansion result.
pub open spec fn pubkey_scripts_result_view(r: Result<PubkeyScripts, Error>) -> Result<
    PubkeyScriptsView,
    Error,
> {
    match r {
        Ok(p) => Ok(p@),
        Err(e) => Err(e),
    }
}

/// The notation bytes of a generator: the variant codes, then the
/// template's notation between angle brackets.
pub open spec fn spec_notation<T: DeriveLockScript>(template: &T, variants: Variants) -> Seq<u8> {
    variants.spec_bytes() + seq![0x3cu8] + template.template_bytes() + seq![0x3eu8]
}

/// Splits a notation byte string at the first `<` and the final `>`: the
/// variants segment before the `<`, the template segment between.  `None`
/// when the trailing `>` or the `<` is missing.
pub open spec fn spec_split(s: Seq<u8>) -> Option<(Seq<u8>, Seq<u8>)> {
    if s.len() >= 2 && s[s.len() - 1] == 0x3e && s.index_of_first(0x3c) is Some {
        let i = s.index_of_first(0x3c)->Some_0;
        if i < s.len() - 1 {
            Some((s.take(i), s.subrange(i + 1, s.len() - 1)))
        } else {
            None
        }
    } else {
        None
    }
}

impl<T: DeriveLockScript> Generator<T> {
    /// Expands the template into one descriptor per enabled category for
    /// the given index.  The result is a function of the template, the
    /// variants and the index alone: two calls yield identical mappings.
    pub fn descriptors(&self, index: UnhardenedIndex) -> (r: Result<Descriptors, Error>)
        ensures
            descriptors_result_view(r) == spec_descriptors(&self.template, self.variants, index),
            self.template.is_single_sig() ==> wf_pubkey_bytes(self.template.spec_public_key(index))
                && self.template.spec_public_key(index).len() == 33,
    {
        if self.template.single_sig() {
            let pk = self.template.try_derive_public_key(index);
            proof {
                use_type_invariant(&pk);
            }
            let bare = if self.variants.bare {
                Some(Expanded::Pk(pk.clone()))
            } else {
                None
            };
            let hashed = if self.variants.hashed {
                Some(Expanded::Pkh(pk.clone()))
            } else {
                None
            };
            let nested = if self.variants.nested {
                Some(Expanded::ShWpkh(pk.clone()))
            } else {
                None
            };
            let segwit = if self.variants.segwit {
                Some(Expanded::Wpkh(pk))
            } else {
                None
            };
            Ok(Descriptors { bare, hashed, nested, segwit })
        } else {
            let bare = if self.variants.bare {
                match self.template.derive_lock_script(index, Category::Bare) {
                    Ok(l) => Some(Expanded::Bare(PubkeyScript(l.0))),
                    Err(e) => {
                        return Err(e);
                    },
                }
            } else {
                None
            };
            let hashed = if self.variants.hashed {
                match self.template.derive_lock_script(index, Category::Hashed) {
                    Ok(l) => Some(Expanded::Sh(RedeemScript(l.0))),
                    Err(e) => {
                        return Err(e);
                    },
                }
            } else {
                None
            };
            let nested = if self.variants.nested {
                match self.template.derive_lock_script(index, Category::Nested) {
                    Ok(l) => Some(Expanded::ShWsh(WitnessScript(l.0))),
                    Err(e) => {
                        return Err(e);
                    },
                }
            } else {
                None
            };
            let segwit = if self.variants.segwit {
                match self.template.derive_lock_script(index, Category::SegWit) {
                    Ok(l) => Some(Expanded::Wsh(WitnessScript(l.0))),
                    Err(e) => {
                        return Err(e);
                    },
                }
            } else {
                None
            };
            Ok(Descriptors { bare, hashed, nested, segwit })
        }
    }

    /// Expands the template into one concrete output script per enabled
    /// category for the given index; inherits the failure behaviour of
    /// [`Generator::descriptors`].
    pub fn pubkey_scripts(&self, index: UnhardenedIndex) -> (r: Result<PubkeyScripts, Error>)
        ensures
            pubkey_scripts_result_view(r) == spec_pubkey_scripts(
                &self.template,
                self.variants,
                index,
            ),
    {
        let d = match self.descriptors(index) {
            Ok(d) => d,
            Err(e) => {
                return Err(e);
            },
        };
        proof {
            lemma_descriptors_wf(&self.template, self.variants, index);
        }
        let bare = match &d.bare {
            Some(e) => Some(e.to_pubkey_script()),
            None => None,
        };
        let hashed = match &d.hashed {
            Some(e) => Some(e.to_pubkey_script()),
            None => None,
        };
        let nested = match &d.nested {
            Some(e) => Some(e.to_pubkey_script()),
            None => None,
        };
        let segwit = match &d.segwit {
            Some(e) => Some(e.to_pubkey_script()),
            None => None,
        };
        Ok(PubkeyScripts { bare, hashed, nested, segwit })
    }

    /// Renders the generator in its compact notation.
    pub fn to_string(&self) -> (s: String)
        ensures
            encode_utf8(s@) == spec_notation(&self.template, self.variants),
    {
        let mut out = self.variants.to_string();
        let ghost c0 = out@;
        out.append("<");
        let ts = self.template.template_string();
        out.append(ts.as_str());
        let ghost c1 = out@;
        out.append(">");
        proof {
            reveal_strlit("<");
            reveal_strlit(">");
            assert("<"@ =~= seq![0x3cu8].map_values(|b: u8| b as char));
            assert(">"@ =~= seq![0x3eu8].map_values(|b: u8| b as char));
            lemma_ascii_chars_bytes(seq![0x3cu8]);
            lemma_ascii_chars_bytes(seq![0x3eu8]);
            lemma_encode_utf8_concat(c0, "<"@);
            lemma_encode_utf8_concat(c0 + "<"@, ts@);
            assert(c1 =~= (c0 + "<"@) + ts@);
            lemma_encode_utf8_concat(c1, ">"@);
            assert(encode_utf8(out@) =~= spec_notation(&self.template, self.variants));
        }
        out
    }

    /// Parses a generator from its compact notation.  Fails exactly when
    /// the trailing `>` or the `<` delimiter is missing, or one of the two
    /// segments does not parse; no partial generator is ever returned.
    pub fn from_str(s: &str) -> (r: Result<Generator<T>, GeneratorParseError>)
        ensures
            (match spec_split(s.spec_bytes()) {
                None => r == Err::<Generator<T>, GeneratorParseError>(GeneratorParseError),
                Some(parts) => {
                    if Variants::spec_parse(parts.0) is Some && T::spec_parses(parts.1) {
                        r matches Ok(g) && g.variants == Variants::spec_parse(parts.0)->Some_0
                            && g.template.template_bytes() == parts.1
                    } else {
                        r == Err::<Generator<T>, GeneratorParseError>(GeneratorParseError)
                    }
                },
            }),
    {
        let b = s.as_bytes();
        let n = b.len();
        if n < 2 || b[n - 1] != 0x3e {
            return Err(GeneratorParseError);
        }
        let mut i: usize = 0;
        while i < n && b[i] != 0x3c
            invariant
                i <= n == b@.len(),
                forall|j: int| 0 <= j < i ==> b@[j] != 0x3c,
            decreases n - i,
        {
            i = i + 1;
        }
        proof {
            b@.index_of_first_ensures(0x3c);
        }
        if i == n {
            return Err(GeneratorParseError);
        }
        if i == n - 1 {
            return Err(GeneratorParseError);
        }
        let vbytes = copy_range(b, 0, i);
        let variants = match Variants::parse_bytes(vbytes.as_slice()) {
            Some(v) => v,
            None => {
                return Err(GeneratorParseError);
            },
        };
        let tbytes = copy_range(b, i + 1, n - i - 2);
        let template = match T::parse_template(tbytes.as_slice()) {
            Some(t) => t,
            None => {
                return Err(GeneratorParseError);
            },
        };
        Ok(Generator { template, variants })
    }
}

/// Every descriptor a generator emits is well formed: single-key shapes
/// carry the compressed key of a single-signature template.
pub proof fn lemma_descriptors_wf<T: DeriveLockScript>(
    template: &T,
    variants: Variants,
    index: UnhardenedIndex,
)
    requires
        template.is_single_sig() ==> wf_pubkey_bytes(template.spec_public_key(index))
            && template.spec_public_key(index).len() == 33,
    ensures
        spec_descriptors(template, variants, index) matches Ok(d) ==> ({
            &&& (d.bare matches Some(e) ==> expanded_wf(e))
            &&& (d.hashed matches Some(e) ==> expanded_wf(e))
            &&& (d.nested matches Some(e) ==> expanded_wf(e))
            &&& (d.segwit matches Some(e) ==> expanded_wf(e))
        }),
{
}

/// Determinism: for a fixed template, variants and index, any two results
/// the descriptor expansion may return — the premises are exactly the
/// contract of [`Generator::descriptors`] — are identical mappings, with
/// byte-identical entries.
pub proof fn lemma_descriptors_deterministic<T: DeriveLockScript>(
    template: &T,
    variants: Variants,
    index: UnhardenedIndex,
    r1: Result<Descriptors, Error>,
    r2: Result<Descriptors, Error>,
)
    requires
        descriptors_result_view(r1) == spec_descriptors(template, variants, index),
        descriptors_result_view(r2) == spec_descriptors(template, variants, index),
    ensures
        descriptors_result_view(r1) == descriptors_result_view(r2),
{
}

/// Selectivity: when a mapping is produced at all, its key set is exactly
/// the set of enabled categories among bare, hashed, nested and segwit;
/// Taproot never appears, even when requested.  A single-signature
/// template always produces a mapping.
pub proof fn lemma_descriptors_selective<T: DeriveLockScript>(
    template: &T,
    variants: Variants,
    index: UnhardenedIndex,
)
    ensures
        spec_descriptors(template, variants, index) matches Ok(d) ==> (forall|c: Category|
            (#[trigger] d.spec_get(c)) is Some <==> (variants.spec_enabled(c) && c
                != Category::Taproot)),
        template.is_single_sig() ==> spec_descriptors(template, variants, index) is Ok,
{
    if spec_descriptors(template, variants, index) is Ok {
        let d = spec_descriptors(template, variants, index)->Ok_0;
        assert forall|c: Category| (#[trigger] d.spec_get(c)) is Some <==> (variants.spec_enabled(c)
            && c != Category::Taproot) by {
            match c {
                Category::Bare => {},
                Category::Hashed => {},
                Category::Nested => {},
                Category::SegWit => {},
                Category::Taproot => {},
            }
        }
    }
}

/// Round trip of the compact notation: the rendered form of a generator
/// splits back into exactly its variant codes and its template's
/// notation, and the variants segment parses back to the same bitset.
/// Together with the contract of [`Generator::from_str`], parsing the
/// rendered form of a generator whose template notation is parse-stable
/// yields a generator with equal variants and a template of identical
/// notation, hence identical derivations under a canonical template
/// grammar.
pub proof fn lemma_notation_roundtrip<T: DeriveLockScript>(template: &T, variants: Variants)
    ensures
        spec_split(spec_notation(template, variants)) matches Some(parts) && parts.0
            == variants.spec_bytes() && parts.1 == template.template_bytes(),
        Variants::spec_parse(variants.spec_bytes()) == Some(variants),
{
    lemma_variants_roundtrip(variants);
    let s = spec_notation(template, variants);
    let vb = variants.spec_bytes();
    let tb = template.template_bytes();
    assert(s[s.len() - 1] == 0x3e);
    assert(s[vb.len() as int] == 0x3c);
    s.index_of_first_ensures(0x3c);
    assert(s.contains(0x3c)) by {
        assert(s[vb.len() as int] == 0x3c);
    }
    let i = s.index_of_first(0x3c)->Some_0;
    assert(vb.len() <= i) by {
        if i < vb.len() {
            assert(s[i] == vb[i]);
            assert(vb.contains(s[i]));
        }
    }
    assert(i == vb.len());
    assert(s.take(i) =~= vb);
    assert(s.subrange(i + 1, s.len() - 1) =~= tb);
}

} // verus!
