//! The script-set aggregate: output script, input script and optional
//! witness stack, with the legacy/segwit transmutation.

use vstd::prelude::*;

use crate::encoding::{
    clean_element, data_pushes, extract_data_pushes, lemma_pushes_roundtrip, max_push_len,
    script_of_elements, script_pushing_elements,
};
use crate::hex::{ascii_string, hex_bytes, hex_encode, lemma_hex_bytes_ascii};
use crate::script_types::{PubkeyScript, SigScript};
use crate::witness::{witness_display, Witness};

verus! {

/// The stack contents of an optional witness.
pub open spec fn witness_view(w: Option<Witness>) -> Option<Seq<Seq<u8>>> {
    match w {
        Some(wit) => Some(wit@),
        None => None,
    }
}

/// The rendered form of a script set: input script, witness stack (absent
/// for legacy sets) and output script, space-separated, scripts in
/// lowercase hexadecimal.
pub open spec fn script_set_display(s: &ScriptSet) -> Seq<u8> {
    hex_bytes(s.sig_script@) + seq![0x20u8] + (match s.witness_script {
        Some(w) => witness_display(w@),
        None => Seq::<u8>::empty(),
    }) + seq![0x20u8] + hex_bytes(s.pubkey_script@)
}

/// Scripting data for a transaction output together with the input data
/// that satisfies it: generated from a lock script or a public key under a
/// particular category.
#[derive(Clone, PartialEq, Eq, Hash, Debug)]
pub struct ScriptSet {
    /// The output script.
    pub pubkey_script: PubkeyScript,
    /// The input script; empty for pure segwit spends.
    pub sig_script: SigScript,
    /// The witness stack, absent for pre-segwit spends.
    pub witness_script: Option<Witness>,
}

impl ScriptSet {
    /// Whether the structure carries witness data.
    pub open spec fn spec_has_witness(&self) -> bool {
        self.witness_script is Some
    }

    /// Whether the structure is a witness program nested in P2SH
    /// (P2SH-P2WPKH or P2SH-P2WSH): both a non-empty input script and a
    /// witness are present.
    pub open spec fn spec_is_witness_sh(&self) -> bool {
        self.sig_script@.len() > 0 && self.spec_has_witness()
    }

    /// Every witness element fits a script push, so the stack can be
    /// re-encoded as an input script.
    pub open spec fn witness_encodable(&self) -> bool {
        match self.witness_script {
            Some(w) => forall|i: int| 0 <= i < w@.len() ==> (#[trigger] w@[i]).len() < max_push_len(),
            None => true,
        }
    }

    /// Detects whether the structure contains witness data.
    pub fn has_witness(&self) -> (r: bool)
        ensures
            r == self.spec_has_witness(),
    {
        match &self.witness_script {
            Some(_) => true,
            None => false,
        }
    }

    /// Detects whether the structure is either P2SH-P2WPKH or P2SH-P2WSH.
    pub fn is_witness_sh(&self) -> (r: bool)
        ensures
            r == self.spec_is_witness_sh(),
    {
        self.sig_script.0.len() > 0 && self.has_witness()
    }

    /// Converts a witness-based script structure into a pre-segwit one and
    /// vice versa, in place.  Returns `true` exactly when the structure
    /// changed: the set is not a witness program nested in P2SH (that
    /// combination is never transmuted and stays byte-for-byte unchanged),
    /// and it is not already in the requested form.
    ///
    /// Towards witness form, every pushed data element of the input script
    /// becomes one stack element in order (non-push instructions are
    /// dropped, best effort); towards legacy form, every stack element
    /// becomes one data push in order.
    pub fn transmutate(&mut self, use_witness: bool) -> (changed: bool)
        requires
            use_witness || old(self).witness_encodable(),
        ensures
            changed == (!old(self).spec_is_witness_sh() && old(self).spec_has_witness()
                != use_witness),
            old(self).spec_is_witness_sh() ==> !changed && *final(self) == *old(self),
            !changed ==> *final(self) == *old(self),
            changed ==> final(self).pubkey_script@ == old(self).pubkey_script@,
            changed && use_witness ==> final(self).sig_script@.len() == 0 && witness_view(
                final(self).witness_script,
            ) == Some(data_pushes(old(self).sig_script@)),
            changed && !use_witness ==> final(self).witness_script is None && (old(
                self,
            ).witness_script matches Some(w) && final(self).sig_script@ == script_of_elements(w@)),
    {
        if self.is_witness_sh() {
            return false;
        }
        let hw = self.has_witness();
        if hw != use_witness {
            if use_witness {
                let elems = extract_data_pushes(self.sig_script.0.as_slice());
                self.witness_script = Some(Witness(elems));
                self.sig_script = SigScript::empty();
                true
            } else {
                let script = match &self.witness_script {
                    Some(w) => {
                        proof {
                            assert forall|j: int|
                                0 <= j < w.0@.len() implies (#[trigger] w.0@[j])@.len()
                                < max_push_len() by {
                                assert(w@[j] == w.0@[j]@);
                            }
                        }
                        script_pushing_elements(&w.0)
                    },
                    None => {
                        return false;
                    },
                };
                self.sig_script = SigScript(script);
                self.witness_script = None;
                true
            }
        } else {
            false
        }
    }

    /// Renders the set as input script, witness stack and output script,
    /// space-separated.
    pub fn to_string(&self) -> (s: String)
        ensures
            s@ == script_set_display(self).map_values(|b: u8| b as char),
    {
        let mut buf = hex_encode(self.sig_script.0.as_slice());
        proof {
            lemma_hex_bytes_ascii(self.sig_script@);
        }
        buf.push(0x20);
        match &self.witness_script {
            Some(w) => {
                let mut wd = w.display_bytes();
                buf.append(&mut wd);
            },
            None => {},
        }
        buf.push(0x20);
        let mut ph = hex_encode(self.pubkey_script.0.as_slice());
        proof {
            lemma_hex_bytes_ascii(self.pubkey_script@);
        }
        buf.append(&mut ph);
        proof {
            assert(buf@ =~= script_set_display(self));
        }
        ascii_string(buf)
    }
}

/// Transmuting a legacy script set whose input script is a sequence of
/// clean data pushes into witness form and back restores the input-script
/// bytes exactly.  (A push of a single small numeric byte, such as the
/// two bytes `0x01 0x05`, is not clean: the minimal-encoding rule drops
/// it on extraction, so such content does not round-trip, by design.)
pub proof fn lemma_transmutate_roundtrip(sig: Seq<u8>, elems: Seq<Seq<u8>>)
    requires
        sig == script_of_elements(elems),
        forall|i: int| 0 <= i < elems.len() ==> clean_element(#[trigger] elems[i]),
    ensures
        script_of_elements(data_pushes(sig)) == sig,
{
    lemma_pushes_roundtrip(elems);
}

} // verus!
