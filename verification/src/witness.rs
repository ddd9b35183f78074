//! Witness data: the input witness stack, the witness program payload of a
//! segwit output, and the witness version.

use vstd::prelude::*;

use crate::hex::{ascii_string, hex_bytes, hex_encode, lemma_hex_bytes_ascii};

verus! {

/// The rendered lines of a witness stack: one lowercase hexadecimal line
/// per element.
pub open spec fn witness_lines(w: Seq<Seq<u8>>) -> Seq<u8>
    decreases w.len(),
{
    if w.len() == 0 {
        Seq::empty()
    } else {
        hex_bytes(w[0]) + seq![0x0au8] + witness_lines(w.drop_first())
    }
}

/// The rendered form of a witness stack: the element lines between a
/// `[` line and a `]` line.
pub open spec fn witness_display(w: Seq<Seq<u8>>) -> Seq<u8> {
    seq![0x5bu8, 0x0au8] + witness_lines(w) + seq![0x5du8, 0x0au8]
}

/// The witness stack of a transaction input: an ordered list of byte
/// strings supplied alongside a segwit spend.
#[derive(Clone, PartialEq, Eq, Hash, Debug)]
pub struct Witness(pub Vec<Vec<u8>>);

impl View for Witness {
    type V = Seq<Seq<u8>>;

    open spec fn view(&self) -> Seq<Seq<u8>> {
        self.0@.map_values(|v: Vec<u8>| v@)
    }
}

impl Witness {
    /// A witness stack holding the given elements in order.
    pub fn new(elements: Vec<Vec<u8>>) -> (r: Self)
        ensures
            r@ == elements@.map_values(|v: Vec<u8>| v@),
    {
        Witness(elements)
    }

    /// The ASCII bytes of the rendered stack, one hex-encoded element per
    /// line.
    pub fn display_bytes(&self) -> (r: Vec<u8>)
        ensures
            r@ == witness_display(self@),
            forall|k: int| 0 <= k < r@.len() ==> r@[k] < 0x80,
    {
        let ghost w = self@;
        let mut buf: Vec<u8> = Vec::new();
        buf.push(0x5b);
        buf.push(0x0a);
        let mut i: usize = 0;
        proof {
            assert(w.skip(0) =~= w);
            assert(buf@ =~= seq![0x5bu8, 0x0au8]);
        }
        while i < self.0.len()
            invariant
                i <= self.0@.len(),
                w == self@,
                buf@ + witness_lines(w.skip(i as int)) + seq![0x5du8, 0x0au8] == witness_display(w),
                forall|k: int| 0 <= k < buf@.len() ==> buf@[k] < 0x80,
            decreases self.0@.len() - i,
        {
            let ghost before = w.skip(i as int);
            let mut line = hex_encode(self.0[i].as_slice());
            proof {
                assert(before[0] == w[i as int]);
                assert(w[i as int] == self.0@[i as int]@);
                lemma_hex_bytes_ascii(self.0@[i as int]@);
                assert(before.drop_first() =~= w.skip(i as int + 1));
            }
            buf.append(&mut line);
            buf.push(0x0a);
            i = i + 1;
            proof {
                assert(buf@ + witness_lines(w.skip(i as int)) + seq![0x5du8, 0x0au8] =~= witness_display(
                    w,
                ));
            }
        }
        proof {
            assert(witness_lines(w.skip(i as int)) =~= Seq::<u8>::empty());
        }
        buf.push(0x5d);
        buf.push(0x0a);
        proof {
            assert(buf@ =~= witness_display(w));
        }
        buf
    }

    /// Renders the stack, one hex-encoded element per line.
    pub fn to_string(&self) -> (s: String)
        ensures
            s@ == witness_display(self@).map_values(|b: u8| b as char),
    {
        let buf = self.display_bytes();
        ascii_string(buf)
    }
}

/// The data pushed after the version byte in a segwit output: a public-key
/// hash or a script hash, whose length implies the program's meaning.
#[derive(Clone, PartialEq, Eq, Hash, Debug)]
pub struct WitnessProgram(pub Vec<u8>);

impl View for WitnessProgram {
    type V = Seq<u8>;

    open spec fn view(&self) -> Seq<u8> {
        self.0@
    }
}

impl WitnessProgram {
    /// A witness program holding the given payload.
    pub fn new(program: Vec<u8>) -> (r: Self)
        ensures
            r@ == program@,
    {
        WitnessProgram(program)
    }

    /// Renders the program as one lowercase hexadecimal line.
    pub fn to_string(&self) -> (s: String)
        ensures
            s@ == (hex_bytes(self@) + seq![0x0au8]).map_values(|b: u8| b as char),
    {
        let mut buf = hex_encode(self.0.as_slice());
        proof {
            lemma_hex_bytes_ascii(self@);
        }
        buf.push(0x0a);
        ascii_string(buf)
    }
}

/// Version of a witness program: the value carried by the first opcode of
/// a segwit `scriptPubkey`.  A closed set of seventeen values, so that a
/// version above sixteen cannot be represented at all.
#[derive(Clone, Copy, PartialEq, Eq, Hash, Debug)]
pub enum WitnessVersion {
    /// Initial version of the witness program, used for P2WPKH and P2WSH.
    V0,
    /// Second version, reserved for Taproot.
    V1,
    /// Future version.
    V2,
    /// Future version.
    V3,
    /// Future version.
    V4,
    /// Future version.
    V5,
    /// Future version.
    V6,
    /// Future version.
    V7,
    /// Future version.
    V8,
    /// Future version.
    V9,
    /// Future version.
    V10,
    /// Future version.
    V11,
    /// Future version.
    V12,
    /// Future version.
    V13,
    /// Future version.
    V14,
    /// Future version.
    V15,
    /// Future version.
    V16,
}

/// The one way constructing a witness version can fail: the numeric
/// opcode value lies outside the valid range.
#[derive(Clone, Copy, PartialEq, Eq, Hash, Debug)]
pub enum WitnessVersionError {
    /// The opcode value provided for the version construction is not a
    /// numeric push opcode in the valid range.
    IncorrectOpcode,
}

impl WitnessVersion {
    /// The numeric value of the version, in the range `0 ..= 16`.
    pub open spec fn spec_number(self) -> u8 {
        match self {
            WitnessVersion::V0 => 0,
            WitnessVersion::V1 => 1,
            WitnessVersion::V2 => 2,
            WitnessVersion::V3 => 3,
            WitnessVersion::V4 => 4,
            WitnessVersion::V5 => 5,
            WitnessVersion::V6 => 6,
            WitnessVersion::V7 => 7,
            WitnessVersion::V8 => 8,
            WitnessVersion::V9 => 9,
            WitnessVersion::V10 => 10,
            WitnessVersion::V11 => 11,
            WitnessVersion::V12 => 12,
            WitnessVersion::V13 => 13,
            WitnessVersion::V14 => 14,
            WitnessVersion::V15 => 15,
            WitnessVersion::V16 => 16,
        }
    }

    /// The version a numeric opcode value denotes, or the range error.
    pub open spec fn spec_try_from(value: u8) -> Result<WitnessVersion, WitnessVersionError> {
        if value == 0 {
            Ok(WitnessVersion::V0)
        } else if value == 1 {
            Ok(WitnessVersion::V1)
        } else if value == 2 {
            Ok(WitnessVersion::V2)
        } else if value == 3 {
            Ok(WitnessVersion::V3)
        } else if value == 4 {
            Ok(WitnessVersion::V4)
        } else if value == 5 {
            Ok(WitnessVersion::V5)
        } else if value == 6 {
            Ok(WitnessVersion::V6)
        } else if value == 7 {
            Ok(WitnessVersion::V7)
        } else if value == 8 {
            Ok(WitnessVersion::V8)
        } else if value == 9 {
            Ok(WitnessVersion::V9)
        } else if value == 10 {
            Ok(WitnessVersion::V10)
        } else if value == 11 {
            Ok(WitnessVersion::V11)
        } else if value == 12 {
            Ok(WitnessVersion::V12)
        } else if value == 13 {
            Ok(WitnessVersion::V13)
        } else if value == 14 {
            Ok(WitnessVersion::V14)
        } else if value == 15 {
            Ok(WitnessVersion::V15)
        } else if value == 16 {
            Ok(WitnessVersion::V16)
        } else {
            Err(WitnessVersionError::IncorrectOpcode)
        }
    }

    /// Constructs the version denoted by a numeric opcode value; fails
    /// with [`WitnessVersionError::IncorrectOpcode`] exactly when the
    /// value is above sixteen.
    pub fn try_from(value: u8) -> (r: Result<WitnessVersion, WitnessVersionError>)
        ensures
            r == WitnessVersion::spec_try_from(value),
            value <= 16 <==> r is Ok,
    {
        match value {
            0 => Ok(WitnessVersion::V0),
            1 => Ok(WitnessVersion::V1),
            2 => Ok(WitnessVersion::V2),
            3 => Ok(WitnessVersion::V3),
            4 => Ok(WitnessVersion::V4),
            5 => Ok(WitnessVersion::V5),
            6 => Ok(WitnessVersion::V6),
            7 => Ok(WitnessVersion::V7),
            8 => Ok(WitnessVersion::V8),
            9 => Ok(WitnessVersion::V9),
            10 => Ok(WitnessVersion::V10),
            11 => Ok(WitnessVersion::V11),
            12 => Ok(WitnessVersion::V12),
            13 => Ok(WitnessVersion::V13),
            14 => Ok(WitnessVersion::V14),
            15 => Ok(WitnessVersion::V15),
            16 => Ok(WitnessVersion::V16),
            _ => Err(WitnessVersionError::IncorrectOpcode),
        }
    }

    /// The numeric opcode value of this version: the exact inverse of
    /// [`WitnessVersion::try_from`].
    pub fn to_u8(self) -> (r: u8)
        ensures
            r == self.spec_number(),
            r <= 16,
    {
        match self {
            WitnessVersion::V0 => 0,
            WitnessVersion::V1 => 1,
            WitnessVersion::V2 => 2,
            WitnessVersion::V3 => 3,
            WitnessVersion::V4 => 4,
            WitnessVersion::V5 => 5,
            WitnessVersion::V6 => 6,
            WitnessVersion::V7 => 7,
            WitnessVersion::V8 => 8,
            WitnessVersion::V9 => 9,
            WitnessVersion::V10 => 10,
            WitnessVersion::V11 => 11,
            WitnessVersion::V12 => 12,
            WitnessVersion::V13 => 13,
            WitnessVersion::V14 => 14,
            WitnessVersion::V15 => 15,
            WitnessVersion::V16 => 16,
        }
    }
}

/// Constructing a witness version succeeds exactly for the numeric values
/// zero to sixteen, fails with the range error for every other value, and
/// the conversion to the numeric opcode value is an exact inverse in both
/// directions.
pub proof fn lemma_witness_version_roundtrip()
    ensures
        forall|n: u8|
            n <= 16 ==> ((#[trigger] WitnessVersion::spec_try_from(n)) matches Ok(v)
                && v.spec_number() == n),
        forall|n: u8|
            n > 16 ==> #[trigger] WitnessVersion::spec_try_from(n) == Err::<
                WitnessVersion,
                WitnessVersionError,
            >(WitnessVersionError::IncorrectOpcode),
        forall|v: WitnessVersion|
            WitnessVersion::spec_try_from(#[trigger] v.spec_number()) == Ok::<
                WitnessVersion,
                WitnessVersionError,
            >(v),
{
}

} // verus!
