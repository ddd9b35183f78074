//! Byte-level encoding of script data pushes.
//!
//! A Bitcoin script carries data as *push* instructions: an opcode below
//! `0x4c` pushes that many following bytes, and the three `OP_PUSHDATA`
//! opcodes carry an explicit one-, two- or four-byte little-endian length.
//! This module states the minimal push encoding, extracts the pushed data
//! elements of a script, and proves that extraction inverts encoding.

use vstd::arithmetic::div_mod::lemma_fundamental_div_mod;
use vstd::prelude::*;

verus! {

/// The largest data length a single push instruction can carry.
pub open spec fn max_push_len() -> int {
    0x1_0000_0000
}

/// The minimal push encoding of one data element: length opcode (or
/// `OP_PUSHDATA1/2/4` with a little-endian length) followed by the data.
pub open spec fn push_encoding(data: Seq<u8>) -> Seq<u8>
    recommends
        data.len() < max_push_len(),
{
    if data.len() < 0x4c {
        seq![data.len() as u8] + data
    } else if data.len() < 0x100 {
        seq![0x4cu8, data.len() as u8] + data
    } else if data.len() < 0x1_0000 {
        seq![0x4du8, (data.len() % 0x100) as u8, (data.len() / 0x100) as u8] + data
    } else {
        seq![
            0x4eu8,
            (data.len() % 0x100) as u8,
            ((data.len() / 0x100) % 0x100) as u8,
            ((data.len() / 0x1_0000) % 0x100) as u8,
            ((data.len() / 0x100_0000) % 0x100) as u8,
        ] + data
    }
}

/// A data element whose minimal push encoding is also read back as one
/// data push: it fits a push instruction, and it is not a single byte that
/// the minimal-encoding rule reserves for a numeric opcode.
pub open spec fn clean_element(e: Seq<u8>) -> bool {
    &&& e.len() < max_push_len()
    &&& !(e.len() == 1 && (e[0] == 0x81 || (1 <= e[0] && e[0] <= 16)))
}

/// The script that pushes the given data elements in order, one minimal
/// push instruction each.
pub open spec fn script_of_elements(elems: Seq<Seq<u8>>) -> Seq<u8>
    decreases elems.len(),
{
    if elems.len() == 0 {
        Seq::empty()
    } else {
        push_encoding(elems[0]) + script_of_elements(elems.drop_first())
    }
}

/// The data elements pushed by a script, in order, under minimal-encoding
/// rules: non-push opcodes are skipped, and extraction stops at the first
/// truncated or non-minimal push.
pub open spec fn data_pushes(s: Seq<u8>) -> Seq<Seq<u8>>
    decreases s.len(),
{
    if s.len() == 0 {
        Seq::empty()
    } else {
        let op = s[0];
        if op < 0x4c {
            let n = op as int;
            if s.len() < n + 1 {
                Seq::empty()
            } else if n == 1 && (s[1] == 0x81 || (1 <= s[1] && s[1] <= 16)) {
                Seq::empty()
            } else {
                seq![s.subrange(1, n + 1)] + data_pushes(s.skip(n + 1))
            }
        } else if op == 0x4c {
            if s.len() < 2 {
                Seq::empty()
            } else {
                let n = s[1] as int;
                if n < 0x4c || s.len() < n + 2 {
                    Seq::empty()
                } else {
                    seq![s.subrange(2, n + 2)] + data_pushes(s.skip(n + 2))
                }
            }
        } else if op == 0x4d {
            if s.len() < 3 {
                Seq::empty()
            } else {
                let n = s[1] + 0x100 * (s[2] as int);
                if n < 0x100 || s.len() < n + 3 {
                    Seq::empty()
                } else {
                    seq![s.subrange(3, n + 3)] + data_pushes(s.skip(n + 3))
                }
            }
        } else if op == 0x4e {
            if s.len() < 5 {
                Seq::empty()
            } else {
                let n = s[1] + 0x100 * (s[2] as int) + 0x1_0000 * (s[3] as int) + 0x100_0000 * (
                s[4] as int);
                if n < 0x1_0000 || s.len() < n + 5 {
                    Seq::empty()
                } else {
                    seq![s.subrange(5, n + 5)] + data_pushes(s.skip(n + 5))
                }
            }
        } else {
            data_pushes(s.skip(1))
        }
    }
}

/// Copies the byte range `start .. start + count` of a slice into a fresh
/// vector.
pub fn copy_range(s: &[u8], start: usize, count: usize) -> (r: Vec<u8>)
    requires
        start + count <= s@.len(),
    ensures
        r@ == s@.subrange(start as int, start as int + count as int),
{
    let slen = s.len();
    let mut r: Vec<u8> = Vec::new();
    let mut i: usize = 0;
    while i < count
        invariant
            start + count <= slen == s@.len(),
            i <= count,
            r@ == s@.subrange(start as int, start as int + i as int),
        decreases count - i,
    {
        r.push(s[start + i]);
        i = i + 1;
        proof {
            assert(r@ =~= s@.subrange(start as int, start as int + i as int));
        }
    }
    r
}

/// Compares two byte strings for equality.
pub fn bytes_eq(a: &[u8], b: &[u8]) -> (r: bool)
    ensures
        r == (a@ =~= b@),
{
    if a.len() != b.len() {
        return false;
    }
    let mut i: usize = 0;
    while i < a.len()
        invariant
            a@.len() == b@.len(),
            i <= a@.len(),
            forall|j: int| 0 <= j < i ==> a@[j] == b@[j],
        decreases a@.len() - i,
    {
        if a[i] != b[i] {
            return false;
        }
        i = i + 1;
    }
    proof {
        assert(a@ =~= b@);
    }
    true
}

/// Copies all bytes of a slice into a fresh vector.
pub fn copy_bytes(src: &[u8]) -> (r: Vec<u8>)
    ensures
        r@ == src@,
{
    let mut r: Vec<u8> = Vec::new();
    append_bytes(&mut r, src);
    proof {
        assert(r@ =~= src@);
    }
    r
}

/// Appends all bytes of a slice to a vector.
pub fn append_bytes(dst: &mut Vec<u8>, src: &[u8])
    ensures
        final(dst)@ == old(dst)@ + src@,
{
    let ghost start = dst@;
    let mut i: usize = 0;
    while i < src.len()
        invariant
            i <= src@.len(),
            dst@ == start + src@.take(i as int),
        decreases src@.len() - i,
    {
        dst.push(src[i]);
        i = i + 1;
        proof {
            assert(dst@ =~= start + src@.take(i as int));
        }
    }
    proof {
        assert(start + src@.take(src@.len() as int) =~= start + src@);
    }
}

/// A sequence is unchanged by appending an empty tail.
pub proof fn lemma_append_empty<A>(m: Seq<A>)
    ensures
        m + Seq::<A>::empty() == m,
{
    assert(m + Seq::<A>::empty() =~= m);
}

/// Extracts the data elements pushed by a script, in order, dropping
/// non-push opcodes and stopping at the first truncated or non-minimal
/// push.
pub fn extract_data_pushes(s: &[u8]) -> (r: Vec<Vec<u8>>)
    ensures
        r@.map_values(|v: Vec<u8>| v@) == data_pushes(s@),
{
    let mut r: Vec<Vec<u8>> = Vec::new();
    let mut i: usize = 0;
    proof {
        assert(s@.skip(0) =~= s@);
    }
    while i < s.len()
        invariant
            i <= s@.len(),
            data_pushes(s@) == r@.map_values(|v: Vec<u8>| v@) + data_pushes(s@.skip(i as int)),
        decreases s@.len() - i,
    {
        let ghost prev = s@.skip(i as int);
        let ghost old_map = r@.map_values(|v: Vec<u8>| v@);
        let remaining = s.len() - i;
        let op = s[i];
        let header: usize;
        let n: usize;
        if op < 0x4c {
            header = 1;
            n = op as usize;
            if remaining < n + 1 {
                proof {
                    lemma_append_empty(old_map);
                }
                return r;
            }
            if n == 1 && (s[i + 1] == 0x81 || (1 <= s[i + 1] && s[i + 1] <= 16)) {
                proof {
                    lemma_append_empty(old_map);
                }
                return r;
            }
        } else if op == 0x4c {
            header = 2;
            if remaining < 2 {
                proof {
                    lemma_append_empty(old_map);
                }
                return r;
            }
            n = s[i + 1] as usize;
            if n < 0x4c || remaining - 2 < n {
                proof {
                    lemma_append_empty(old_map);
                }
                return r;
            }
        } else if op == 0x4d {
            header = 3;
            if remaining < 3 {
                proof {
                    lemma_append_empty(old_map);
                }
                return r;
            }
            n = s[i + 1] as usize + 0x100 * (s[i + 2] as usize);
            if n < 0x100 || remaining - 3 < n {
                proof {
                    lemma_append_empty(old_map);
                }
                return r;
            }
        } else if op == 0x4e {
            header = 5;
            if remaining < 5 {
                proof {
                    lemma_append_empty(old_map);
                }
                return r;
            }
            n = s[i + 1] as usize + 0x100 * (s[i + 2] as usize) + 0x1_0000 * (s[i + 3] as usize)
                + 0x100_0000 * (s[i + 4] as usize);
            if n < 0x1_0000 || remaining - 5 < n {
                proof {
                    lemma_append_empty(old_map);
                }
                return r;
            }
        } else {
            proof {
                assert(prev.skip(1) =~= s@.skip(i as int + 1));
            }
            i = i + 1;
            continue;
        }
        let elem = copy_range(s, i + header, n);
        proof {
            assert(elem@ =~= prev.subrange(header as int, header as int + n as int));
            assert(prev.skip(header as int + n as int) =~= s@.skip(
                i as int + header as int + n as int,
            ));
            assert(data_pushes(prev) == seq![elem@] + data_pushes(
                prev.skip(header as int + n as int),
            ));
        }
        r.push(elem);
        i = i + header + n;
        proof {
            assert(r@.map_values(|v: Vec<u8>| v@) =~= old_map.push(elem@));
            assert(old_map.push(elem@) + data_pushes(s@.skip(i as int)) =~= old_map + (seq![elem@]
                + data_pushes(s@.skip(i as int))));
        }
    }
    proof {
        assert(data_pushes(s@.skip(i as int)) =~= Seq::<Seq<u8>>::empty());
        lemma_append_empty(r@.map_values(|v: Vec<u8>| v@));
    }
    r
}

/// Relies on `bitcoin::blockdata::script::Builder::push_slice`: it appends
/// exactly the minimal push encoding of the data, and `into_script` keeps
/// those bytes unchanged.
#[verifier::external_body]
pub fn push_slice_script(data: &[u8]) -> (r: Vec<u8>)
    requires
        data@.len() < max_push_len(),
    ensures
        r@ == push_encoding(data@),
{
    bitcoin::blockdata::script::Builder::new().push_slice(data).into_script().to_bytes()
}

/// Builds the script that pushes the given elements in order, one minimal
/// push instruction each.
pub fn script_pushing_elements(elems: &Vec<Vec<u8>>) -> (r: Vec<u8>)
    requires
        forall|j: int| 0 <= j < elems@.len() ==> (#[trigger] elems@[j])@.len() < max_push_len(),
    ensures
        r@ == script_of_elements(elems@.map_values(|v: Vec<u8>| v@)),
{
    let ghost target = elems@.map_values(|v: Vec<u8>| v@);
    let mut r: Vec<u8> = Vec::new();
    let mut i: usize = 0;
    proof {
        assert(target.skip(0) =~= target);
    }
    while i < elems.len()
        invariant
            i <= elems@.len(),
            forall|j: int| 0 <= j < elems@.len() ==> (#[trigger] elems@[j])@.len() < max_push_len(),
            target == elems@.map_values(|v: Vec<u8>| v@),
            r@ + script_of_elements(target.skip(i as int)) == script_of_elements(target),
        decreases elems@.len() - i,
    {
        let ghost before = target.skip(i as int);
        let mut piece = push_slice_script(elems[i].as_slice());
        r.append(&mut piece);
        i = i + 1;
        proof {
            assert(before[0] == target[i - 1]);
            assert(before.drop_first() =~= target.skip(i as int));
            assert(r@ + script_of_elements(target.skip(i as int)) =~= script_of_elements(target));
        }
    }
    proof {
        assert(target.skip(i as int) =~= Seq::<Seq<u8>>::empty());
        assert(r@ =~= r@ + script_of_elements(Seq::<Seq<u8>>::empty()));
    }
    r
}

/// Reading one minimal push at the head of a script yields exactly the
/// encoded element and leaves the tail to be read next.
pub proof fn lemma_data_pushes_step(e: Seq<u8>, rest: Seq<u8>)
    requires
        clean_element(e),
    ensures
        data_pushes(push_encoding(e) + rest) == seq![e] + data_pushes(rest),
{
    let s = push_encoding(e) + rest;
    let len = e.len() as int;
    if len < 0x4c {
        assert(s[0] == len as u8);
        assert(s.subrange(1, len + 1) =~= e);
        assert(s.skip(len + 1) =~= rest);
        assert(data_pushes(s) =~= seq![e] + data_pushes(rest));
    } else if len < 0x100 {
        assert(s[0] == 0x4c && s[1] == len as u8);
        assert(s.subrange(2, len + 2) =~= e);
        assert(s.skip(len + 2) =~= rest);
        assert(data_pushes(s) =~= seq![e] + data_pushes(rest));
    } else if len < 0x1_0000 {
        assert(s[0] == 0x4d && s[1] == (len % 0x100) as u8 && s[2] == (len / 0x100) as u8);
        lemma_fundamental_div_mod(len, 0x100);
        assert(s[1] + 0x100 * (s[2] as int) == len);
        assert(s.subrange(3, len + 3) =~= e);
        assert(s.skip(len + 3) =~= rest);
        assert(data_pushes(s) =~= seq![e] + data_pushes(rest));
    } else {
        assert(s[0] == 0x4e);
        assert(s[1] == (len % 0x100) as u8);
        assert(s[2] == ((len / 0x100) % 0x100) as u8);
        assert(s[3] == ((len / 0x1_0000) % 0x100) as u8);
        assert(s[4] == ((len / 0x100_0000) % 0x100) as u8);
        let lu = len as u64;
        assert((lu % 0x100) + 0x100 * ((lu / 0x100) % 0x100) + 0x1_0000 * ((lu / 0x1_0000) % 0x100)
            + 0x100_0000 * ((lu / 0x100_0000) % 0x100) == lu) by (bit_vector)
            requires
                lu < 0x1_0000_0000,
        ;
        assert(s[1] + 0x100 * (s[2] as int) + 0x1_0000 * (s[3] as int) + 0x100_0000 * (
        s[4] as int) == len);
        assert(s.subrange(5, len + 5) =~= e);
        assert(s.skip(len + 5) =~= rest);
        assert(data_pushes(s) =~= seq![e] + data_pushes(rest));
    }
}

/// Extraction inverts construction: the script that pushes a sequence of
/// clean elements yields exactly those elements back.
pub proof fn lemma_pushes_roundtrip(elems: Seq<Seq<u8>>)
    requires
        forall|j: int| 0 <= j < elems.len() ==> clean_element(#[trigger] elems[j]),
    ensures
        data_pushes(script_of_elements(elems)) == elems,
    decreases elems.len(),
{
    if elems.len() == 0 {
        assert(data_pushes(script_of_elements(elems)) =~= elems);
    } else {
        let tail = elems.drop_first();
        lemma_pushes_roundtrip(tail);
        lemma_data_pushes_step(elems[0], script_of_elements(tail));
        assert(seq![elems[0]] + tail =~= elems);
    }
}

} // verus!
