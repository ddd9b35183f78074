//! Lowercase hexadecimal encoding and decoding of byte strings, and the
//! conversion of ASCII byte strings into `String` values.
//!
//! Every rendering function of this crate first assembles the ASCII bytes of
//! its output and only then turns them into a `String`, so the contracts here
//! are stated over byte sequences.

use vstd::prelude::*;

verus! {

/// The ASCII code of the lowercase hexadecimal digit for a value below
/// sixteen.
pub open spec fn hex_digit(n: u8) -> u8
    recommends
        n < 16,
{
    if n < 10 {
        (0x30 + n) as u8
    } else {
        (0x57 + n) as u8
    }
}

/// The ASCII bytes of the lowercase hexadecimal rendering of a byte string:
/// two digits per byte, high nibble first.
pub open spec fn hex_bytes(data: Seq<u8>) -> Seq<u8> {
    Seq::new(
        2 * data.len(),
        |i: int|
            if i % 2 == 0 {
                hex_digit(data[i / 2] / 16)
            } else {
                hex_digit(data[i / 2] % 16)
            },
    )
}

/// True of the ASCII code of a lowercase hexadecimal digit.
pub open spec fn is_hex_digit(b: u8) -> bool {
    (0x30 <= b && b <= 0x39) || (0x61 <= b && b <= 0x66)
}

/// The value of a lowercase hexadecimal digit given by its ASCII code.
pub open spec fn hex_val(b: u8) -> u8
    recommends
        is_hex_digit(b),
{
    if b <= 0x39 {
        (b - 0x30) as u8
    } else {
        (b - 0x57) as u8
    }
}

/// True of byte strings that are a well-formed lowercase hexadecimal
/// rendering: even length, every byte a digit.
pub open spec fn valid_hex(s: Seq<u8>) -> bool {
    s.len() % 2 == 0 && (forall|i: int| 0 <= i < s.len() ==> is_hex_digit(#[trigger] s[i]))
}

/// The byte string whose hexadecimal rendering a well-formed digit string is.
pub open spec fn hex_decoded(s: Seq<u8>) -> Seq<u8>
    recommends
        valid_hex(s),
{
    Seq::new(s.len() / 2, |i: int| (16 * hex_val(s[2 * i]) + hex_val(s[2 * i + 1])) as u8)
}

/// Renders a byte string as lowercase hexadecimal ASCII bytes.
pub fn hex_encode(data: &[u8]) -> (r: Vec<u8>)
    ensures
        r@ == hex_bytes(data@),
{
    let mut r: Vec<u8> = Vec::new();
    let mut i: usize = 0;
    while i < data.len()
        invariant
            i <= data@.len(),
            r@ == hex_bytes(data@.take(i as int)),
        decreases data@.len() - i,
    {
        let b = data[i];
        let hi = b / 16;
        let lo = b % 16;
        r.push(if hi < 10 { 0x30 + hi } else { 0x57 + hi });
        r.push(if lo < 10 { 0x30 + lo } else { 0x57 + lo });
        i = i + 1;
        proof {
            assert(r@ =~= hex_bytes(data@.take(i as int)));
        }
    }
    proof {
        assert(data@.take(data@.len() as int) =~= data@);
    }
    r
}

/// Decodes a lowercase hexadecimal digit string; `None` exactly when the
/// input is not a well-formed rendering.
pub fn hex_decode(s: &[u8]) -> (r: Option<Vec<u8>>)
    ensures
        valid_hex(s@) ==> (r matches Some(v) && v@ == hex_decoded(s@)),
        !valid_hex(s@) ==> r is None,
{
    if s.len() % 2 != 0 {
        return None;
    }
    let mut r: Vec<u8> = Vec::new();
    let mut i: usize = 0;
    while i < s.len()
        invariant
            s@.len() % 2 == 0,
            i % 2 == 0,
            i <= s@.len(),
            forall|j: int| 0 <= j < i ==> is_hex_digit(#[trigger] s@[j]),
            r@ == hex_decoded(s@.take(i as int)),
        decreases s@.len() - i,
    {
        let hi = s[i];
        let lo = s[i + 1];
        let hv = if 0x30 <= hi && hi <= 0x39 {
            hi - 0x30
        } else if 0x61 <= hi && hi <= 0x66 {
            hi - 0x57
        } else {
            return None;
        };
        let lv = if 0x30 <= lo && lo <= 0x39 {
            lo - 0x30
        } else if 0x61 <= lo && lo <= 0x66 {
            lo - 0x57
        } else {
            return None;
        };
        r.push(16 * hv + lv);
        i = i + 2;
        proof {
            assert(r@ =~= hex_decoded(s@.take(i as int)));
        }
    }
    proof {
        assert(s@.take(s@.len() as int) =~= s@);
    }
    Some(r)
}

/// Decoding inverts encoding: the rendering of any byte string is
/// well-formed, and decoding it gives the original bytes back.
pub proof fn lemma_hex_roundtrip(data: Seq<u8>)
    ensures
        valid_hex(hex_bytes(data)),
        hex_decoded(hex_bytes(data)) == data,
{
    let h = hex_bytes(data);
    assert forall|i: int| 0 <= i < h.len() implies is_hex_digit(#[trigger] h[i]) by {
        if i % 2 == 0 {
            assert(h[i] == hex_digit(data[i / 2] / 16));
        } else {
            assert(h[i] == hex_digit(data[i / 2] % 16));
        }
    }
    assert forall|i: int| 0 <= i < data.len() implies hex_decoded(h)[i] == data[i] by {
        assert(h[2 * i] == hex_digit(data[i] / 16));
        assert(h[2 * i + 1] == hex_digit(data[i] % 16));
    }
    assert(hex_decoded(h) =~= data);
}

/// Every byte of a hexadecimal rendering is an ASCII digit code.
pub proof fn lemma_hex_bytes_ascii(data: Seq<u8>)
    ensures
        forall|i: int| 0 <= i < hex_bytes(data).len() ==> #[trigger] hex_bytes(data)[i] < 0x80,
{
    let h = hex_bytes(data);
    assert forall|i: int| 0 <= i < h.len() implies #[trigger] h[i] < 0x80 by {
        if i % 2 == 0 {
            assert(h[i] == hex_digit(data[i / 2] / 16));
        } else {
            assert(h[i] == hex_digit(data[i / 2] % 16));
        }
    }
}

/// Encoding inverts decoding: a well-formed digit string is the rendering
/// of the bytes it decodes to.
pub proof fn lemma_hex_roundtrip_rev(s: Seq<u8>)
    requires
        valid_hex(s),
    ensures
        hex_bytes(hex_decoded(s)) == s,
{
    let d = hex_decoded(s);
    let h = hex_bytes(d);
    assert forall|i: int| 0 <= i < s.len() implies h[i] == s[i] by {
        let k = i / 2;
        assert(is_hex_digit(s[2 * k]) && is_hex_digit(s[2 * k + 1]));
        assert(hex_val(s[2 * k]) < 16 && hex_val(s[2 * k + 1]) < 16);
        assert(d[k] == 16 * hex_val(s[2 * k]) + hex_val(s[2 * k + 1]));
        assert(d[k] / 16 == hex_val(s[2 * k]));
        assert(d[k] % 16 == hex_val(s[2 * k + 1]));
        if i % 2 == 0 {
            assert(2 * k == i);
            assert(h[i] == hex_digit(d[k] / 16));
        } else {
            assert(2 * k + 1 == i);
            assert(h[i] == hex_digit(d[k] % 16));
        }
    }
    assert(h =~= s);
}

/// The UTF-8 encoding of the character sequence an ASCII byte string
/// stands for is the byte string itself.
pub proof fn lemma_ascii_chars_bytes(v: Seq<u8>)
    requires
        forall|i: int| 0 <= i < v.len() ==> v[i] < 0x80,
    ensures
        vstd::utf8::encode_utf8(v.map_values(|b: u8| b as char)) == v,
{
    let chars = v.map_values(|b: u8| b as char);
    assert(vstd::utf8::is_ascii_chars(chars)) by {
        assert forall|i: int| 0 <= i < chars.len() implies '\0' <= #[trigger] chars[i]
            <= '\u{7f}' by {
            assert(chars[i] == v[i] as char);
        }
    }
    vstd::utf8::is_ascii_chars_encode_utf8(chars);
    assert(vstd::utf8::encode_utf8(chars) =~= v);
}

/// UTF-8 encoding distributes over concatenation.
pub proof fn lemma_encode_utf8_concat(a: Seq<char>, b: Seq<char>)
    ensures
        vstd::utf8::encode_utf8(a + b) == vstd::utf8::encode_utf8(a) + vstd::utf8::encode_utf8(b),
    decreases a.len(),
{
    if a.len() == 0 {
        assert(a + b =~= b);
        assert(vstd::utf8::encode_utf8(a) + vstd::utf8::encode_utf8(b) =~= vstd::utf8::encode_utf8(
            b,
        ));
    } else {
        assert((a + b)[0] == a[0]);
        assert((a + b).drop_first() =~= a.drop_first() + b);
        lemma_encode_utf8_concat(a.drop_first(), b);
        assert(vstd::utf8::encode_utf8(a + b) =~= vstd::utf8::encode_utf8(a)
            + vstd::utf8::encode_utf8(b));
    }
}

/// Relies on `String::from_utf8`: a vector of bytes below `0x80` is valid
/// UTF-8, and the string it yields has exactly those bytes, one character
/// per byte.
#[verifier::external_body]
pub fn ascii_string(v: Vec<u8>) -> (s: String)
    requires
        forall|i: int| 0 <= i < v@.len() ==> v@[i] < 0x80,
    ensures
        s@ == v@.map_values(|b: u8| b as char),
{
    String::from_utf8(v).unwrap_or_default()
}

/// Renders a byte string as a lowercase hexadecimal string.
pub fn hex_string(data: &[u8]) -> (s: String)
    ensures
        s@ == hex_bytes(data@).map_values(|b: u8| b as char),
{
    let v = hex_encode(data);
    proof {
        lemma_hex_bytes_ascii(data@);
    }
    ascii_string(v)
}

} // verus!
