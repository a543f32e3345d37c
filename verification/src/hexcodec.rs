use vstd::prelude::*;

verus! {

/// The lowercase hexadecimal digit for a value below 16.
pub open spec fn hex_digit(n: int) -> char {
    if n < 10 {
        (48 + n) as char
    } else {
        (87 + n) as char
    }
}

/// Lowercase hexadecimal text of a byte string: two digits per byte, high nibble first.
pub open spec fn spec_hex_encode(b: Seq<u8>) -> Seq<char> {
    Seq::new(
        2 * b.len(),
        |i: int| hex_digit(if i % 2 == 0 { b[i / 2] as int / 16 } else { b[i / 2] as int % 16 }),
    )
}

/// The value of one hexadecimal digit (either case), if it is one.
pub open spec fn hex_value(c: u8) -> Option<int> {
    if 48 <= c <= 57 {
        Some(c - 48)
    } else if 97 <= c <= 102 {
        Some(c - 87)
    } else if 65 <= c <= 70 {
        Some(c - 55)
    } else {
        None
    }
}

/// Decoding of hexadecimal text given as bytes: refused on odd length or on a
/// byte that is not a hexadecimal digit.
pub open spec fn spec_hex_decode(s: Seq<u8>) -> Option<Seq<u8>> {
    if s.len() % 2 != 0 {
        None
    } else if exists|i: int| 0 <= i < s.len() && #[trigger] hex_value(s[i]) is None {
        None
    } else {
        Some(Seq::new(s.len() / 2, |i: int| (hex_value(s[2 * i])->0 * 16 + hex_value(s[2 * i + 1])->0) as u8))
    }
}

/// `hex::encode`: lowercase hexadecimal, two digits per byte (as its documentation
/// and source state).
#[verifier::external_body]
pub(crate) fn hex_encode(data: &[u8]) -> (s: String)
    ensures
        s@ == spec_hex_encode(data@),
{
    hex::encode(data)
}

/// `hex::decode`: refuses odd-length input and any byte outside `0-9a-fA-F`;
/// otherwise each pair of digits gives one byte, high digit first (as its source shows).
#[verifier::external_body]
pub(crate) fn hex_decode(data: &[u8]) -> (r: Option<Vec<u8>>)
    ensures
        match r {
            Some(v) => spec_hex_decode(data@) == Some(v@),
            None => spec_hex_decode(data@) is None,
        },
{
    match hex::decode(data) {
        Ok(v) => Some(v),
        Err(_) => None,
    }
}

proof fn lemma_hex_digit_value(n: int)
    requires
        0 <= n < 16,
    ensures
        hex_value(hex_digit(n) as u8) == Some(n),
{
}

/// Hexadecimal text as its ASCII bytes.
pub open spec fn ascii_bytes(s: Seq<char>) -> Seq<u8> {
    Seq::new(s.len(), |i: int| s[i] as u8)
}

/// Decoding the hexadecimal text of a byte string gives the byte string back.
pub proof fn lemma_hex_round_trip(b: Seq<u8>)
    ensures
        spec_hex_decode(ascii_bytes(spec_hex_encode(b))) == Some(b),
{
    let e = ascii_bytes(spec_hex_encode(b));
    assert forall|i: int| 0 <= i < e.len() implies #[trigger] hex_value(e[i]) is Some by {
        let n = if i % 2 == 0 { b[i / 2] as int / 16 } else { b[i / 2] as int % 16 };
        lemma_hex_digit_value(n);
    }
    let d = Seq::new(e.len() / 2, |i: int| (hex_value(e[2 * i])->0 * 16 + hex_value(e[2 * i + 1])->0) as u8);
    assert forall|i: int| 0 <= i < b.len() implies d[i] == b[i] by {
        lemma_hex_digit_value(b[i] as int / 16);
        lemma_hex_digit_value(b[i] as int % 16);
        assert((2 * i) % 2 == 0);
        assert((2 * i + 1) % 2 == 1);
        assert((2 * i) / 2 == i);
        assert((2 * i + 1) / 2 == i);
    }
    assert(d =~= b);
}

/// Hexadecimal text is ASCII, so its UTF-8 bytes are its characters.
pub proof fn lemma_hex_text_bytes(b: Seq<u8>)
    ensures
        vstd::utf8::encode_utf8(spec_hex_encode(b)) == ascii_bytes(spec_hex_encode(b)),
{
    let s = spec_hex_encode(b);
    assert forall|i: int| 0 <= i < s.len() implies '\0' <= #[trigger] s[i] <= '\u{7f}' by {
        let n = if i % 2 == 0 { b[i / 2] as int / 16 } else { b[i / 2] as int % 16 };
        assert(0 <= n < 16);
    }
    assert(vstd::utf8::is_ascii_chars(s));
    vstd::utf8::is_ascii_chars_encode_utf8(s);
    assert(vstd::utf8::encode_utf8(s) =~= ascii_bytes(s));
}

} // verus!
