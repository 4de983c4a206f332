use vstd::prelude::*;

verus! {

/// `c` is an ASCII hexadecimal digit, of either case.
pub open spec fn is_hex_digit(c: char) -> bool {
    ||| ('0' <= c && c <= '9')
    ||| ('a' <= c && c <= 'f')
    ||| ('A' <= c && c <= 'F')
}

/// The value of a hexadecimal digit.
pub open spec fn hex_digit_value(c: char) -> int {
    if '0' <= c && c <= '9' {
        (c as int) - ('0' as int)
    } else if 'a' <= c && c <= 'f' {
        (c as int) - ('a' as int) + 10
    } else {
        (c as int) - ('A' as int) + 10
    }
}

/// `s` is an even number of hexadecimal digits.
pub open spec fn is_hex_string(s: Seq<char>) -> bool {
    &&& s.len() % 2 == 0
    &&& forall|i: int| 0 <= i < s.len() ==> #[trigger] is_hex_digit(s[i])
}

/// The bytes that a hexadecimal string stands for, two digits per byte, the
/// high nibble first.
pub open spec fn hex_decode_spec(s: Seq<char>) -> Seq<u8> {
    Seq::new(
        s.len() / 2,
        |i: int| (hex_digit_value(s[2 * i]) * 16 + hex_digit_value(s[2 * i + 1])) as u8,
    )
}

/// What `hex::decode` reports, as text, about an input that it rejects.
pub uninterp spec fn hex_decode_error_text(s: Seq<char>) -> Seq<char>;

/// Calls `hex::decode` on the UTF-8 bytes of `s`. Its source accepts exactly an
/// even number of bytes that are all ASCII hexadecimal digits and returns the
/// byte pairs' values; every non-ASCII character has a first byte that is no
/// digit, so this is the same condition on the characters. It reports an odd
/// number of bytes as `Odd number of digits`; the text of its other errors is
/// left to a name.
#[verifier::external_body]
pub(crate) fn hex_decode(s: &str) -> (r: Result<Vec<u8>, String>)
    ensures
        r is Ok <==> is_hex_string(s@),
        r matches Ok(bytes) ==> bytes@ == hex_decode_spec(s@),
        r matches Err(msg) ==> msg@ == hex_decode_error_text(s@),
        r is Err && crate::text::utf8_bytes(s@).len() % 2 == 1 ==> hex_decode_error_text(s@) == "Odd number of digits"@,
{
    hex::decode(s).map_err(|e| e.to_string())
}

/// The lowercase hexadecimal digit of a value below 16.
pub open spec fn hex_lower_digit(n: int) -> char {
    if n < 10 {
        ((('0' as int) + n) as u32) as char
    } else {
        ((('a' as int) + n - 10) as u32) as char
    }
}

/// The lowercase hexadecimal text of `b`: two digits per byte, the high
/// nibble first.
pub open spec fn hex_lower_spec(b: Seq<u8>) -> Seq<char> {
    Seq::new(
        2 * b.len(),
        |i: int| if i % 2 == 0 {
            hex_lower_digit(b[i / 2] as int / 16)
        } else {
            hex_lower_digit(b[i / 2] as int % 16)
        },
    )
}

/// Calls `hex::encode`, which writes each byte as two lowercase hexadecimal
/// digits, the high nibble first.
#[verifier::external_body]
pub(crate) fn hex_encode(bytes: &[u8]) -> (r: String)
    ensures
        r@ == hex_lower_spec(bytes@),
{
    hex::encode(bytes)
}


/// The lowercase digit of a value below 16 is a hexadecimal digit of that
/// value.
pub proof fn lemma_hex_lower_digit(n: int)
    requires
        0 <= n < 16,
    ensures
        is_hex_digit(hex_lower_digit(n)),
        hex_digit_value(hex_lower_digit(n)) == n,
{
}

/// Hexadecimal text written by the encoder is read back by the decoder as the
/// same bytes: it is an even number of hexadecimal digits, two per byte, and
/// decodes to exactly the encoded bytes.
pub proof fn law_hex_round_trip(b: Seq<u8>)
    ensures
        hex_lower_spec(b).len() == 2 * b.len(),
        is_hex_string(hex_lower_spec(b)),
        hex_decode_spec(hex_lower_spec(b)) == b,
{
    let h = hex_lower_spec(b);
    assert forall|i: int| 0 <= i < h.len() implies #[trigger] is_hex_digit(h[i]) by {
        lemma_hex_lower_digit(b[i / 2] as int / 16);
        lemma_hex_lower_digit(b[i / 2] as int % 16);
    }
    assert forall|j: int| 0 <= j < b.len() implies #[trigger] hex_decode_spec(h)[j] == b[j] by {
        lemma_hex_lower_digit(b[j] as int / 16);
        lemma_hex_lower_digit(b[j] as int % 16);
        assert((2 * j) % 2 == 0);
        assert((2 * j + 1) % 2 == 1);
        assert((2 * j) / 2 == j);
        assert((2 * j + 1) / 2 == j);
        assert(h[2 * j] == hex_lower_digit(b[j] as int / 16));
        assert(h[2 * j + 1] == hex_lower_digit(b[j] as int % 16));
    }
    assert(hex_decode_spec(h) =~= b);
}

} // verus!
