use vstd::prelude::*;
use vstd::string::*;
use vstd::utf8::*;

verus! {

/// The characters with the Unicode `White_Space` property, which is what
/// `char::is_whitespace` and `str::trim` treat as whitespace.
pub open spec fn is_unicode_whitespace(c: char) -> bool {
    let u = c as u32;
    ||| 0x09 <= u <= 0x0d
    ||| u == 0x20
    ||| u == 0x85
    ||| u == 0xa0
    ||| u == 0x1680
    ||| 0x2000 <= u <= 0x200a
    ||| u == 0x2028
    ||| u == 0x2029
    ||| u == 0x202f
    ||| u == 0x205f
    ||| u == 0x3000
}

/// `s` without its leading whitespace.
pub open spec fn trim_start_spec(s: Seq<char>) -> Seq<char>
    decreases s.len(),
{
    if s.len() > 0 && is_unicode_whitespace(s[0]) {
        trim_start_spec(s.drop_first())
    } else {
        s
    }
}

/// `s` without its trailing whitespace.
pub open spec fn trim_end_spec(s: Seq<char>) -> Seq<char>
    decreases s.len(),
{
    if s.len() > 0 && is_unicode_whitespace(s.last()) {
        trim_end_spec(s.drop_last())
    } else {
        s
    }
}

/// `s` without leading and trailing whitespace.
pub open spec fn trim_spec(s: Seq<char>) -> Seq<char> {
    trim_end_spec(trim_start_spec(s))
}

/// Calls `str::trim`, which removes the leading and trailing characters that
/// have the Unicode `White_Space` property, and copies the result.
#[verifier::external_body]
pub(crate) fn trimmed(s: &str) -> (r: String)
    ensures
        r@ == trim_spec(s@),
{
    s.trim().to_string()
}

/// The decimal digits of `n`, most significant first, without leading zeros
/// (`0` is written `"0"`).
pub open spec fn decimal_spec(n: nat) -> Seq<char>
    decreases n,
{
    if n < 10 {
        seq![(('0' as u32) + n) as char]
    } else {
        decimal_spec(n / 10).push((('0' as u32) + (n % 10)) as char)
    }
}

/// Calls `usize::to_string`, whose `Display` writes the number in decimal.
#[verifier::external_body]
pub(crate) fn usize_to_decimal(n: usize) -> (r: String)
    ensures
        r@ == decimal_spec(n as nat),
{
    n.to_string()
}

/// The UTF-8 bytes of `s`, which `str::len` counts.
pub open spec fn utf8_bytes(s: Seq<char>) -> Seq<u8> {
    encode_utf8(s)
}

/// Whether `s` can be shortened by byte positions the way the contacts views
/// do: a string of more than 20 bytes must have character boundaries after
/// its first 10 bytes and before its last 10, where it is cut.
pub open spec fn byte_elision_defined(s: Seq<char>) -> bool {
    let b = utf8_bytes(s);
    b.len() > 20 ==> (is_char_boundary(b, 10) && is_char_boundary(b, b.len() - 10))
}

/// Tells whether a key can be shortened by byte positions (see
/// [`byte_elision_defined`]), for callers that must check before showing it.
pub fn can_elide_bytes(s: &str) -> (r: bool)
    ensures
        r == byte_elision_defined(s@),
{
    broadcast use encode_utf8_valid_utf8;
    let n = s.as_bytes().len();
    assert(s.spec_bytes() == utf8_bytes(s@));
    if n > 20 {
        s.is_char_boundary(10) && s.is_char_boundary(n - 10)
    } else {
        true
    }
}

/// A string of more than 20 bytes shown as its first 10 bytes, `...`, and its
/// last 10 bytes; a shorter one unchanged.
pub open spec fn byte_elided_spec(s: Seq<char>) -> Seq<char> {
    let b = utf8_bytes(s);
    if b.len() > 20 {
        decode_utf8(b.subrange(0, 10)) + "..."@ + decode_utf8(b.subrange(b.len() - 10, b.len() as int))
    } else {
        s
    }
}

/// Shortens a key for display, cutting by byte positions.
pub fn elide_middle_bytes(s: &str) -> (r: String)
    requires
        byte_elision_defined(s@),
    ensures
        r@ == byte_elided_spec(s@),
{
    broadcast use encode_utf8_valid_utf8, encode_utf8_decode_utf8;
    let n = s.as_bytes().len();
    assert(s.spec_bytes() == utf8_bytes(s@));
    if n > 20 {
        let (head, _) = s.split_at(10);
        let (_, tail) = s.split_at(n - 10);
        assert(head@ == decode_utf8(head.spec_bytes()));
        assert(tail@ == decode_utf8(tail.spec_bytes()));
        String::from_str(head).concat("...").concat(tail)
    } else {
        String::from_str(s)
    }
}

/// A string of more than `2 * k` characters shown as its first `k`
/// characters, `...`, and its last `k`; a shorter one unchanged.
pub open spec fn char_elided_spec(s: Seq<char>, k: nat) -> Seq<char> {
    if s.len() > 2 * k {
        s.subrange(0, k as int) + "..."@ + s.subrange(s.len() - k, s.len() as int)
    } else {
        s
    }
}

/// Shortens a string for display, cutting by character positions.
pub fn elide_middle_chars(s: &str, k: usize) -> (r: String)
    requires
        2 * k <= usize::MAX,
    ensures
        r@ == char_elided_spec(s@, k as nat),
{
    let n = s.unicode_len();
    if n > 2 * k {
        let head = s.substring_char(0, k);
        let tail = s.substring_char(n - k, n);
        String::from_str(head).concat("...").concat(tail)
    } else {
        String::from_str(s)
    }
}


/// Shortening by characters keeps a string of at most `2 * k` characters as it
/// is; a longer one becomes exactly `2 * k + 3` characters: its own first `k`,
/// three dots, and its own last `k`.
pub proof fn law_char_elision(s: Seq<char>, k: nat)
    ensures
        s.len() <= 2 * k ==> char_elided_spec(s, k) == s,
        s.len() > 2 * k ==> {
            let e = char_elided_spec(s, k);
            &&& e.len() == 2 * k + 3
            &&& forall|i: int| 0 <= i < k ==> #[trigger] e[i] == s[i]
            &&& e[k as int] == '.' && e[k as int + 1] == '.' && e[k as int + 2] == '.'
            &&& forall|i: int| 0 <= i < k ==> #[trigger] e[k + 3 + i] == s[s.len() - k + i]
        },
{
    reveal_strlit("...");
}

} // verus!
