//! Byte-level and character-level text utilities: the text-safety test that
//! decides whether raw header bytes may be shown verbatim, the decoding of
//! such bytes into characters, and ASCII case folding for header-name
//! comparisons.

use vstd::prelude::*;
use vstd::string::StrSliceExecFns;

verus! {

/// A byte may appear verbatim in a log line when it is a visible ASCII
/// character, a space, or a horizontal tab.
pub open spec fn is_text_safe_byte(b: u8) -> bool {
    b == 9 || (32 <= b && b < 127)
}

/// A header value may be shown verbatim when every byte of it is text safe.
pub open spec fn is_text_safe(bytes: Seq<u8>) -> bool {
    forall|i: int| 0 <= i < bytes.len() ==> is_text_safe_byte(#[trigger] bytes[i])
}

/// The character-level counterpart of [`is_text_safe_byte`].
pub open spec fn is_text_safe_char(c: char) -> bool {
    c == '\t' || (' ' <= c && c <= '~')
}

/// Every character of the sequence is text safe.
pub open spec fn chars_text_safe(s: Seq<char>) -> bool {
    forall|i: int| 0 <= i < s.len() ==> is_text_safe_char(#[trigger] s[i])
}

/// The characters spelled by a sequence of ASCII bytes, one character per
/// byte, each with the byte's own code.
pub open spec fn ascii_chars(bytes: Seq<u8>) -> Seq<char> {
    bytes.map_values(|b: u8| b as char)
}

/// The bytes spelled by a sequence of ASCII characters, one byte per
/// character, each with the character's own code.
pub open spec fn ascii_bytes(s: Seq<char>) -> Seq<u8> {
    s.map_values(|c: char| c as u8)
}

/// Text-safe bytes decode to text-safe (hence ASCII) characters.
pub proof fn lemma_text_safe_bytes_decode(bytes: Seq<u8>)
    requires
        is_text_safe(bytes),
    ensures
        chars_text_safe(ascii_chars(bytes)),
        vstd::utf8::is_ascii_chars(ascii_chars(bytes)),
        ascii_bytes(ascii_chars(bytes)) == bytes,
{
    assert forall|i: int| 0 <= i < bytes.len() implies is_text_safe_char(
        #[trigger] ascii_chars(bytes)[i],
    ) by {
        assert(is_text_safe_byte(bytes[i]));
    }
    assert(ascii_bytes(ascii_chars(bytes)) =~= bytes);
}

/// Text-safe characters are ASCII and code back to text-safe bytes.
pub proof fn lemma_text_safe_chars_encode(s: Seq<char>)
    requires
        chars_text_safe(s),
    ensures
        vstd::utf8::is_ascii_chars(s),
        is_text_safe(ascii_bytes(s)),
        ascii_chars(ascii_bytes(s)) == s,
{
    assert forall|i: int| 0 <= i < s.len() implies '\0' <= #[trigger] s[i] <= '\u{7f}' by {
        assert(is_text_safe_char(s[i]));
    }
    assert forall|i: int| 0 <= i < s.len() implies is_text_safe_byte(
        #[trigger] ascii_bytes(s)[i],
    ) by {
        assert(is_text_safe_char(s[i]));
    }
    assert(ascii_chars(ascii_bytes(s)) =~= s);
}

/// Decides text safety of a raw header value.
pub fn text_safe(bytes: &Vec<u8>) -> (r: bool)
    ensures
        r == is_text_safe(bytes@),
{
    let mut i: usize = 0;
    while i < bytes.len()
        invariant
            0 <= i <= bytes@.len(),
            forall|j: int| 0 <= j < i ==> is_text_safe_byte(#[trigger] bytes@[j]),
        decreases bytes@.len() - i,
    {
        let b = bytes[i];
        if !(b == 9 || (32 <= b && b < 127)) {
            return false;
        }
        i = i + 1;
    }
    true
}

/// ASCII case folding of one character: an upper-case letter becomes its
/// lower-case form; every other character is unchanged.
pub open spec fn lower_char(c: char) -> char {
    if 'A' <= c && c <= 'Z' {
        (((c as u32) + 32) as u8) as char
    } else {
        c
    }
}

/// ASCII case folding of a character sequence.
pub open spec fn lower_chars(s: Seq<char>) -> Seq<char> {
    s.map_values(|c: char| lower_char(c))
}

/// Folds one character to lower case.
pub fn fold_char(c: char) -> (r: char)
    ensures
        r == lower_char(c),
{
    let n = c as u32;
    if 65 <= n && n <= 90 {
        ((n + 32) as u8) as char
    } else {
        c
    }
}

/// Compares two strings for equality up to ASCII case.
pub fn eq_ignore_case(a: &str, b: &str) -> (r: bool)
    ensures
        r == (lower_chars(a@) == lower_chars(b@)),
{
    let a_len = a.unicode_len();
    let b_len = b.unicode_len();
    if a_len != b_len {
        assert(lower_chars(a@).len() != lower_chars(b@).len());
        return false;
    }
    let mut i: usize = 0;
    while i < a_len
        invariant
            0 <= i <= a_len,
            a_len == a@.len(),
            a_len == b@.len(),
            forall|j: int| 0 <= j < i ==> lower_char(#[trigger] a@[j]) == lower_char(b@[j]),
        decreases a_len - i,
    {
        if fold_char(a.get_char(i)) != fold_char(b.get_char(i)) {
            assert(lower_chars(a@)[i as int] != lower_chars(b@)[i as int]);
            return false;
        }
        i = i + 1;
    }
    assert(lower_chars(a@) =~= lower_chars(b@));
    true
}

/// Relies on `String::from_utf8`: ASCII bytes are valid UTF-8 and decode to
/// the characters with the same codes.
#[verifier::external_body]
fn bytes_to_string(bytes: &Vec<u8>) -> (r: String)
    requires
        forall|i: int| 0 <= i < bytes@.len() ==> #[trigger] bytes@[i] < 128,
    ensures
        r@ == ascii_chars(bytes@),
{
    String::from_utf8(bytes.clone()).unwrap_or_default()
}

/// Renders a text-safe header value as a string.
pub fn render_text(bytes: &Vec<u8>) -> (r: String)
    requires
        is_text_safe(bytes@),
    ensures
        r@ == ascii_chars(bytes@),
{
    proof {
        lemma_text_safe_bytes_decode(bytes@);
        vstd::utf8::is_ascii_chars_nat_bound(ascii_chars(bytes@));
    }
    assert forall|i: int| 0 <= i < bytes@.len() implies #[trigger] bytes@[i] < 128 by {
        assert(is_text_safe_byte(bytes@[i]));
    }
    bytes_to_string(bytes)
}

} // verus!
