//! URLs as text.
//!
//! The URL parser is handed any text but a heavy one. In the weight of a
//! text an ASCII character other than the percent sign counts one, and
//! any other character counts [`WIDE_CHAR_WEIGHT`]: where it stands in a
//! host name, it can stand for that many characters once escapes are
//! resolved and characters are mapped and normalized. A text is heavy
//! above [`MAX_URL_WEIGHT`].
//!
//! Nothing is joined to a `file` URL whose path ends in a drive letter.

use crate::trusted::{join_url, parse_url, url_join, url_parse};
use vstd::prelude::*;
use vstd::string::*;
use vstd::utf8::*;

verus! {

/// The highest weight of a text that is read as a URL.
pub const MAX_URL_WEIGHT: usize = 3855;

/// What a percent sign or a character outside ASCII counts.
pub const WIDE_CHAR_WEIGHT: usize = 72;

/// What one byte of a text in UTF-8 counts: one for an ASCII character
/// other than the percent sign, [`WIDE_CHAR_WEIGHT`] for a percent sign
/// and for the first byte of a character outside ASCII, nothing for the
/// further bytes of such a character.
pub open spec fn byte_weight(byte: u8) -> nat {
    if byte == 0x25 || byte >= 0xC0 {
        WIDE_CHAR_WEIGHT as nat
    } else if byte < 0x80 {
        1
    } else {
        0
    }
}

/// What the bytes of a text in UTF-8 count together.
pub open spec fn bytes_weight(bytes: Seq<u8>) -> nat
    decreases bytes.len(),
{
    if bytes.len() == 0 {
        0
    } else {
        bytes_weight(bytes.drop_last()) + byte_weight(bytes.last())
    }
}

/// The weight of a text.
pub open spec fn text_weight(text: Seq<char>) -> nat {
    bytes_weight(encode_utf8(text))
}

/// A text that is not heavy.
pub open spec fn light_text(text: Seq<char>) -> bool {
    text_weight(text) <= MAX_URL_WEIGHT
}

/// `end` is where the path of a URL ends in its bytes: at the first
/// question mark or number sign, or at the end of the URL.
pub open spec fn is_path_end(url: Seq<u8>, end: int) -> bool {
    &&& 0 <= end <= url.len()
    &&& forall|i: int| 0 <= i < end ==> (#[trigger] url[i]) != 0x3F && url[i] != 0x23
    &&& end < url.len() ==> url[end] == 0x3F || url[end] == 0x23
}

/// Where the path of a URL ends in its bytes.
pub open spec fn path_end(url: Seq<u8>) -> int {
    choose|end: int| is_path_end(url, end)
}

/// An ASCII letter.
pub open spec fn is_ascii_letter(byte: u8) -> bool {
    0x41 <= byte <= 0x5A || 0x61 <= byte <= 0x7A
}

/// The bytes of a URL, as the URL writes itself, are those of a `file`
/// URL whose last path segment is a drive letter: a letter and a colon or
/// a bar.
pub open spec fn file_drive_tail(url: Seq<u8>) -> bool {
    let end = path_end(url);
    &&& url.len() >= 5
    &&& url[0] == 0x66 && url[1] == 0x69 && url[2] == 0x6C && url[3] == 0x65 && url[4] == 0x3A
    &&& end >= 3
    &&& url[end - 3] == 0x2F
    &&& is_ascii_letter(url[end - 2])
    &&& (url[end - 1] == 0x3A || url[end - 1] == 0x7C)
}

/// A URL, as it writes itself, that a path can be joined to: any but a
/// `file` URL whose path ends in a drive letter.
pub open spec fn joinable_url(url: Seq<char>) -> bool {
    !file_drive_tail(encode_utf8(url))
}

/// The URL that a text is read as, as the URL writes itself. A heavy text
/// is read as none.
pub open spec fn readable_url(input: Seq<char>) -> Option<Seq<char>> {
    if light_text(input) {
        url_parse(input)
    } else {
        None
    }
}

/// The URL that `input` is read as on the base URL `base`, as the URL
/// writes itself. There is none where one of the texts is heavy, where
/// `base` is no URL or none that a path can be joined to, or where the
/// two do not join.
pub open spec fn joined_url(base: Seq<char>, input: Seq<char>) -> Option<Seq<char>> {
    if light_text(base) && light_text(input) {
        match url_parse(base) {
            Some(url) => if joinable_url(url) {
                url_join(base, input)
            } else {
                None
            },
            None => None,
        }
    } else {
        None
    }
}

/// What a text that may be absent says.
pub open spec fn text_option_view(text: Option<String>) -> Option<Seq<char>> {
    match text {
        Some(t) => Some(t@),
        None => None,
    }
}

/// Bytes count no less than any run of them from the start.
pub proof fn lemma_bytes_weight_grows(bytes: Seq<u8>, n: int)
    requires
        0 <= n <= bytes.len(),
    ensures
        bytes_weight(bytes.take(n)) <= bytes_weight(bytes),
    decreases bytes.len() - n,
{
    if n == bytes.len() {
        assert(bytes.take(n) =~= bytes);
    } else {
        lemma_bytes_weight_grows(bytes, n + 1);
        assert(bytes.take(n + 1).drop_last() =~= bytes.take(n));
    }
}

/// The path of a URL ends at one place only.
pub proof fn lemma_path_end_is_unique(url: Seq<u8>, a: int, b: int)
    requires
        is_path_end(url, a),
        is_path_end(url, b),
    ensures
        a == b,
{
    if a < b {
        assert(url[a] != 0x3F && url[a] != 0x23);
    } else if b < a {
        assert(url[b] != 0x3F && url[b] != 0x23);
    }
}

/// Whether a text is not heavy.
pub fn is_light_text(text: &str) -> (light: bool)
    ensures
        light == light_text(text@),
{
    let bytes = text.as_bytes();
    let mut weight: usize = 0;
    let mut i: usize = 0;
    assert(bytes@.take(0) =~= Seq::<u8>::empty());
    while i < bytes.len()
        invariant
            i <= bytes.len(),
            bytes@ == encode_utf8(text@),
            weight == bytes_weight(bytes@.take(i as int)),
            weight <= MAX_URL_WEIGHT,
        decreases bytes.len() - i,
    {
        let byte = bytes[i];
        assert(bytes@.take(i + 1).drop_last() =~= bytes@.take(i as int));
        assert(bytes@.take(i + 1).last() == byte);
        let counts: usize = if byte == 0x25 || byte >= 0xC0 {
            WIDE_CHAR_WEIGHT
        } else if byte < 0x80 {
            1
        } else {
            0
        };
        weight = weight + counts;
        if weight > MAX_URL_WEIGHT {
            proof {
                lemma_bytes_weight_grows(bytes@, i + 1);
            }
            return false;
        }
        i += 1;
    }
    assert(bytes@.take(i as int) =~= bytes@);
    true
}

/// Whether a URL, as it writes itself, is one that a path can be joined
/// to.
pub fn is_joinable_url(url: &str) -> (joinable: bool)
    ensures
        joinable == joinable_url(url@),
{
    let bytes = url.as_bytes();
    if bytes.len() < 5 {
        return true;
    }
    if !(bytes[0] == 0x66 && bytes[1] == 0x69 && bytes[2] == 0x6C && bytes[3] == 0x65 && bytes[4]
        == 0x3A) {
        return true;
    }
    let mut end: usize = 0;
    while end < bytes.len() && bytes[end] != 0x3F && bytes[end] != 0x23
        invariant
            end <= bytes.len(),
            forall|i: int| 0 <= i < end ==> (#[trigger] bytes@[i]) != 0x3F && bytes@[i] != 0x23,
        decreases bytes.len() - end,
    {
        end += 1;
    }
    proof {
        assert(is_path_end(bytes@, end as int));
        lemma_path_end_is_unique(bytes@, path_end(bytes@), end as int);
    }
    if end < 3 {
        return true;
    }
    let letter = bytes[end - 2];
    let mark = bytes[end - 1];
    let tail = bytes[end - 3] == 0x2F && ((0x41 <= letter && letter <= 0x5A) || (0x61 <= letter
        && letter <= 0x7A)) && (mark == 0x3A || mark == 0x7C);
    !tail
}

/// Reads a text as a URL, and tells how the URL writes itself.
pub fn parse_text(input: &str) -> (url: Option<String>)
    ensures
        text_option_view(url) == readable_url(input@),
{
    if !is_light_text(input) {
        return None;
    }
    match parse_url(input) {
        Ok(url) => Some(url),
        Err(_) => None,
    }
}

/// Reads `input` as a URL on the base URL `base`, and tells how the URL
/// writes itself.
pub fn join_text(base: &str, input: &str) -> (url: Option<String>)
    ensures
        text_option_view(url) == joined_url(base@, input@),
{
    if !is_light_text(base) || !is_light_text(input) {
        return None;
    }
    let joinable = match parse_url(base) {
        Ok(url) => is_joinable_url(url.as_str()),
        Err(_) => {
            return None;
        },
    };
    if !joinable {
        return None;
    }
    match join_url(base, input) {
        Ok(url) => Some(url),
        Err(_) => None,
    }
}

} // verus!
