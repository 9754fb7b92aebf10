//! The calls this crate makes into `reqwest` (for its `Url`) and `uuid`.
//!
//! Verus does not read the bodies below: each contract is taken on trust
//! and is stated so that it can be held against the called crate's source.
//! URLs cross this boundary as their serialization, node ids as their
//! sixteen bytes.
//!
//! The URL parser is not called on every text. It turns the host into its
//! ASCII form with sums that leave their range once a label of the host,
//! as it stands after escapes are resolved and characters are mapped and
//! normalized, has more than 3855 characters; a text that is not heavy
//! holds no such host. And where a path is joined to a `file` URL whose
//! path ends in a drive letter, the parser goes on from a state that it
//! holds to be impossible.

use crate::url_text::{joinable_url, light_text};
use vstd::prelude::*;

verus! {

/// `reqwest::UrlError`, which is `url::ParseError`: why `Url::parse` or
/// `Url::join` read no URL. Nothing is claimed of its values.
#[verifier::external_type_specification]
#[verifier::external_body]
pub struct ExUrlError(reqwest::UrlError);

/// `uuid::parser::ParseError`: why `Uuid::parse_str` read no id. Nothing
/// is claimed of its values.
#[verifier::external_type_specification]
#[verifier::external_body]
pub struct ExUuidParseError(uuid::parser::ParseError);

/// The serialization of the URL that `Url::parse` reads from `input`, or
/// `None` where it reads none.
pub uninterp spec fn url_parse(input: Seq<char>) -> Option<Seq<char>>;

/// The serialization of the URL that `Url::join` makes of `input` on the
/// base URL that `Url::parse` reads from `base`, or `None` where either
/// fails.
pub uninterp spec fn url_join(base: Seq<char>, input: Seq<char>) -> Option<Seq<char>>;

/// The sixteen bytes of the id that `Uuid::parse_str` reads from `input`,
/// or `None` where it reads none.
pub uninterp spec fn uuid_parse(input: Seq<char>) -> Option<Seq<u8>>;

/// Calls `reqwest::Url::parse`, which is `url::Url::parse`.
///
/// Trusted: on a text that is not heavy the call returns, and depends on
/// `input` alone. It returns the parsed URL (handed on as its
/// serialization) exactly where `url_parse` is `Some`, and the parser's
/// error otherwise.
#[verifier::external_body]
pub(crate) fn parse_url(input: &str) -> (r: Result<String, reqwest::UrlError>)
    requires
        light_text(input@),
    ensures
        match r {
            Ok(text) => url_parse(input@) == Some(text@),
            Err(_) => url_parse(input@) is None,
        },
{
    match reqwest::Url::parse(input) {
        Ok(url) => Ok(url.into_string()),
        Err(e) => Err(e),
    }
}

/// Calls `Url::join` on the URL whose serialization is `base`.
///
/// Trusted: on texts that are not heavy, and on a base that is read as
/// a URL that a path can be joined to, the call returns, and depends on
/// `base` and `input` alone. It returns the joined URL (handed on as its
/// serialization) exactly where `url_join` is `Some`, and the parser's
/// error otherwise.
#[verifier::external_body]
pub(crate) fn join_url(base: &str, input: &str) -> (r: Result<String, reqwest::UrlError>)
    requires
        light_text(base@),
        light_text(input@),
        url_parse(base@) matches Some(url) ==> joinable_url(url),
    ensures
        match r {
            Ok(text) => url_join(base@, input@) == Some(text@),
            Err(_) => url_join(base@, input@) is None,
        },
{
    match reqwest::Url::parse(base) {
        Ok(url) => match url.join(input) {
            Ok(joined) => Ok(joined.into_string()),
            Err(e) => Err(e),
        },
        Err(e) => Err(e),
    }
}

/// Calls `uuid::Uuid::parse_str`.
///
/// Trusted: the call depends on `input` alone. It returns the parsed id
/// (handed on as its bytes) exactly where `uuid_parse` is `Some`, and the
/// parser's error otherwise.
#[verifier::external_body]
pub(crate) fn parse_uuid(input: &str) -> (r: Result<[u8; 16], uuid::parser::ParseError>)
    ensures
        match r {
            Ok(bytes) => uuid_parse(input@) == Some(bytes@),
            Err(_) => uuid_parse(input@) is None,
        },
{
    match uuid::Uuid::parse_str(input) {
        Ok(id) => Ok(*id.as_bytes()),
        Err(e) => Err(e),
    }
}

/// The lower-case hexadecimal digit of a value below sixteen.
pub open spec fn hex_digit(nibble: int) -> char {
    seq!['0', '1', '2', '3', '4', '5', '6', '7', '8', '9', 'a', 'b', 'c', 'd', 'e', 'f'][nibble]
}

/// How many hyphens stand before position `i` of a hyphenated id.
pub open spec fn hyphens_before(i: int) -> int {
    if i > 23 {
        4
    } else if i > 18 {
        3
    } else if i > 13 {
        2
    } else if i > 8 {
        1
    } else {
        0
    }
}

/// The hyphenated form of a node id: its bytes in order, two lower-case
/// hexadecimal digits each, in groups of 8, 4, 4, 4 and 12 digits.
pub open spec fn hyphenated(bytes: Seq<u8>) -> Seq<char> {
    Seq::new(
        36,
        |i: int|
            if i == 8 || i == 13 || i == 18 || i == 23 {
                '-'
            } else {
                let digit = i - hyphens_before(i);
                if digit % 2 == 0 {
                    hex_digit(bytes[digit / 2] as int / 16)
                } else {
                    hex_digit(bytes[digit / 2] as int % 16)
                }
            },
    )
}

/// Calls `to_string` on the `uuid::Uuid` made of `bytes`, that is the
/// crate's `Display`.
///
/// Trusted: the text is the hyphenated lower-case form of the bytes.
#[verifier::external_body]
pub(crate) fn uuid_text(bytes: &[u8; 16]) -> (text: String)
    ensures
        text@ == hyphenated(bytes@),
{
    uuid::Uuid::from_bytes(*bytes).to_string()
}

} // verus!
