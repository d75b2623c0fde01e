//! What the wire format of HTTP admits in header names and values, and the
//! making of request identifiers.
//!
//! The functions at the end of this file call the `http` types that `hyper`
//! re-exports, and `uuid`. Their contracts are taken on trust from those
//! crates; everything else in the library is proved from them.

use vstd::prelude::*;
use hyper::header::HeaderName;
use hyper::header::HeaderValue;
use uuid::Uuid;

verus! {

/// The characters of an HTTP token: letters, digits and
/// ``! # $ % & ' * + - . ^ _ ` | ~``.
pub open spec fn is_token_char(c: char) -> bool {
    ||| 'a' <= c <= 'z'
    ||| 'A' <= c <= 'Z'
    ||| '0' <= c <= '9'
    ||| c == '!'
    ||| c == '#'
    ||| c == '$'
    ||| c == '%'
    ||| c == '&'
    ||| c == '\''
    ||| c == '*'
    ||| c == '+'
    ||| c == '-'
    ||| c == '.'
    ||| c == '^'
    ||| c == '_'
    ||| c == '`'
    ||| c == '|'
    ||| c == '~'
}

/// The longest header name that the wire format admits, in characters.
pub const MAX_HEADER_NAME_LEN: usize = 65535;

/// A header name that can go on the wire: a token that is not empty and not
/// longer than `MAX_HEADER_NAME_LEN`.
pub open spec fn is_header_name(s: Seq<char>) -> bool {
    &&& 0 < s.len() <= MAX_HEADER_NAME_LEN
    &&& forall|i: int| 0 <= i < s.len() ==> is_token_char(#[trigger] s[i])
}

/// An upper-case ASCII letter as its lower-case letter, any other character
/// unchanged.
pub open spec fn ascii_lower(c: char) -> char {
    if 'A' <= c <= 'Z' {
        ((c as u8) + 32) as char
    } else {
        c
    }
}

/// A name with its ASCII letters in lower case.
pub open spec fn lower_name(s: Seq<char>) -> Seq<char> {
    Seq::new(s.len(), |i: int| ascii_lower(s[i]))
}

/// A character that may stand in a header value: anything but the ASCII
/// control characters, of which only the tab is let through.
pub open spec fn is_value_char(c: char) -> bool {
    (c as u32 >= 32 && c as u32 != 127) || c == '\t'
}

/// A header value that can go on the wire.
pub open spec fn is_header_value(s: Seq<char>) -> bool {
    forall|i: int| 0 <= i < s.len() ==> is_value_char(#[trigger] s[i])
}

/// A byte of visible ASCII, a space or a tab.
pub open spec fn is_visible_byte(b: u8) -> bool {
    (32 <= b < 127) || b == 9
}

/// Whether every byte of a received header value is visible ASCII.
pub open spec fn is_visible_text(raw: Seq<u8>) -> bool {
    forall|i: int| 0 <= i < raw.len() ==> is_visible_byte(#[trigger] raw[i])
}

/// The bytes of a received header value as characters, one for each byte.
pub open spec fn bytes_as_text(raw: Seq<u8>) -> Seq<char> {
    Seq::new(raw.len(), |i: int| raw[i] as char)
}

/// A digit of lower-case hexadecimal.
pub open spec fn is_lower_hex(c: char) -> bool {
    ('0' <= c <= '9') || ('a' <= c <= 'f')
}

/// The shape of a request identifier: 36 characters in the groups
/// 8-4-4-4-12 of lower-case hexadecimal, joined by hyphens, the third group
/// starting with `4` and the fourth with one of `8`, `9`, `a`, `b`.
pub open spec fn is_request_id(s: Seq<char>) -> bool {
    &&& s.len() == 36
    &&& forall|i: int|
        0 <= i < 36 ==> if i == 8 || i == 13 || i == 18 || i == 23 {
            #[trigger] s[i] == '-'
        } else {
            is_lower_hex(s[i])
        }
    &&& s[14] == '4'
    &&& (s[19] == '8' || s[19] == '9' || s[19] == 'a' || s[19] == 'b')
}

/// Parses a header name with `HeaderName::from_str` of `http` and returns
/// what `HeaderName::as_str` gives for it.
///
/// Trusted: the parser accepts exactly the tokens of 1 to 65535 bytes (each
/// byte is looked up in a table that is zero for every byte that is no token
/// character, and a token is ASCII, so its bytes are its characters), and the
/// name it keeps is the input with its ASCII letters in lower case.
#[verifier::external_body]
pub(crate) fn canonical_header_name(name: &str) -> (canon: Option<String>)
    ensures
        canon is Some <==> is_header_name(name@),
        canon matches Some(c) ==> c@ == lower_name(name@),
{
    match <HeaderName as std::str::FromStr>::from_str(name) {
        Ok(parsed) => Some(parsed.as_str().to_owned()),
        Err(_) => None,
    }
}

/// Asks `HeaderValue::from_str` of `http` whether a string can be a header
/// value.
///
/// Trusted: the constructor fails exactly when some byte of the string is
/// below 32 and no tab, or is 127. A character below 128 is its own single
/// byte, and every byte of a longer encoding is 128 or more, so the test on
/// bytes is this test on characters.
#[verifier::external_body]
pub(crate) fn header_value_is_valid(value: &str) -> (ok: bool)
    ensures
        ok == is_header_value(value@),
{
    HeaderValue::from_str(value).is_ok()
}

/// Reads a received header value as text, with `HeaderValue::from_bytes` and
/// `HeaderValue::to_str` of `http`; `None` where either of them refuses the
/// value.
///
/// Trusted: `to_str` succeeds exactly when every byte is in 32..127 or a
/// tab, and then returns those bytes as a string; `from_bytes` refuses no
/// such value, and every value that it refuses has a byte that `to_str`
/// would refuse.
#[verifier::external_body]
pub(crate) fn header_value_text(raw: &[u8]) -> (text: Option<String>)
    ensures
        text is Some <==> is_visible_text(raw@),
        text matches Some(t) ==> t@ == bytes_as_text(raw@),
{
    match HeaderValue::from_bytes(raw) {
        Ok(value) => match value.to_str() {
            Ok(s) => Some(s.to_owned()),
            Err(_) => None,
        },
        Err(_) => None,
    }
}

/// Makes a request identifier with `Uuid::new_v4` of `uuid`, written out by
/// its `Display` impl.
///
/// Trusted: the identifier is random, so only its shape is stated: the
/// hyphenated lower-case form, with the version and variant bits that
/// `new_v4` sets. `new_v4` aborts if the operating system's random source
/// cannot be read.
#[verifier::external_body]
pub(crate) fn fresh_request_id() -> (id: String)
    ensures
        is_request_id(id@),
{
    Uuid::new_v4().to_string()
}

} // verus!
