//! What the HTTP stack accepts on the wire: header names, header values and
//! URLs. The checks themselves are made by the `http`, `url` and `base64`
//! code that the transport is built on, so that a call this crate accepts is
//! one the transport can send.
use vstd::prelude::*;

verus! {

/// The longest header name, in characters.
pub const MAX_HEADER_NAME_LEN: usize = 65535;

/// A character that may stand in a header value: a tab, or anything from the
/// space upwards but the delete character.
pub open spec fn value_char(c: char) -> bool {
    c == '\t' || (c as u32 >= 32 && c as u32 != 127)
}

/// A text that can be sent as a header value.
pub open spec fn valid_header_value(value: Seq<char>) -> bool {
    forall|i: int| 0 <= i < value.len() ==> value_char(#[trigger] value[i])
}

/// A character that may stand in a header name: an ASCII letter or digit, or
/// one of the punctuation marks of an HTTP token (with the double quote).
pub open spec fn name_char(c: char) -> bool {
    ||| ('a' <= c && c <= 'z')
    ||| ('A' <= c && c <= 'Z')
    ||| ('0' <= c && c <= '9')
    ||| c == '!'
    ||| c == '"'
    ||| c == '#'
    ||| c == '$'
    ||| c == '%'
    ||| c == '&'
    ||| c == '\''
    ||| c == '*'
    ||| c == '+'
    ||| c == '-'
    ||| c == '.'
    ||| c == '^'
    ||| c == '_'
    ||| c == '`'
    ||| c == '|'
    ||| c == '~'
}

/// A text that can be sent as a header name.
pub open spec fn valid_header_name(name: Seq<char>) -> bool {
    &&& 1 <= name.len() <= MAX_HEADER_NAME_LEN
    &&& forall|i: int| 0 <= i < name.len() ==> name_char(#[trigger] name[i])
}

/// A header that can be sent: both its name and its value can.
pub open spec fn valid_header(header: (Seq<char>, Seq<char>)) -> bool {
    valid_header_name(header.0) && valid_header_value(header.1)
}

/// Whether the URL parser takes `url` as an absolute URL with a host.
pub uninterp spec fn url_accepted(url: Seq<char>) -> bool;

/// The standard, padded base64 encoding of the UTF-8 bytes of `text`.
pub uninterp spec fn base64_text(text: Seq<char>) -> Seq<char>;

/// `HeaderValue::from_str` of the `http` crate, as `reqwest::header`
/// re-exports it. It walks the bytes of `value` and refuses the first one
/// below 32 that is no tab, and the byte 127. The bytes of a character beyond
/// ASCII are all 128 or more, so the test comes to the same on characters.
#[verifier::external_body]
pub(crate) fn header_value_accepted(value: &str) -> (ok: bool)
    ensures
        ok == valid_header_value(value@),
{
    reqwest::header::HeaderValue::from_str(value).is_ok()
}

/// `HeaderName::from_bytes` of the `http` crate, as `reqwest::header`
/// re-exports it. It refuses the empty name, a name of more than 65535
/// bytes, and any byte that its table of header characters maps to zero;
/// the table keeps ASCII letters, digits and
/// `` ! " # $ % & ' * + - . ^ _ ` | ~ `` and nothing else.
#[verifier::external_body]
pub(crate) fn header_name_accepted(name: &str) -> (ok: bool)
    ensures
        ok == valid_header_name(name@),
{
    reqwest::header::HeaderName::from_bytes(name.as_bytes()).is_ok()
}

/// `Url::parse` and `Url::has_host` of the `url` crate, as `reqwest`
/// re-exports them: the test that `reqwest` makes of a URL given as text
/// before it builds a request for it. The answer depends on `url` alone.
#[verifier::external_body]
pub(crate) fn url_is_accepted(url: &str) -> (ok: bool)
    ensures
        ok == url_accepted(url@),
{
    match reqwest::Url::parse(url) {
        Ok(parsed) => parsed.has_host(),
        Err(_) => false,
    }
}

/// `Engine::encode` of the `base64` crate on its `STANDARD` engine: the
/// RFC 4648 alphabet with padding, applied to the UTF-8 bytes of `text`.
/// The result depends on `text` alone.
#[verifier::external_body]
pub(crate) fn base64_encode(text: &str) -> (encoded: String)
    ensures
        encoded@ == base64_text(text@),
{
    base64::Engine::encode(&base64::engine::general_purpose::STANDARD, text)
}

} // verus!
