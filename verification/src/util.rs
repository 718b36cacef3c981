//! Identifier codec and text helpers: a 128-bit account identifier as a
//! URL-safe text token, form encoding, header lookup and lossy decoding.

use axum::http::{HeaderMap, HeaderValue};
use base64::prelude::{Engine, BASE64_URL_SAFE};
use std::borrow::Cow;
use uuid::Uuid;
use vstd::prelude::*;
use vstd::utf8::{decode_utf8, encode_utf8, valid_utf8};

verus! {

/// Error of `base64::Engine::decode`; carried through, never inspected.
#[verifier::external_type_specification]
#[verifier::external_body]
pub struct ExDecodeError(base64::DecodeError);

/// `DecodeError` is cloned field by field; nothing is claimed of the copy.
pub assume_specification[ <base64::DecodeError as Clone>::clone ](
    e: &base64::DecodeError,
) -> base64::DecodeError
;

/// The 128-bit identifier type of the `uuid` crate; its content is `uuid_bytes`.
#[verifier::external_type_specification]
#[verifier::external_body]
pub struct ExUuid(Uuid);

/// The text that `base64::Engine::encode` of the URL-safe, padded engine yields for `bytes`.
pub uninterp spec fn url_safe_encoded(bytes: Seq<u8>) -> Seq<char>;

/// The bytes that `base64::Engine::decode` of the URL-safe, padded engine yields for `text`,
/// `None` where it rejects `text` as malformed.
pub uninterp spec fn url_safe_decoded(text: Seq<char>) -> Option<Seq<u8>>;

/// The sixteen bytes that a `Uuid` wraps.
pub uninterp spec fn uuid_bytes(id: Uuid) -> Seq<u8>;

/// `Uuid::from_bytes` wraps the given bytes unchanged.
pub assume_specification[ Uuid::from_bytes ](bytes: uuid::Bytes) -> (id: Uuid)
    ensures
        uuid_bytes(id) == bytes@,
;

/// `Uuid::into_bytes` hands out the wrapped bytes unchanged.
pub assume_specification[ Uuid::into_bytes ](id: Uuid) -> (bytes: uuid::Bytes)
    ensures
        bytes@ == uuid_bytes(id),
;

/// Characters that a URL path segment holds without escaping and that the
/// URL-safe base64 alphabet, with its padding sign, is drawn from.
pub open spec fn is_url_safe(c: char) -> bool {
    ||| 'A' <= c <= 'Z'
    ||| 'a' <= c <= 'z'
    ||| '0' <= c <= '9'
    ||| c == '-'
    ||| c == '_'
    ||| c == '='
}

/// Why a text token is not an identifier.
#[derive(Clone, Debug)]
pub enum IdError {
    /// The token is well-formed but stands for this many bytes instead of sixteen.
    InvalidLength(usize),
    /// The token is not well-formed base64.
    Decode(base64::DecodeError),
}

/// What decoding `text` as an identifier comes to: the sixteen bytes, or the
/// length that was found instead, or `None` where `text` is malformed.
pub open spec fn decoded_id(text: Seq<char>) -> Option<Result<Seq<u8>, nat>> {
    match url_safe_decoded(text) {
        None => None,
        Some(bytes) => if bytes.len() == 16 {
            Some(Ok(bytes))
        } else {
            Some(Err(bytes.len()))
        },
    }
}

/// Calls `base64::Engine::encode` on `BASE64_URL_SAFE`. Trusted: the result is
/// the named encoding of `bytes`, decodes back to `bytes` with the same engine,
/// and consists of the URL-safe alphabet and the padding sign only.
#[verifier::external_body]
fn encode_url_safe(bytes: &[u8; 16]) -> (text: String)
    ensures
        text@ == url_safe_encoded(bytes@),
        url_safe_decoded(text@) == Some(bytes@),
        forall|i: int| 0 <= i < text@.len() ==> is_url_safe(#[trigger] text@[i]),
{
    BASE64_URL_SAFE.encode(bytes)
}

/// Calls `base64::Engine::decode` on `BASE64_URL_SAFE`. Trusted: `Ok` holds the
/// named decoding of `text`, and `Err` comes exactly where that decoding is `None`.
#[verifier::external_body]
fn decode_url_safe(text: &str) -> (r: Result<Vec<u8>, base64::DecodeError>)
    ensures
        match r {
            Ok(bytes) => url_safe_decoded(text@) == Some(bytes@),
            Err(_) => url_safe_decoded(text@) is None,
        },
{
    BASE64_URL_SAFE.decode(text)
}

/// Makes an identifier of what the base64 decoder returned: its error is
/// carried on as `Decode`, sixteen bytes are the identifier, and any other
/// number of bytes is answered with `InvalidLength` and that number.
pub fn id_from_decoded(decoded: Result<Vec<u8>, base64::DecodeError>) -> (r: Result<
    [u8; 16],
    IdError,
>)
    ensures
        match decoded {
            Err(error) => r matches Err(IdError::Decode(carried)) && carried == error,
            Ok(bytes) => if bytes@.len() == 16 {
                r matches Ok(id) && id@ == bytes@
            } else {
                r matches Err(IdError::InvalidLength(len)) && len == bytes@.len()
            },
        },
{
    let bytes = match decoded {
        Ok(bytes) => bytes,
        Err(error) => {
            return Err(IdError::Decode(error));
        },
    };
    let len: usize = bytes.len();
    if len != 16 {
        return Err(IdError::InvalidLength(len));
    }
    let mut buffer: [u8; 16] = [0;16];
    let mut i: usize = 0;
    while i < 16
        invariant
            i <= 16,
            bytes@.len() == 16,
            forall|j: int| 0 <= j < i ==> buffer@[j] == bytes@[j],
        decreases 16 - i,
    {
        buffer[i] = bytes[i];
        i += 1;
    }
    Ok(buffer)
}

/// Decodes a text token into a 16-byte identifier.
///
/// Succeeds exactly on well-formed tokens that stand for sixteen bytes; a
/// well-formed token of any other length is answered with `InvalidLength` and
/// that length, a malformed one with `Decode`.
pub fn b64_to_id(b64_id: &str) -> (r: Result<[u8; 16], IdError>)
    ensures
        match decoded_id(b64_id@) {
            None => r matches Err(IdError::Decode(_)),
            Some(Err(n)) => r matches Err(IdError::InvalidLength(len)) && len == n,
            Some(Ok(bytes)) => r matches Ok(id) && id@ == bytes,
        },
{
    id_from_decoded(decode_url_safe(b64_id))
}

/// Encodes a 16-byte identifier as a text token.
///
/// The token is the URL-safe base64 encoding of `id`; it needs no escaping in
/// a path segment, and `b64_to_id` maps it back to `id`.
pub fn id_to_b64(id: &[u8; 16]) -> (text: String)
    ensures
        text@ == url_safe_encoded(id@),
        decoded_id(text@) == Some(Ok::<Seq<u8>, nat>(id@)),
        forall|i: int| 0 <= i < text@.len() ==> is_url_safe(#[trigger] text@[i]),
{
    encode_url_safe(id)
}

/// Encodes a `Uuid` as a text token: the token of its sixteen bytes.
pub fn uuid_to_b64(uuid: &Uuid) -> (text: String)
    ensures
        text@ == url_safe_encoded(uuid_bytes(*uuid)),
        decoded_id(text@) == Some(Ok::<Seq<u8>, nat>(uuid_bytes(*uuid))),
        forall|i: int| 0 <= i < text@.len() ==> is_url_safe(#[trigger] text@[i]),
{
    let bytes: [u8; 16] = (*uuid).into_bytes();
    encode_url_safe(&bytes)
}

/// Decodes a text token into a `Uuid`; fails as `b64_to_id` does.
pub fn b64_to_uuid(b64_id: &str) -> (r: Result<Uuid, IdError>)
    ensures
        match decoded_id(b64_id@) {
            None => r matches Err(IdError::Decode(_)),
            Some(Err(n)) => r matches Err(IdError::InvalidLength(len)) && len == n,
            Some(Ok(bytes)) => r matches Ok(id) && uuid_bytes(id) == bytes,
        },
{
    match b64_to_id(b64_id) {
        Ok(bytes) => Ok(Uuid::from_bytes(bytes)),
        Err(e) => Err(e),
    }
}

/// Bytes that the form serializer copies unchanged.
pub open spec fn is_form_unreserved(b: u8) -> bool {
    ||| b == 0x2a
    ||| b == 0x2d
    ||| b == 0x2e
    ||| 0x30 <= b <= 0x39
    ||| 0x41 <= b <= 0x5a
    ||| b == 0x5f
    ||| 0x61 <= b <= 0x7a
}

/// The upper-case hexadecimal digit of a value below sixteen.
pub open spec fn hex_upper(d: int) -> char {
    if d < 10 {
        (0x30 + d) as char
    } else {
        (0x37 + d) as char
    }
}

/// How the form serializer writes one byte: itself, `+` for a space, or `%`
/// and two upper-case hexadecimal digits.
pub open spec fn form_encoded_byte(b: u8) -> Seq<char> {
    if is_form_unreserved(b) {
        seq![b as char]
    } else if b == 0x20 {
        seq!['+']
    } else {
        seq!['%', hex_upper(b as int / 16), hex_upper(b as int % 16)]
    }
}

/// The `application/x-www-form-urlencoded` serialization of a byte string:
/// the serializations of its bytes, in order.
pub open spec fn form_encoded(bytes: Seq<u8>) -> Seq<char>
    decreases bytes.len(),
{
    if bytes.len() == 0 {
        Seq::empty()
    } else {
        form_encoded_byte(bytes.first()) + form_encoded(bytes.drop_first())
    }
}

/// Calls `form_urlencoded::byte_serialize` and joins the pieces it yields.
/// Trusted: the pieces are, byte for byte, what `form_encoded_byte` says.
#[verifier::external_body]
fn byte_serialize(input: &[u8]) -> (text: String)
    ensures
        text@ == form_encoded(input@),
{
    form_urlencoded::byte_serialize(input).collect()
}

/// Serializes the UTF-8 bytes of `s` as `application/x-www-form-urlencoded`.
pub fn urlencode(s: &str) -> (text: String)
    ensures
        text@ == form_encoded(encode_utf8(s@)),
{
    byte_serialize(s.as_bytes())
}

/// The header table of the `http` crate, as `axum` hands it out.
#[verifier::external_type_specification]
#[verifier::external_body]
#[verifier::reject_recursive_types(T)]
pub struct ExHeaderMap<T>(HeaderMap<T>);

/// One header value of the `http` crate; its content is `header_value_bytes`.
#[verifier::external_type_specification]
#[verifier::external_body]
pub struct ExHeaderValue(HeaderValue);

/// What `HeaderMap::get` finds: for each name, as the caller may write it, under
/// which the table holds a value, the bytes of the first such value.
pub uninterp spec fn header_entries(headers: HeaderMap) -> Map<Seq<char>, Seq<u8>>;

/// The bytes of a header value.
pub uninterp spec fn header_value_bytes(value: HeaderValue) -> Seq<u8>;

/// Bytes that `HeaderValue::to_str` accepts: printable ASCII and the tab.
pub open spec fn is_visible_ascii(b: u8) -> bool {
    32 <= b < 127 || b == 9
}

/// Whether every byte of a header value is visible ASCII.
pub open spec fn is_visible_text(bytes: Seq<u8>) -> bool {
    forall|i: int| 0 <= i < bytes.len() ==> is_visible_ascii(#[trigger] bytes[i])
}

/// A byte string read as text, one character for each byte.
pub open spec fn ascii_text(bytes: Seq<u8>) -> Seq<char> {
    Seq::new(bytes.len(), |i: int| bytes[i] as char)
}

/// What `get_header` finds under `name`: the first value as text, unless the
/// table holds none or the value has a byte that is not visible ASCII.
pub open spec fn header_text(headers: HeaderMap, name: Seq<char>) -> Option<Seq<char>> {
    if header_entries(headers).contains_key(name) && is_visible_text(
        header_entries(headers)[name],
    ) {
        Some(ascii_text(header_entries(headers)[name]))
    } else {
        None
    }
}

/// Calls `HeaderMap::get` with a name given as text. Trusted: a value comes
/// back exactly where the named entries hold one, and it has those bytes.
#[verifier::external_body]
fn header_get<'a>(headers: &'a HeaderMap, header_name: &str) -> (r: Option<&'a HeaderValue>)
    ensures
        r is Some == header_entries(*headers).contains_key(header_name@),
        r matches Some(value) ==> header_value_bytes(*value) == header_entries(
            *headers,
        )[header_name@],
{
    headers.get(header_name)
}

/// Calls `HeaderValue::to_str`. Trusted: text comes back exactly where every
/// byte is visible ASCII, and it is those bytes, one character each.
#[verifier::external_body]
fn header_to_str<'a>(value: &'a HeaderValue) -> (r: Option<&'a str>)
    ensures
        r is Some == is_visible_text(header_value_bytes(*value)),
        r matches Some(text) ==> text@ == ascii_text(header_value_bytes(*value)),
{
    value.to_str().ok()
}

/// The first value of the header `header_name` as text, if it has one that is
/// visible ASCII throughout.
pub fn get_header<'a>(headers: &'a HeaderMap, header_name: &str) -> (r: Option<&'a str>)
    ensures
        match header_text(*headers, header_name@) {
            Some(text) => r matches Some(found) && found@ == text,
            None => r is None,
        },
{
    match header_get(headers, header_name) {
        Some(header) => header_to_str(header),
        None => None,
    }
}

/// As `get_header`, with the text copied out of the table.
pub fn get_header_owned(headers: &HeaderMap, header_name: &str) -> (r: Option<String>)
    ensures
        match header_text(*headers, header_name@) {
            Some(text) => r matches Some(found) && found@ == text,
            None => r is None,
        },
{
    match header_get(headers, header_name) {
        Some(header) => match header_to_str(header) {
            Some(text) => Some(text.to_owned()),
            None => None,
        },
        None => None,
    }
}

/// The text that `String::from_utf8_lossy` makes of `bytes`.
pub uninterp spec fn utf8_lossy(bytes: Seq<u8>) -> Seq<char>;

/// Calls `String::from_utf8_lossy` and takes the text as a `String`. Trusted:
/// the result is the named text, and valid UTF-8 is decoded as it stands.
#[verifier::external_body]
fn from_utf8_lossy(bytes: &[u8]) -> (text: String)
    ensures
        text@ == utf8_lossy(bytes@),
        valid_utf8(bytes@) ==> text@ == decode_utf8(bytes@),
{
    String::from_utf8_lossy(bytes).into_owned()
}

/// Reads bytes as UTF-8 text, replacing what is not valid UTF-8.
pub fn cow_to_string(cow: Cow<'static, [u8]>) -> (text: String)
    ensures
        text@ == utf8_lossy(cow@),
        valid_utf8(cow@) ==> text@ == decode_utf8(cow@),
{
    match cow {
        Cow::Borrowed(x) => from_utf8_lossy(x),
        Cow::Owned(x) => from_utf8_lossy(x.as_slice()),
    }
}

} // verus!
