use axum::http::{HeaderMap, HeaderValue};
use change_email::util::{
    b64_to_id, b64_to_uuid, cow_to_string, get_header, get_header_owned, id_to_b64, urlencode,
    uuid_to_b64, IdError,
};
use std::borrow::Cow;
use uuid::Uuid;

fn url_safe(c: char) -> bool {
    c.is_ascii_alphanumeric() || c == '-' || c == '_' || c == '='
}

#[test]
fn test_urlencode() {
    assert_eq!(urlencode("+col0,-col1"), "%2Bcol0%2C-col1");
}

#[test]
fn urlencode_keeps_unreserved_bytes() {
    assert_eq!(urlencode("AZaz09*-._"), "AZaz09*-._");
    assert_eq!(urlencode(""), "");
}

#[test]
fn urlencode_writes_space_as_plus() {
    assert_eq!(urlencode("a b  c"), "a+b++c");
}

#[test]
fn urlencode_escapes_with_upper_case_hex() {
    assert_eq!(urlencode("~"), "%7E");
    assert_eq!(urlencode("a@x.com"), "a%40x.com");
    assert_eq!(urlencode("/?&=#%"), "%2F%3F%26%3D%23%25");
    assert_eq!(urlencode("\u{0}\n\u{7f}"), "%00%0A%7F");
}

#[test]
fn urlencode_escapes_each_byte_of_a_character() {
    assert_eq!(urlencode("\u{e9}"), "%C3%A9");
    assert_eq!(urlencode("\u{20ac}x"), "%E2%82%ACx");
}

#[test]
fn id_to_b64_known_values() {
    assert_eq!(id_to_b64(&[0u8; 16]), "AAAAAAAAAAAAAAAAAAAAAA==");
    assert_eq!(
        id_to_b64(&[0, 1, 2, 3, 4, 5, 6, 7, 8, 9, 10, 11, 12, 13, 14, 15]),
        "AAECAwQFBgcICQoLDA0ODw=="
    );
    assert_eq!(id_to_b64(&[0xff; 16]), "_____________________w==");
    assert_eq!(
        id_to_b64(&[0xfb, 0xff, 0, 0, 0, 0, 0, 0, 0, 0, 0, 0, 0, 0, 0, 0]),
        "-_8AAAAAAAAAAAAAAAAAAA=="
    );
}

#[test]
fn id_to_b64_is_url_safe() {
    let mut id = [0u8; 16];
    for seed in 0..=255u8 {
        for (i, byte) in id.iter_mut().enumerate() {
            *byte = seed.wrapping_mul(31).wrapping_add((i as u8).wrapping_mul(17));
        }
        let text = id_to_b64(&id);
        assert_eq!(text.len(), 24);
        assert!(text.chars().all(url_safe), "{text}");
    }
}

#[test]
fn id_round_trip() {
    let mut id = [0u8; 16];
    for seed in 0..=255u8 {
        for (i, byte) in id.iter_mut().enumerate() {
            *byte = seed.wrapping_mul(7).wrapping_add((i as u8).wrapping_mul(29));
        }
        let back = b64_to_id(&id_to_b64(&id)).unwrap();
        assert_eq!(back, id);
    }
}

#[test]
fn b64_to_id_known_value() {
    assert_eq!(
        b64_to_id("8PHy8_T19vf4-fr7_P3-_w==").unwrap(),
        [
            0xf0, 0xf1, 0xf2, 0xf3, 0xf4, 0xf5, 0xf6, 0xf7, 0xf8, 0xf9, 0xfa, 0xfb, 0xfc, 0xfd,
            0xfe, 0xff
        ]
    );
}

#[test]
fn b64_to_id_rejects_other_lengths() {
    assert!(matches!(b64_to_id(""), Err(IdError::InvalidLength(0))));
    assert!(matches!(b64_to_id("AAAA"), Err(IdError::InvalidLength(3))));
    assert!(matches!(
        b64_to_id("AAAAAAAAAAAAAAAAAAAA"),
        Err(IdError::InvalidLength(15))
    ));
    assert!(matches!(
        b64_to_id("AAAAAAAAAAAAAAAAAAAAAAA="),
        Err(IdError::InvalidLength(17))
    ));
    assert!(matches!(
        b64_to_id("AAAAAAAAAAAAAAAAAAAAAAAAAAAAAAAA"),
        Err(IdError::InvalidLength(24))
    ));
}

#[test]
fn b64_to_id_rejects_malformed_text() {
    assert!(matches!(b64_to_id("!!!!"), Err(IdError::Decode(_))));
    assert!(matches!(
        b64_to_id("AAAAAAAAAAAAAAAAAAAAAA"),
        Err(IdError::Decode(_))
    ));
    assert!(matches!(
        b64_to_id("++++++++++++++++++++++=="),
        Err(IdError::Decode(_))
    ));
    assert!(matches!(
        b64_to_id("AAAAAAAAAAAAAAAAAAAAAB=="),
        Err(IdError::Decode(_))
    ));
    assert!(matches!(b64_to_id("A"), Err(IdError::Decode(_))));
}

#[test]
fn id_error_can_be_cloned() {
    let error = b64_to_id("AAAA").unwrap_err();
    assert!(matches!(error.clone(), IdError::InvalidLength(3)));
    let error = b64_to_id("!!!!").unwrap_err();
    assert!(matches!(error.clone(), IdError::Decode(_)));
}

#[test]
fn uuid_to_b64_is_the_token_of_its_bytes() {
    let bytes = [0, 1, 2, 3, 4, 5, 6, 7, 8, 9, 10, 11, 12, 13, 14, 15];
    let uuid = Uuid::from_bytes(bytes);
    assert_eq!(uuid_to_b64(&uuid), "AAECAwQFBgcICQoLDA0ODw==");
    assert_eq!(uuid_to_b64(&uuid), id_to_b64(&bytes));
}

#[test]
fn uuid_round_trip() {
    let uuid = Uuid::from_bytes([
        0x55, 0x0e, 0x84, 0x00, 0xe2, 0x9b, 0x41, 0xd4, 0xa7, 0x16, 0x44, 0x66, 0x55, 0x44, 0x00,
        0x00,
    ]);
    assert_eq!(b64_to_uuid(&uuid_to_b64(&uuid)).unwrap(), uuid);
}

#[test]
fn b64_to_uuid_fails_as_b64_to_id_does() {
    assert!(matches!(b64_to_uuid("AAAA"), Err(IdError::InvalidLength(3))));
    assert!(matches!(b64_to_uuid("****"), Err(IdError::Decode(_))));
}

#[test]
fn get_header_finds_the_first_value() {
    let mut headers = HeaderMap::new();
    headers.append("x-token", HeaderValue::from_static("first"));
    headers.append("x-token", HeaderValue::from_static("second"));
    headers.insert("content-type", HeaderValue::from_static("text/plain"));
    assert_eq!(get_header(&headers, "x-token"), Some("first"));
    assert_eq!(get_header(&headers, "content-type"), Some("text/plain"));
    assert_eq!(get_header(&headers, "Content-Type"), Some("text/plain"));
    assert_eq!(
        get_header_owned(&headers, "x-token"),
        Some("first".to_string())
    );
}

#[test]
fn get_header_finds_nothing_under_an_absent_name() {
    let mut headers = HeaderMap::new();
    headers.insert("content-type", HeaderValue::from_static("text/plain"));
    assert_eq!(get_header(&headers, "accept"), None);
    assert_eq!(get_header(&headers, "not a header name"), None);
    assert_eq!(get_header_owned(&headers, "accept"), None);
    assert_eq!(get_header(&HeaderMap::new(), "content-type"), None);
}

#[test]
fn get_header_refuses_values_that_are_not_visible_ascii() {
    let mut headers = HeaderMap::new();
    headers.insert("x-raw", HeaderValue::from_bytes(b"caf\xc3\xa9").unwrap());
    headers.insert("x-tab", HeaderValue::from_bytes(b"a\tb").unwrap());
    assert_eq!(get_header(&headers, "x-raw"), None);
    assert_eq!(get_header_owned(&headers, "x-raw"), None);
    assert_eq!(get_header(&headers, "x-tab"), Some("a\tb"));
    assert_eq!(get_header_owned(&headers, "x-tab"), Some("a\tb".to_string()));
}

#[test]
fn cow_to_string_reads_valid_utf8_as_it_stands() {
    assert_eq!(cow_to_string(Cow::Borrowed(b"hello")), "hello");
    assert_eq!(
        cow_to_string(Cow::Owned("gr\u{fc}\u{df}e \u{20ac}".as_bytes().to_vec())),
        "gr\u{fc}\u{df}e \u{20ac}"
    );
    assert_eq!(cow_to_string(Cow::Borrowed(b"")), "");
}

#[test]
fn cow_to_string_replaces_invalid_bytes() {
    assert_eq!(cow_to_string(Cow::Borrowed(b"a\xffb")), "a\u{fffd}b");
    assert_eq!(cow_to_string(Cow::Owned(vec![0xc3])), "\u{fffd}");
}
