use axum::http::{HeaderMap, HeaderValue};
use eventsub_bridge::message_verification::{
    build_message, get_hmac_message, hex_digit, mac_verdict, signature_to_hex, verify_mac,
    verify_message, HmacVerificationError, MESSAGE_ID, MESSAGE_SIGNATURE, MESSAGE_TIMESTAMP,
    SIGNATURE_PREFIX_LEN,
};
use hmac::digest::MacError;
use hmac::{Hmac, Mac};
use sha2::Sha256;

fn tag(secret: &[u8], message: &[u8]) -> Vec<u8> {
    let mut mac = Hmac::<Sha256>::new_from_slice(secret).unwrap();
    mac.update(message);
    mac.finalize().into_bytes().to_vec()
}

fn hex(bytes: &[u8]) -> String {
    let mut text = String::new();
    for byte in bytes {
        text.push_str(&format!("{:02x}", byte));
    }
    text
}

fn signed_headers(id: &str, timestamp: &str, body: &str, secret: &str) -> HeaderMap {
    let mut message = Vec::new();
    message.extend_from_slice(id.as_bytes());
    message.extend_from_slice(timestamp.as_bytes());
    message.extend_from_slice(body.as_bytes());
    let signature = format!("sha256={}", hex(&tag(secret.as_bytes(), &message)));
    let mut headers = HeaderMap::new();
    headers.insert(MESSAGE_ID, HeaderValue::from_str(id).unwrap());
    headers.insert(MESSAGE_TIMESTAMP, HeaderValue::from_str(timestamp).unwrap());
    headers.insert(MESSAGE_SIGNATURE, HeaderValue::from_str(&signature).unwrap());
    headers
}

#[test]
fn header_names_are_those_of_the_service() {
    assert_eq!(MESSAGE_ID, "twitch-eventsub-message-id");
    assert_eq!(MESSAGE_TIMESTAMP, "twitch-eventsub-message-timestamp");
    assert_eq!(MESSAGE_SIGNATURE, "twitch-eventsub-message-signature");
    assert_eq!(SIGNATURE_PREFIX_LEN, 7);
}

#[test]
fn hex_digit_values() {
    assert_eq!(hex_digit(b'0'), Some(0));
    assert_eq!(hex_digit(b'9'), Some(9));
    assert_eq!(hex_digit(b'a'), Some(10));
    assert_eq!(hex_digit(b'f'), Some(15));
    assert_eq!(hex_digit(b'A'), Some(10));
    assert_eq!(hex_digit(b'F'), Some(15));
    assert_eq!(hex_digit(b'g'), None);
    assert_eq!(hex_digit(b'G'), None);
    assert_eq!(hex_digit(b'/'), None);
    assert_eq!(hex_digit(b':'), None);
    assert_eq!(hex_digit(b'@'), None);
    assert_eq!(hex_digit(b'`'), None);
    assert_eq!(hex_digit(b'+'), None);
    assert_eq!(hex_digit(b' '), None);
    assert_eq!(hex_digit(0xff), None);
}

#[test]
fn decode_yields_half_as_many_bytes() {
    let decoded = signature_to_hex(b"sha256=00ff10aB").unwrap();
    assert_eq!(decoded, vec![0x00, 0xff, 0x10, 0xab]);
    let all: Vec<u8> = (0..=255).collect();
    let header = format!("sha256={}", hex(&all));
    let decoded = signature_to_hex(header.as_bytes()).unwrap();
    assert_eq!(decoded.len(), (header.len() - 7) / 2);
    assert_eq!(decoded, all);
}

#[test]
fn decode_accepts_both_letter_cases() {
    assert_eq!(signature_to_hex(b"sha256=DEADbeef").unwrap(), vec![0xde, 0xad, 0xbe, 0xef]);
}

#[test]
fn decode_of_the_bare_prefix_is_empty() {
    assert_eq!(signature_to_hex(b"sha256=").unwrap(), Vec::<u8>::new());
}

#[test]
fn decode_skips_the_prefix_unread() {
    assert_eq!(signature_to_hex(b"zzzzzzz0a").unwrap(), vec![0x0a]);
}

#[test]
fn decode_rejects_a_short_header() {
    assert!(matches!(signature_to_hex(b""), Err(HmacVerificationError::InvalidSignature)));
    assert!(matches!(signature_to_hex(b"sha256"), Err(HmacVerificationError::InvalidSignature)));
}

#[test]
fn decode_rejects_an_odd_number_of_digits() {
    assert!(matches!(signature_to_hex(b"sha256=a"), Err(HmacVerificationError::InvalidSignature)));
    assert!(matches!(
        signature_to_hex(b"sha256=abc"),
        Err(HmacVerificationError::InvalidSignature)
    ));
}

#[test]
fn decode_rejects_what_is_not_hexadecimal() {
    assert!(matches!(
        signature_to_hex(b"sha256=zz"),
        Err(HmacVerificationError::InvalidSignature)
    ));
    assert!(matches!(
        signature_to_hex(b"sha256=0g"),
        Err(HmacVerificationError::InvalidSignature)
    ));
    assert!(matches!(
        signature_to_hex(b"sha256=+f"),
        Err(HmacVerificationError::InvalidSignature)
    ));
    assert!(matches!(
        signature_to_hex(b"sha256=00 1"),
        Err(HmacVerificationError::InvalidSignature)
    ));
    assert!(matches!(
        signature_to_hex(b"sha256=00\xc3\xa9"),
        Err(HmacVerificationError::InvalidSignature)
    ));
}

#[test]
fn message_is_id_timestamp_body_without_separators() {
    assert_eq!(build_message(b"1", b"t", b"{}"), b"1t{}".to_vec());
    assert_eq!(build_message(b"", b"", b""), Vec::<u8>::new());
    assert_eq!(build_message(b"ab", b"", b"c d\n"), b"abc d\n".to_vec());
}

#[test]
fn message_is_read_from_the_headers() {
    let mut headers = HeaderMap::new();
    headers.insert(MESSAGE_ID, HeaderValue::from_static("id-7"));
    headers.insert(MESSAGE_TIMESTAMP, HeaderValue::from_static("2024-01-01T00:00:00Z"));
    let message = get_hmac_message(&headers, &String::from("{\"a\":1}")).unwrap();
    assert_eq!(message, b"id-72024-01-01T00:00:00Z{\"a\":1}".to_vec());
}

#[test]
fn message_keeps_header_bytes_that_are_no_text() {
    let mut headers = HeaderMap::new();
    headers.insert(MESSAGE_ID, HeaderValue::from_bytes(b"\xfe\xff").unwrap());
    headers.insert(MESSAGE_TIMESTAMP, HeaderValue::from_static("t"));
    let message = get_hmac_message(&headers, &String::from("é")).unwrap();
    assert_eq!(message, b"\xfe\xfft\xc3\xa9".to_vec());
}

#[test]
fn message_takes_the_first_of_repeated_headers() {
    let mut headers = HeaderMap::new();
    headers.append(MESSAGE_ID, HeaderValue::from_static("first"));
    headers.append(MESSAGE_ID, HeaderValue::from_static("second"));
    headers.insert(MESSAGE_TIMESTAMP, HeaderValue::from_static("t"));
    let message = get_hmac_message(&headers, &String::new()).unwrap();
    assert_eq!(message, b"firstt".to_vec());
}

#[test]
fn message_needs_the_id_then_the_timestamp() {
    let body = String::from("b");
    let empty = HeaderMap::new();
    match get_hmac_message(&empty, &body) {
        Err(HmacVerificationError::MissingHeader(name)) => assert_eq!(name, MESSAGE_ID),
        other => panic!("unexpected: {:?}", other),
    }
    let mut headers = HeaderMap::new();
    headers.insert(MESSAGE_ID, HeaderValue::from_static("1"));
    match get_hmac_message(&headers, &body) {
        Err(HmacVerificationError::MissingHeader(name)) => assert_eq!(name, MESSAGE_TIMESTAMP),
        other => panic!("unexpected: {:?}", other),
    }
}

#[test]
fn known_tag_is_accepted() {
    let expected = signature_to_hex(
        b"sha256=5bdcc146bf60754e6a042426089575c75a003f089d2739839dec58b964ec3843",
    )
    .unwrap();
    assert!(verify_mac(b"what do ya want for nothing?", &expected, b"Jefe").is_ok());
    assert!(verify_mac(b"what do ya want for nothing!", &expected, b"Jefe").is_err());
    assert!(verify_mac(b"what do ya want for nothing?", &expected, b"jefe").is_err());
}

#[test]
fn message_is_not_its_own_tag() {
    let message = [7u8; 32];
    assert!(matches!(
        verify_mac(&message, &message, b"key"),
        Err(HmacVerificationError::MacError(_))
    ));
}

#[test]
fn correct_signature_always_verifies() {
    let cases: [(&str, &str, &str, &str); 5] = [
        ("1", "t", "{\"event\":{\"broadcaster_user_login\":\"alice\"}}", "s3cr3t"),
        ("", "", "", ""),
        ("id", "2024-05-06T07:08:09.123456789Z", "body with spaces\n", "k"),
        ("a", "b", "ünïcödé ☃", "sëcret"),
        ("x", "y", "z", "a secret that is longer than one block of the hash function, \
            which is sixty-four bytes for SHA-256, so that it is hashed first"),
    ];
    for (id, timestamp, body, secret) in cases {
        let message = build_message(id.as_bytes(), timestamp.as_bytes(), body.as_bytes());
        let signature = tag(secret.as_bytes(), &message);
        assert!(verify_mac(&message, &signature, secret.as_bytes()).is_ok());
        let headers = signed_headers(id, timestamp, body, secret);
        assert!(verify_message(&headers, &body.to_string(), &secret.to_string()).is_ok());
    }
}

#[test]
fn flipped_signature_never_verifies() {
    let message = build_message(b"1", b"t", b"body");
    let signature = tag(b"s3cr3t", &message);
    for at in 0..signature.len() {
        for bit in 0..8 {
            let mut flipped = signature.clone();
            flipped[at] ^= 1 << bit;
            assert!(matches!(
                verify_mac(&message, &flipped, b"s3cr3t"),
                Err(HmacVerificationError::MacError(_))
            ));
        }
    }
}

#[test]
fn signature_of_wrong_length_is_a_mismatch() {
    let message = build_message(b"1", b"t", b"body");
    let signature = tag(b"s3cr3t", &message);
    assert_eq!(signature.len(), 32);
    assert!(verify_mac(&message, &signature[..31], b"s3cr3t").is_err());
    let mut longer = signature.clone();
    longer.push(0);
    assert!(verify_mac(&message, &longer, b"s3cr3t").is_err());
    assert!(verify_mac(&message, &[], b"s3cr3t").is_err());
}

#[test]
fn verdict_follows_the_comparison() {
    assert!(mac_verdict(Ok(())).is_ok());
    assert!(matches!(mac_verdict(Err(MacError)), Err(HmacVerificationError::MacError(_))));
}

#[test]
fn request_needs_its_three_headers_in_order() {
    let body = String::from("{}");
    let secret = String::from("s3cr3t");
    let full = signed_headers("1", "t", "{}", "s3cr3t");
    for (absent, reported) in [
        (vec![MESSAGE_ID], MESSAGE_ID),
        (vec![MESSAGE_TIMESTAMP], MESSAGE_TIMESTAMP),
        (vec![MESSAGE_SIGNATURE], MESSAGE_SIGNATURE),
        (vec![MESSAGE_ID, MESSAGE_SIGNATURE], MESSAGE_ID),
        (vec![MESSAGE_TIMESTAMP, MESSAGE_SIGNATURE], MESSAGE_TIMESTAMP),
        (vec![MESSAGE_ID, MESSAGE_TIMESTAMP, MESSAGE_SIGNATURE], MESSAGE_ID),
    ] {
        let mut headers = full.clone();
        for name in absent {
            headers.remove(name);
        }
        match verify_message(&headers, &body, &secret) {
            Err(HmacVerificationError::MissingHeader(name)) => assert_eq!(name, reported),
            other => panic!("unexpected: {:?}", other),
        }
    }
}

#[test]
fn request_with_malformed_signature_is_invalid() {
    let body = String::from("{}");
    let secret = String::from("s3cr3t");
    for value in ["", "sha256", "sha256=abc", "sha256=xy", "sha256=+f"] {
        let mut headers = signed_headers("1", "t", "{}", "s3cr3t");
        headers.insert(MESSAGE_SIGNATURE, HeaderValue::from_str(value).unwrap());
        assert!(matches!(
            verify_message(&headers, &body, &secret),
            Err(HmacVerificationError::InvalidSignature)
        ));
    }
}

#[test]
fn request_with_another_body_secret_id_or_timestamp_is_a_mismatch() {
    let headers = signed_headers("1", "t", "{}", "s3cr3t");
    let body = String::from("{}");
    let secret = String::from("s3cr3t");
    assert!(verify_message(&headers, &body, &secret).is_ok());
    assert!(matches!(
        verify_message(&headers, &String::from("{ }"), &secret),
        Err(HmacVerificationError::MacError(_))
    ));
    assert!(matches!(
        verify_message(&headers, &body, &String::from("S3cr3t")),
        Err(HmacVerificationError::MacError(_))
    ));
    let mut other_id = headers.clone();
    other_id.insert(MESSAGE_ID, HeaderValue::from_static("2"));
    assert!(matches!(
        verify_message(&other_id, &body, &secret),
        Err(HmacVerificationError::MacError(_))
    ));
    let mut other_time = headers.clone();
    other_time.insert(MESSAGE_TIMESTAMP, HeaderValue::from_static("u"));
    assert!(matches!(
        verify_message(&other_time, &body, &secret),
        Err(HmacVerificationError::MacError(_))
    ));
}

#[test]
fn request_with_short_signature_is_a_mismatch() {
    let mut headers = signed_headers("1", "t", "{}", "s3cr3t");
    headers.insert(MESSAGE_SIGNATURE, HeaderValue::from_static("sha256=00ff"));
    assert!(matches!(
        verify_message(&headers, &String::from("{}"), &String::from("s3cr3t")),
        Err(HmacVerificationError::MacError(_))
    ));
}

#[test]
fn header_names_match_in_any_letter_case() {
    let mut headers = HeaderMap::new();
    for (name, value) in signed_headers("1", "t", "{}", "s3cr3t").iter() {
        let upper = name.as_str().to_uppercase();
        headers.insert(
            axum::http::HeaderName::from_bytes(upper.as_bytes()).unwrap(),
            value.clone(),
        );
    }
    assert!(verify_message(&headers, &String::from("{}"), &String::from("s3cr3t")).is_ok());
}

#[test]
fn failures_are_described_in_words() {
    assert_eq!(
        HmacVerificationError::MissingHeader(String::from(MESSAGE_ID)).to_text(),
        "header twitch-eventsub-message-id missing"
    );
    assert_eq!(
        HmacVerificationError::MacError(MacError).to_text(),
        "macerror: MAC tag mismatch"
    );
    assert_eq!(HmacVerificationError::InvalidSignature.to_text(), "invalid signature in header");
}
