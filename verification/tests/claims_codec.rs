use risk_auth::claims::{check, decode, encode, open, payload_bytes, read_claims, seal, Claims, DecodeError, EncodeError};

fn sample() -> Claims {
    Claims {
        user_id: 1,
        username: "bob".to_string(),
        access_token: "access-123".to_string(),
        refresh_token: Some("refresh-456".to_string()),
        expires_at: 1_700_000_000,
    }
}

#[test]
fn round_trip_before_expiry() {
    let key = b"a signing key";
    let token = encode(&sample(), key).unwrap();
    assert_eq!(decode(&token, key, 1_699_999_999), Ok(sample()));
    assert_eq!(decode(&token, key, 1_700_000_000), Ok(sample()));
}

#[test]
fn expired_after_expiry() {
    let key = b"a signing key";
    let token = encode(&sample(), key).unwrap();
    assert_eq!(decode(&token, key, 1_700_000_001), Err(DecodeError::Expired));
}

#[test]
fn other_key_is_invalid() {
    let token = encode(&sample(), b"a signing key").unwrap();
    assert_eq!(decode(&token, b"another key", 0), Err(DecodeError::Invalid));
    assert_eq!(decode(&token, b"another key", u64::MAX), Err(DecodeError::Invalid));
}

#[test]
fn tag_is_hmac_sha256() {
    let claims = Claims {
        user_id: 0,
        username: String::new(),
        access_token: String::new(),
        refresh_token: None,
        expires_at: 0,
    };
    let token = encode(&claims, b"Jefe").unwrap();
    assert_eq!(
        token,
        "0000000000000000000000000000000000.\
         ea18c313609af6c1e1e69898dbdddc754bafc019092bb0f038d3314b543c029d"
    );
    let (payload, tag) = open(&token).unwrap();
    assert_eq!(payload, vec![0u8; 17]);
    assert_eq!(tag.len(), 32);
    let other = encode(&claims, b"Jefe2").unwrap();
    assert_ne!(token, other);
}

#[test]
fn payload_layout_is_exact() {
    let claims = Claims {
        user_id: -2,
        username: "ab".to_string(),
        access_token: "c".to_string(),
        refresh_token: Some("d".to_string()),
        expires_at: 258,
    };
    let bytes = payload_bytes(&claims).unwrap();
    assert_eq!(
        bytes,
        vec![
            0xff, 0xff, 0xff, 0xfe, 0, 0, 0, 0, 0, 0, 1, 2, 0, 2, b'a', b'b', 0, 1, b'c', 1, 0, 1,
            b'd'
        ]
    );
    assert_eq!(read_claims(&bytes), Some(claims));
    assert_eq!(seal(&[0x0f, 0xa0], &[0x01]), "0fa0.01");
    assert_eq!(open("0fa0.01"), Some((vec![0x0f, 0xa0], vec![0x01])));
}

#[test]
fn malformed_tokens_are_invalid() {
    let key = b"k";
    for token in ["", ".", "zz.00", "0fa0", "0FA0.01", "0fa.01", "00.01.02", "é.00"] {
        assert_eq!(decode(token, key, 0), Err(DecodeError::Invalid), "{}", token);
    }
    assert_eq!(open("."), Some((vec![], vec![])));
    assert_eq!(open("0FA0.01"), None);
}

#[test]
fn trailing_bytes_are_rejected() {
    let mut bytes = payload_bytes(&sample()).unwrap();
    bytes.push(0);
    assert_eq!(read_claims(&bytes), None);
    assert_eq!(check(&bytes, &[1], &[1], 0), Err(DecodeError::Invalid));
}

#[test]
fn check_orders_its_tests() {
    let bytes = payload_bytes(&sample()).unwrap();
    assert_eq!(check(&bytes, &[1, 2], &[1, 2], 1_700_000_000), Ok(sample()));
    assert_eq!(check(&bytes, &[1, 2], &[1, 2], 1_700_000_001), Err(DecodeError::Expired));
    assert_eq!(check(&bytes, &[1, 2], &[1, 3], 1_700_000_001), Err(DecodeError::Invalid));
    assert_eq!(check(&bytes, &[1, 2], &[1, 2, 3], 0), Err(DecodeError::Invalid));
}

#[test]
fn long_field_is_refused() {
    let mut claims = sample();
    claims.access_token = "x".repeat(65536);
    assert_eq!(encode(&claims, b"k"), Err(EncodeError::FieldTooLong));
    claims.access_token = "x".repeat(65535);
    let token = encode(&claims, b"k").unwrap();
    assert_eq!(decode(&token, b"k", 0), Ok(claims));
}

#[test]
fn key_padded_with_zero_gives_the_same_tag() {
    let token = encode(&sample(), b"short").unwrap();
    assert_eq!(decode(&token, b"short\0", 0), Ok(sample()));
}
