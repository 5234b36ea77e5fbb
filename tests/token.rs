use chrono::Utc;
use rust_kickstart::timestamp::Timestamp;
use rust_kickstart::token::{PaginationToken, TokenError};

fn now() -> Timestamp {
    let t = Utc::now();
    Timestamp::new(t.timestamp(), t.timestamp_subsec_nanos())
}

#[test]
fn test_token_encode_decode() {
    let id = 123;
    let timestamp = now();

    let token = PaginationToken::encode(id, timestamp).unwrap();
    let (decoded_id, decoded_timestamp) = PaginationToken::decode(&token).unwrap();

    assert_eq!(id, decoded_id);
    assert_eq!(timestamp, decoded_timestamp);
}

#[test]
fn test_invalid_token() {
    assert!(PaginationToken::decode("invalid_token").is_err());
    assert!(!PaginationToken::is_valid("invalid_token"));
}

#[test]
fn test_token_validation() {
    let token = PaginationToken::encode(456, now()).unwrap();
    assert!(PaginationToken::is_valid(&token));
}

#[test]
fn malformed_token_is_invalid_token() {
    assert_eq!(PaginationToken::decode("not-base64!!"), Err(TokenError::InvalidToken));
    assert!(!PaginationToken::is_valid("not-base64!!"));
}

#[test]
fn round_trip_at_the_extremes() {
    let cases = [
        (i32::MIN, Timestamp::new(i64::MIN, 0)),
        (i32::MAX, Timestamp::new(i64::MAX, u32::MAX)),
        (0, Timestamp::new(0, 0)),
        (-1, Timestamp::new(-1, 999_999_999)),
        (2, Timestamp::new(1_700_000_000, 123_456_789)),
    ];
    for (id, ts) in cases {
        let token = PaginationToken::encode(id, ts).unwrap();
        assert_eq!(PaginationToken::decode(&token), Ok((id, ts)));
    }
}

#[test]
fn token_is_unpadded_url_safe_text_of_sixteen_bytes() {
    let token = PaginationToken::encode(1, Timestamp::new(2, 3)).unwrap();
    assert_eq!(token.len(), 22);
    assert!(token.chars().all(|c| c.is_ascii_alphanumeric() || c == '-' || c == '_'));
    assert_eq!(token, "AAAAAQAAAAAAAAACAAAAAw");
}

#[test]
fn distinct_cursors_give_distinct_tokens() {
    let a = PaginationToken::encode(1, Timestamp::new(2, 3)).unwrap();
    let b = PaginationToken::encode(1, Timestamp::new(2, 4)).unwrap();
    let c = PaginationToken::encode(2, Timestamp::new(2, 3)).unwrap();
    assert_ne!(a, b);
    assert_ne!(a, c);
}

#[test]
fn padded_or_truncated_tokens_are_invalid() {
    let token = PaginationToken::encode(7, Timestamp::new(8, 9)).unwrap();
    assert!(!PaginationToken::is_valid(&format!("{token}==")));
    assert!(!PaginationToken::is_valid(&token[..token.len() - 1]));
    assert!(!PaginationToken::is_valid(&token[..token.len() - 4]));
    assert!(!PaginationToken::is_valid(""));
    assert!(!PaginationToken::is_valid("AAAA"));
    assert!(!PaginationToken::is_valid("ü"));
}

#[test]
fn token_error_messages() {
    assert_eq!(TokenError::InvalidToken.message(), "Invalid pagination token");
    assert_eq!(
        TokenError::EncodingError("boom".to_string()).message(),
        "Token encoding error: boom"
    );
}

#[test]
fn arbitrary_text_never_panics_and_is_rejected_unless_a_token() {
    let samples = [
        "", "=", "====", "A", "AB", "ABC", "ABCD", "AAAAAQAAAAAAAAACAAAAA", "AAAAAQAAAAAAAAACAAAAAx",
        "AAAAAQAAAAAAAAACAAAAAw=", "AAAAAQAAAAAAAAACAAAAA/", "AAAAAQAAAAAAAAACAAAAA+w", "%%%", "\u{0}",
        "日本語テキスト", "not-base64!!", "eyJpZCI6MSwidGltZXN0YW1wIjoiMjAyNC0wMS0wMVQwMDowMDowMFoifQ",
    ];
    for s in samples {
        match PaginationToken::decode(s) {
            Ok((id, ts)) => assert_eq!(PaginationToken::encode(id, ts).unwrap(), s),
            Err(e) => assert_eq!(e, TokenError::InvalidToken),
        }
    }
}
