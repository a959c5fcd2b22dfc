use billing::text::{parse_i64, push_decimal};
use billing::webhook::{
    constant_time_eq, parse_signature_header, verify_signature, verify_signature_at, SignatureError,
};

fn sign(secret: &str, t: i64, body: &[u8]) -> String {
    let mut payload = format!("{}.", t).into_bytes();
    payload.extend_from_slice(body);
    let key = ring::hmac::Key::new(ring::hmac::HMAC_SHA256, secret.as_bytes());
    hex::encode(ring::hmac::sign(&key, &payload).as_ref())
}

const SECRET: &str = "whsec_test_secret";
const BODY: &[u8] = br#"{"id":"evt_1","type":"invoice.payment_failed"}"#;

#[test]
fn parses_integers_like_from_str() {
    assert_eq!(parse_i64(b"42"), Some(42));
    assert_eq!(parse_i64(b"+42"), Some(42));
    assert_eq!(parse_i64(b"-42"), Some(-42));
    assert_eq!(parse_i64(b"007"), Some(7));
    assert_eq!(parse_i64(b"9223372036854775807"), Some(i64::MAX));
    assert_eq!(parse_i64(b"-9223372036854775808"), Some(i64::MIN));
    assert_eq!(parse_i64(b"9223372036854775808"), None);
    assert_eq!(parse_i64(b"-9223372036854775809"), None);
    assert_eq!(parse_i64(b"99999999999999999999999"), None);
    assert_eq!(parse_i64(b""), None);
    assert_eq!(parse_i64(b"-"), None);
    assert_eq!(parse_i64(b"+"), None);
    assert_eq!(parse_i64(b"1 "), None);
    assert_eq!(parse_i64(b"1x"), None);
    assert_eq!(parse_i64(b"--1"), None);
    for s in ["0", "-0", "123456789", "-5", "abc", "1e3", " 1"] {
        assert_eq!(parse_i64(s.as_bytes()), s.parse::<i64>().ok(), "{}", s);
    }
}

#[test]
fn writes_integers_like_display() {
    for v in [0i64, 7, -7, 1_700_000_000, i64::MAX, i64::MIN] {
        let mut out = b"x".to_vec();
        push_decimal(v, &mut out);
        assert_eq!(out, format!("x{}", v).into_bytes());
        assert_eq!(parse_i64(&out[1..]), Some(v));
    }
}

#[test]
fn reads_header_fields() {
    let h = parse_signature_header(b"t=123,v1=abc,v0=def");
    assert_eq!(h.t, Some(123));
    assert_eq!(h.v1, Some(b"abc".to_vec()));
    let h = parse_signature_header(b"v1=abc");
    assert_eq!(h.t, None);
    let h = parse_signature_header(b"t=1,t=2,v1=a,v1=b");
    assert_eq!(h.t, Some(2));
    assert_eq!(h.v1, Some(b"b".to_vec()));
    let h = parse_signature_header(b"t=1,t=oops,v1=");
    assert_eq!(h.t, None);
    assert_eq!(h.v1, Some(Vec::new()));
    let h = parse_signature_header(b" t=1,,x=2");
    assert_eq!(h.t, None);
    assert_eq!(h.v1, None);
    let h = parse_signature_header(b"");
    assert_eq!((h.t, h.v1), (None, None));
}

#[test]
fn compares_bytes() {
    assert!(constant_time_eq(b"abc", b"abc"));
    assert!(constant_time_eq(b"", b""));
    assert!(!constant_time_eq(b"abc", b"abd"));
    assert!(!constant_time_eq(b"abc", b"ab"));
    assert!(!constant_time_eq(b"\x00", b"\x80"));
}

#[test]
fn accepts_a_fresh_signed_webhook() {
    let t = 1_700_000_000;
    let header = format!("t={},v1={},v0=legacy", t, sign(SECRET, t, BODY));
    assert_eq!(verify_signature_at(BODY, &header, SECRET, t), Ok(()));
    assert_eq!(verify_signature_at(BODY, &header, SECRET, t + 300), Ok(()));
    assert_eq!(verify_signature_at(BODY, &header, SECRET, t - 300), Ok(()));
}

#[test]
fn refuses_stale_or_future_timestamps() {
    let t = 1_700_000_000;
    let header = format!("t={},v1={}", t, sign(SECRET, t, BODY));
    assert_eq!(verify_signature_at(BODY, &header, SECRET, t + 301), Err(SignatureError::TimestampDrift));
    assert_eq!(verify_signature_at(BODY, &header, SECRET, t - 301), Err(SignatureError::TimestampDrift));
    let far = format!("t={},v1=00", i64::MIN);
    assert_eq!(verify_signature_at(BODY, &far, SECRET, i64::MAX), Err(SignatureError::TimestampDrift));
}

#[test]
fn refuses_missing_fields() {
    assert_eq!(verify_signature_at(BODY, "v1=abc", SECRET, 0), Err(SignatureError::MissingTimestamp));
    assert_eq!(verify_signature_at(BODY, "t=abc,v1=abc", SECRET, 0), Err(SignatureError::MissingTimestamp));
    assert_eq!(verify_signature_at(BODY, "t=5", SECRET, 0), Err(SignatureError::MissingSignature));
    assert_eq!(verify_signature_at(BODY, "", SECRET, 0), Err(SignatureError::MissingTimestamp));
}

#[test]
fn refuses_wrong_signatures() {
    let t = 1_700_000_000;
    let good = sign(SECRET, t, BODY);
    let other_secret = format!("t={},v1={}", t, sign("whsec_other", t, BODY));
    assert_eq!(verify_signature_at(BODY, &other_secret, SECRET, t), Err(SignatureError::Mismatch));
    let other_body = format!("t={},v1={}", t, good);
    assert_eq!(verify_signature_at(b"{}", &other_body, SECRET, t), Err(SignatureError::Mismatch));
    let upper = format!("t={},v1={}", t, good.to_uppercase());
    assert_eq!(verify_signature_at(BODY, &upper, SECRET, t), Err(SignatureError::Mismatch));
    let only_v0 = format!("t={},v0={}", t, good);
    assert_eq!(verify_signature_at(BODY, &only_v0, SECRET, t), Err(SignatureError::MissingSignature));
}

#[test]
fn refuses_bodies_that_are_not_utf8() {
    let t = 1_700_000_000;
    let body: &[u8] = &[0x7b, 0xff, 0x7d];
    let header = format!("t={},v1={}", t, sign(SECRET, t, body));
    let r = verify_signature_at(body, &header, SECRET, t);
    assert_eq!(r, Err(SignatureError::InvalidUtf8 { valid_up_to: 1, error_len: Some(1) }));
    assert_eq!(r.unwrap_err().message(), std::str::from_utf8(body).unwrap_err().to_string());
}

#[test]
fn describes_truncated_utf8_like_std() {
    let t = 1_700_000_000;
    for body in [&b"ok \xe2\x82"[..], &b"\xf0\x9f"[..], &b"abc\xc3(def"[..], &b"\xed\xa0\x80"[..]] {
        let header = format!("t={},v1=00", t);
        let err = verify_signature_at(body, &header, SECRET, t).unwrap_err();
        let std_err = std::str::from_utf8(body).unwrap_err();
        assert_eq!(
            err,
            SignatureError::InvalidUtf8 { valid_up_to: std_err.valid_up_to(), error_len: std_err.error_len() }
        );
        assert_eq!(err.message(), std_err.to_string());
    }
    let long = SignatureError::InvalidUtf8 { valid_up_to: 1234567, error_len: Some(3) };
    assert_eq!(long.message(), "invalid utf-8 sequence of 3 bytes from index 1234567");
    let cut = SignatureError::InvalidUtf8 { valid_up_to: 0, error_len: None };
    assert_eq!(cut.message(), "incomplete utf-8 byte sequence from index 0");
}

#[test]
fn verifies_against_the_clock() {
    let now = chrono::Utc::now().timestamp();
    let header = format!("t={},v1={}", now, sign(SECRET, now, BODY));
    assert_eq!(verify_signature(BODY, &header, SECRET), Ok(()));
    let old = now - 3600;
    let stale = format!("t={},v1={}", old, sign(SECRET, old, BODY));
    assert_eq!(verify_signature(BODY, &stale, SECRET), Err(SignatureError::TimestampDrift));
}

#[test]
fn signature_errors_describe_themselves() {
    assert_eq!(SignatureError::MissingTimestamp.message(), "no t= in signature");
    assert_eq!(SignatureError::MissingSignature.message(), "no v1= in signature");
    assert_eq!(SignatureError::TimestampDrift.message(), "signature timestamp drift > 5 min");
    assert_eq!(SignatureError::Mismatch.message(), "signature mismatch");
    assert_eq!(SignatureError::ClockBeforeEpoch.message(), "system time before Unix epoch");
}
