//! The few calls that leave the verified code: HMAC-SHA256 (`ring`), lowercase
//! hex encoding (`hex`), UTF-8 validation and the system clock (std), and
//! the range of dates `chrono` can represent.
//! Each is a thin wrapper whose contract states what the called function does.

use vstd::prelude::*;

verus! {

/// The largest input, in bytes, that the SHA-256 based HMAC accepts for its key
/// and its message (the hash's bit length must fit in 64 bits, counting the
/// 64-byte padded key block that precedes the message).
pub const HMAC_INPUT_LIMIT: u64 = 0x1FFF_FFFF_FFFF_FF00;

/// The HMAC-SHA256 tag of `message` under `key`, as RFC 2104 defines it.
pub uninterp spec fn hmac_sha256(key: Seq<u8>, message: Seq<u8>) -> Seq<u8>;

/// Calls `ring::hmac::Key::new(ring::hmac::HMAC_SHA256, key)` and
/// `ring::hmac::sign`. The contract claims that the tag is the HMAC-SHA256 of
/// the message under the key (a function of the two alone), 32 bytes long.
/// Both calls panic only on inputs longer than the hash can count, which the
/// `requires` leaves out.
#[verifier::external_body]
pub(crate) fn sign_hmac_sha256(key: &[u8], message: &[u8]) -> (tag: Vec<u8>)
    requires
        key@.len() <= HMAC_INPUT_LIMIT,
        message@.len() <= HMAC_INPUT_LIMIT,
    ensures
        tag@ == hmac_sha256(key@, message@),
        tag@.len() == 32,
{
    let k = ring::hmac::Key::new(ring::hmac::HMAC_SHA256, key);
    ring::hmac::sign(&k, message).as_ref().to_vec()
}

/// The lowercase hexadecimal digit for a value below 16.
pub open spec fn hex_digit(n: int) -> u8 {
    if n < 10 {
        (48 + n) as u8
    } else {
        (87 + n) as u8
    }
}

/// Lowercase hexadecimal encoding: two digits per byte, high nibble first.
pub open spec fn hex_lower(data: Seq<u8>) -> Seq<u8>
    decreases data.len(),
{
    if data.len() == 0 {
        seq![]
    } else {
        seq![hex_digit((data[0] / 16) as int), hex_digit((data[0] % 16) as int)] + hex_lower(data.drop_first())
    }
}

/// Calls `hex::encode` and takes the bytes of the resulting `String`. The
/// contract claims the documented output: each byte becomes two lowercase
/// hexadecimal digits, high nibble first (the crate's `HEX_CHARS_LOWER` table).
#[verifier::external_body]
pub(crate) fn hex_encode(data: &[u8]) -> (text: Vec<u8>)
    ensures
        text@ == hex_lower(data@),
{
    hex::encode(data).into_bytes()
}

/// `v` is the length of the longest prefix of `bytes` that is well-formed
/// UTF-8 (as vstd's `valid_utf8` defines it: no overlong forms, no
/// surrogates, nothing above U+10FFFF).
pub open spec fn is_valid_up_to(bytes: Seq<u8>, v: int) -> bool {
    &&& 0 <= v <= bytes.len()
    &&& vstd::utf8::valid_utf8(bytes.take(v))
    &&& forall|j: int| v < j <= bytes.len() ==> !vstd::utf8::valid_utf8(#[trigger] bytes.take(j))
}

/// What `Utf8Error::error_len` reports for ill-formed `bytes`: the length of
/// the invalid sequence at the end of the valid prefix, or none where the
/// input ends in the middle of a sequence.
pub uninterp spec fn utf8_error_len(bytes: Seq<u8>) -> Option<usize>;

/// Calls `std::str::from_utf8`. On success it gives `None`; on failure it
/// gives the error's `valid_up_to()` and `error_len()`. The contract claims
/// that it fails exactly on ill-formed UTF-8, and that `valid_up_to` is, as
/// documented, the largest index up to which the input is well-formed; of
/// `error_len` it claims only that it is a function of the input.
#[verifier::external_body]
pub(crate) fn utf8_error(bytes: &[u8]) -> (r: Option<(usize, Option<usize>)>)
    ensures
        r is None <==> vstd::utf8::valid_utf8(bytes@),
        r matches Some((v, l)) ==> is_valid_up_to(bytes@, v as int) && l == utf8_error_len(bytes@),
{
    match std::str::from_utf8(bytes) {
        Ok(_) => None,
        Err(e) => Some((e.valid_up_to(), e.error_len())),
    }
}

#[verifier::external_type_specification]
#[verifier::external_body]
pub struct ExSystemTime(std::time::SystemTime);

/// Calls `std::time::SystemTime::now()`. Nothing is stated of the result; it
/// is whatever the system clock reads.
#[verifier::external_body]
pub(crate) fn system_now() -> (t: std::time::SystemTime) {
    std::time::SystemTime::now()
}

/// Calls `SystemTime::duration_since(UNIX_EPOCH)`: the time elapsed since the
/// Unix epoch, or `None` when `t` lies before it. It does not panic. Nothing
/// is stated of the duration.
#[verifier::external_body]
pub(crate) fn duration_since_epoch(t: &std::time::SystemTime) -> (d: Option<std::time::Duration>) {
    match t.duration_since(std::time::UNIX_EPOCH) {
        Ok(d) => Some(d),
        Err(_) => None,
    }
}

/// Calls `Duration::as_secs`: the whole seconds of a duration. Nothing is
/// stated of the result; the duration is opaque here.
#[verifier::external_body]
pub(crate) fn whole_seconds(d: &std::time::Duration) -> (secs: u64) {
    d.as_secs()
}

/// Whether `chrono` can represent a Unix time of `secs` seconds as a UTC
/// date and time.
pub uninterp spec fn chrono_timestamp_in_range(secs: i64) -> bool;

/// Calls `chrono::Utc.timestamp_opt(secs, 0)` and reports whether it gave a
/// single date and time (it gives none for a number of seconds outside
/// chrono's range of dates). The contract names the answer, which depends on
/// `secs` alone; the range itself is not stated.
#[verifier::external_body]
pub(crate) fn timestamp_in_range(secs: i64) -> (ok: bool)
    ensures
        ok == chrono_timestamp_in_range(secs),
{
    match chrono::TimeZone::timestamp_opt(&chrono::Utc, secs, 0) {
        chrono::LocalResult::Single(_) => true,
        chrono::LocalResult::Ambiguous(_, _) => false,
        chrono::LocalResult::None => false,
    }
}

} // verus!
