//! Stripe webhook signature verification and event handling.
//!
//! Stripe signs every webhook with a timestamp-based HMAC-SHA256 scheme:
//!
//!     Stripe-Signature: t=<unix>,v1=<hex-sha256>,v0=<legacy>
//!
//! The signed payload is `<t>.<raw-body>`. The `v1` signature is checked
//! against the webhook secret (it starts with `whsec_`).

use vstd::prelude::*;
use vstd::string::StringSliceAdditionalSpecFns;
use crate::primitives::{
    duration_since_epoch, hex_encode, hex_lower, hmac_sha256, is_valid_up_to, sign_hmac_sha256, system_now,
    utf8_error, utf8_error_len, whole_seconds, HMAC_INPUT_LIMIT, chrono_timestamp_in_range, timestamp_in_range,
};
use crate::plans::{tier_name, PlanTier, PriceConfig};
use crate::stripe::{subscription_tier, tier_of_subscription, SubscriptionApiResp};
use vstd::string::StringExecFns;
use crate::text::{
    append_decimal, decimal, decimal_chars, lemma_decimal_digits, lemma_decimal_len, lemma_parse_decimal,
    parse_i64, parse_i64_spec, push_decimal, str_eq,
};

verus! {

/// How far, in seconds, a signature's timestamp may lie from the current time.
pub const SIGNATURE_TOLERANCE_SECS: i64 = 300;

/// Splits at every comma and keeps empty pieces, as `str::split(',')` does.
pub open spec fn split_commas(s: Seq<u8>) -> Seq<Seq<u8>>
    decreases s.len(),
{
    if s.len() == 0 {
        seq![Seq::empty()]
    } else {
        let prev = split_commas(s.drop_last());
        if s.last() == 44u8 {
            prev.push(Seq::empty())
        } else {
            prev.update(prev.len() - 1, prev.last().push(s.last()))
        }
    }
}

pub proof fn lemma_split_commas_nonempty(s: Seq<u8>)
    ensures
        split_commas(s).len() >= 1,
    decreases s.len(),
{
    if s.len() > 0 {
        lemma_split_commas_nonempty(s.drop_last());
    }
}

pub open spec fn has_prefix(s: Seq<u8>, p: Seq<u8>) -> bool {
    p.len() <= s.len() && s.take(p.len() as int) == p
}

/// `t=`
pub open spec fn timestamp_prefix() -> Seq<u8> {
    seq![116u8, 61u8]
}

/// `v1=`
pub open spec fn v1_prefix() -> Seq<u8> {
    seq![118u8, 49u8, 61u8]
}

/// What one piece of the header does to the fields read so far: `t=` sets
/// the timestamp (to nothing when the rest is not an `i64`), `v1=` sets the
/// signature, anything else is ignored.
pub open spec fn apply_piece(acc: (Option<i64>, Option<Seq<u8>>), piece: Seq<u8>) -> (
    Option<i64>,
    Option<Seq<u8>>,
) {
    if has_prefix(piece, timestamp_prefix()) {
        (parse_i64_spec(piece.skip(2)), acc.1)
    } else if has_prefix(piece, v1_prefix()) {
        (acc.0, Some(piece.skip(3)))
    } else {
        acc
    }
}

pub open spec fn scan_pieces(pieces: Seq<Seq<u8>>) -> (Option<i64>, Option<Seq<u8>>)
    decreases pieces.len(),
{
    if pieces.len() == 0 {
        (None, None)
    } else {
        apply_piece(scan_pieces(pieces.drop_last()), pieces.last())
    }
}

/// The timestamp and `v1` signature that a `Stripe-Signature` header carries;
/// where a field occurs more than once, its last occurrence counts.
pub open spec fn header_fields(header: Seq<u8>) -> (Option<i64>, Option<Seq<u8>>) {
    scan_pieces(split_commas(header))
}

/// The fields read from a `Stripe-Signature` header.
pub struct SignatureHeader {
    pub t: Option<i64>,
    pub v1: Option<Vec<u8>>,
}

impl SignatureHeader {
    pub open spec fn fields(self) -> (Option<i64>, Option<Seq<u8>>) {
        (
            self.t,
            match self.v1 {
                Some(v) => Some(v@),
                None => None,
            },
        )
    }
}

fn apply_piece_to(piece: &[u8], fields: &mut SignatureHeader)
    ensures
        final(fields).fields() == apply_piece(old(fields).fields(), piece@),
{
    let n = piece.len();
    if n >= 2 && piece[0] == 116u8 && piece[1] == 61u8 {
        assert(piece@.take(2) =~= timestamp_prefix());
        let rest = vstd::slice::slice_subrange(piece, 2, n);
        assert(rest@ =~= piece@.skip(2));
        fields.t = parse_i64(rest);
    } else if n >= 3 && piece[0] == 118u8 && piece[1] == 49u8 && piece[2] == 61u8 {
        assert(piece@.take(3) =~= v1_prefix());
        assert(!has_prefix(piece@, timestamp_prefix())) by {
            if n >= 2 {
                assert(piece@.take(2)[0] == piece@[0]);
            }
        }
        let rest = vstd::slice::slice_subrange(piece, 3, n);
        assert(rest@ =~= piece@.skip(3));
        fields.v1 = Some(vstd::slice::slice_to_vec(rest));
    } else {
        assert(!has_prefix(piece@, timestamp_prefix())) by {
            if n >= 2 && piece@.take(2) == timestamp_prefix() {
                assert(piece@.take(2)[0] == piece@[0]);
                assert(piece@.take(2)[1] == piece@[1]);
            }
        }
        assert(!has_prefix(piece@, v1_prefix())) by {
            if n >= 3 && piece@.take(3) == v1_prefix() {
                assert(piece@.take(3)[0] == piece@[0]);
                assert(piece@.take(3)[1] == piece@[1]);
                assert(piece@.take(3)[2] == piece@[2]);
            }
        }
    }
}

/// Reads the timestamp and `v1` signature from the bytes of a
/// `Stripe-Signature` header.
pub fn parse_signature_header(header: &[u8]) -> (h: SignatureHeader)
    ensures
        h.fields() == header_fields(header@),
{
    let mut fields = SignatureHeader { t: None, v1: None };
    let mut start: usize = 0;
    let mut i: usize = 0;
    assert(header@.take(0) =~= Seq::<u8>::empty());
    while i < header.len()
        invariant
            start <= i <= header@.len(),
            split_commas(header@.take(i as int)).len() >= 1,
            split_commas(header@.take(i as int)).last() == header@.subrange(start as int, i as int),
            fields.fields() == scan_pieces(split_commas(header@.take(i as int)).drop_last()),
        decreases header@.len() - i,
    {
        let ghost prev = split_commas(header@.take(i as int));
        assert(header@.take(i + 1).drop_last() =~= header@.take(i as int));
        assert(header@.take(i + 1).last() == header@[i as int]);
        let ghost next = split_commas(header@.take(i + 1));
        if header[i] == 44u8 {
            let piece = vstd::slice::slice_subrange(header, start, i);
            apply_piece_to(piece, &mut fields);
            assert(next == prev.push(Seq::empty()));
            assert(next.drop_last() =~= prev);
            assert(scan_pieces(prev) == apply_piece(scan_pieces(prev.drop_last()), prev.last()));
            assert(header@.subrange(i + 1, i + 1) =~= Seq::<u8>::empty());
            start = i + 1;
        } else {
            assert(next == prev.update(prev.len() - 1, prev.last().push(header@[i as int])));
            assert(next.drop_last() =~= prev.drop_last());
            assert(header@.subrange(start as int, i + 1) =~= prev.last().push(header@[i as int]));
        }
        i = i + 1;
    }
    assert(header@.take(header@.len() as int) =~= header@);
    let ghost all = split_commas(header@);
    let piece = vstd::slice::slice_subrange(header, start, header.len());
    apply_piece_to(piece, &mut fields);
    assert(scan_pieces(all) == apply_piece(scan_pieces(all.drop_last()), all.last()));
    fields
}

/// Byte-wise comparison of two slices that looks at every byte of equally
/// long inputs, whatever they hold.
pub fn constant_time_eq(a: &[u8], b: &[u8]) -> (r: bool)
    ensures
        r == (a@ == b@),
{
    if a.len() != b.len() {
        return false;
    }
    let mut diff: u8 = 0;
    let mut i: usize = 0;
    while i < a.len()
        invariant
            a@.len() == b@.len(),
            i <= a@.len(),
            (diff == 0) == (forall|j: int| 0 <= j < i ==> a@[j] == b@[j]),
        decreases a@.len() - i,
    {
        let x = a[i];
        let y = b[i];
        assert((diff | (x ^ y)) == 0u8 <==> (diff == 0u8 && x == y)) by (bit_vector);
        diff = diff | (x ^ y);
        i = i + 1;
    }
    if diff == 0 {
        assert(a@ =~= b@);
    }
    diff == 0
}

/// Why a webhook signature was refused.
#[derive(Debug, Clone, Copy, PartialEq, Eq, Structural)]
pub enum SignatureError {
    /// The header has no usable `t=` timestamp.
    MissingTimestamp,
    /// The header has no `v1=` signature.
    MissingSignature,
    /// The system clock reads before the Unix epoch, so no timestamp can be judged.
    ClockBeforeEpoch,
    /// The timestamp lies more than five minutes from the current time.
    TimestampDrift,
    /// The body is not UTF-8: it is well-formed up to `valid_up_to`, and the
    /// invalid sequence there is `error_len` bytes long (none where the body
    /// ends in the middle of a sequence).
    InvalidUtf8 { valid_up_to: usize, error_len: Option<usize> },
    /// The `v1` signature is not the one the secret gives.
    Mismatch,
}

/// The description of a refusal, as it is logged.
pub open spec fn error_message(e: SignatureError) -> Seq<char> {
    match e {
        SignatureError::MissingTimestamp => "no t= in signature"@,
        SignatureError::MissingSignature => "no v1= in signature"@,
        SignatureError::ClockBeforeEpoch => "system time before Unix epoch"@,
        SignatureError::TimestampDrift => "signature timestamp drift > 5 min"@,
        SignatureError::InvalidUtf8 { valid_up_to, error_len } => match error_len {
            Some(n) => "invalid utf-8 sequence of "@ + decimal_chars(n as nat) + " bytes from index "@
                + decimal_chars(valid_up_to as nat),
            None => "incomplete utf-8 byte sequence from index "@ + decimal_chars(valid_up_to as nat),
        },
        SignatureError::Mismatch => "signature mismatch"@,
    }
}

impl SignatureError {
    /// A human-readable description, for logs.
    pub fn message(&self) -> (m: String)
        ensures
            m@ == error_message(*self),
    {
        match self {
            SignatureError::MissingTimestamp => String::from_str("no t= in signature"),
            SignatureError::MissingSignature => String::from_str("no v1= in signature"),
            SignatureError::ClockBeforeEpoch => String::from_str("system time before Unix epoch"),
            SignatureError::TimestampDrift => String::from_str("signature timestamp drift > 5 min"),
            SignatureError::InvalidUtf8 { valid_up_to, error_len } => {
                let mut m = match error_len {
                    Some(n) => {
                        let mut m = String::from_str("invalid utf-8 sequence of ");
                        append_decimal(&mut m, *n as u64);
                        m.append(" bytes from index ");
                        m
                    },
                    None => String::from_str("incomplete utf-8 byte sequence from index "),
                };
                append_decimal(&mut m, *valid_up_to as u64);
                m
            },
            SignatureError::Mismatch => String::from_str("signature mismatch"),
        }
    }
}

/// The length of the longest well-formed UTF-8 prefix of `bytes`.
pub open spec fn valid_up_to(bytes: Seq<u8>) -> int {
    choose|v: int| is_valid_up_to(bytes, v)
}

proof fn lemma_valid_up_to_unique(bytes: Seq<u8>, v: int)
    requires
        is_valid_up_to(bytes, v),
    ensures
        valid_up_to(bytes) == v,
{
    let w = valid_up_to(bytes);
    assert(is_valid_up_to(bytes, w));
    if w < v {
        assert(!vstd::utf8::valid_utf8(bytes.take(v)));
    } else if v < w {
        assert(!vstd::utf8::valid_utf8(bytes.take(w)));
    }
}

/// The payload Stripe signs: the timestamp in decimal, a dot, then the body.
pub open spec fn signed_payload(t: i64, body: Seq<u8>) -> Seq<u8> {
    decimal(t as int) + seq![46u8] + body
}

/// The `v1` signature the secret gives for a timestamp and body.
pub open spec fn expected_signature(secret: Seq<u8>, t: i64, body: Seq<u8>) -> Seq<u8> {
    hex_lower(hmac_sha256(secret, signed_payload(t, body)))
}

/// The timestamp lies within five minutes of `now`, either way.
pub open spec fn within_tolerance(t: i64, now: i64) -> bool {
    -300 <= now - t <= 300
}

/// The verdict on a webhook: its raw body, the bytes of its `Stripe-Signature`
/// header, the bytes of the webhook secret, and the current Unix time.
pub open spec fn signature_outcome(body: Seq<u8>, header: Seq<u8>, secret: Seq<u8>, now: i64) -> Result<
    (),
    SignatureError,
> {
    let fields = header_fields(header);
    match fields.0 {
        None => Err(SignatureError::MissingTimestamp),
        Some(t) => match fields.1 {
            None => Err(SignatureError::MissingSignature),
            Some(v1) => if !within_tolerance(t, now) {
                Err(SignatureError::TimestampDrift)
            } else if !vstd::utf8::valid_utf8(body) {
                Err(
                    SignatureError::InvalidUtf8 {
                        valid_up_to: valid_up_to(body) as usize,
                        error_len: utf8_error_len(body),
                    },
                )
            } else if expected_signature(secret, t, body) != v1 {
                Err(SignatureError::Mismatch)
            } else {
                Ok(())
            },
        },
    }
}

/// Appends every byte of `src`.
fn push_all(out: &mut Vec<u8>, src: &[u8])
    ensures
        final(out)@ == old(out)@ + src@,
{
    let mut i: usize = 0;
    while i < src.len()
        invariant
            i <= src@.len(),
            out@ == old(out)@ + src@.take(i as int),
        decreases src@.len() - i,
    {
        out.push(src[i]);
        i = i + 1;
        assert(out@ =~= old(out)@ + src@.take(i as int));
    }
    assert(src@.take(src@.len() as int) =~= src@);
}

/// Verifies a webhook signature against the given current time.
pub fn verify_signature_at(raw_body: &[u8], signature_header: &str, secret: &str, now: i64) -> (r:
    Result<(), SignatureError>)
    requires
        raw_body@.len() + 21 <= HMAC_INPUT_LIMIT,
        secret.spec_bytes().len() <= HMAC_INPUT_LIMIT,
    ensures
        r == signature_outcome(raw_body@, signature_header.spec_bytes(), secret.spec_bytes(), now),
{
    let fields = parse_signature_header(signature_header.as_bytes());
    let t = match fields.t {
        Some(t) => t,
        None => {
            return Err(SignatureError::MissingTimestamp);
        },
    };
    let v1 = match fields.v1 {
        Some(v) => v,
        None => {
            return Err(SignatureError::MissingSignature);
        },
    };
    let drift: i128 = now as i128 - t as i128;
    if drift > 300 || drift < -300 {
        return Err(SignatureError::TimestampDrift);
    }
    match utf8_error(raw_body) {
        Some((v, l)) => {
            proof {
                lemma_valid_up_to_unique(raw_body@, v as int);
            }
            return Err(SignatureError::InvalidUtf8 { valid_up_to: v, error_len: l });
        },
        None => {},
    }
    let mut payload: Vec<u8> = Vec::new();
    push_decimal(t, &mut payload);
    payload.push(46u8);
    push_all(&mut payload, raw_body);
    proof {
        lemma_decimal_len(t);
        assert(payload@ =~= signed_payload(t, raw_body@));
    }
    let tag = sign_hmac_sha256(secret.as_bytes(), payload.as_slice());
    let expected = hex_encode(tag.as_slice());
    if !constant_time_eq(expected.as_slice(), v1.as_slice()) {
        return Err(SignatureError::Mismatch);
    }
    Ok(())
}

/// The verdict on a webhook when the clock reads `clock` seconds since the
/// Unix epoch, or nothing when it reads before the epoch: then a header
/// without a timestamp or signature is refused for that, and any other call
/// because the clock cannot judge its timestamp.
pub open spec fn clock_outcome(body: Seq<u8>, header: Seq<u8>, secret: Seq<u8>, clock: Option<i64>) -> Result<
    (),
    SignatureError,
> {
    match clock {
        Some(now) => signature_outcome(body, header, secret, now),
        None => match header_fields(header) {
            (None, _) => Err(SignatureError::MissingTimestamp),
            (Some(_), None) => Err(SignatureError::MissingSignature),
            _ => Err(SignatureError::ClockBeforeEpoch),
        },
    }
}

/// The system clock in whole seconds since the Unix epoch (at most
/// `i64::MAX`), or nothing when it reads before the epoch.
fn current_unix_time() -> (t: Option<i64>) {
    let now = system_now();
    match duration_since_epoch(&now) {
        Some(d) => {
            let secs = whole_seconds(&d);
            if secs > 0x7fff_ffff_ffff_ffffu64 {
                Some(i64::MAX)
            } else {
                Some(secs as i64)
            }
        },
        None => None,
    }
}

/// Verifies a Stripe webhook signature, refusing a timestamp more than five
/// minutes from the current time. It does not panic, whatever the clock reads.
pub fn verify_signature(raw_body: &[u8], signature_header: &str, secret: &str) -> (r: Result<
    (),
    SignatureError,
>)
    requires
        raw_body@.len() + 21 <= HMAC_INPUT_LIMIT,
        secret.spec_bytes().len() <= HMAC_INPUT_LIMIT,
    ensures
        exists|clock: Option<i64>|
            r == clock_outcome(raw_body@, signature_header.spec_bytes(), secret.spec_bytes(), clock),
{
    let clock = current_unix_time();
    let r = match clock {
        Some(now) => verify_signature_at(raw_body, signature_header, secret, now),
        None => {
            let fields = parse_signature_header(signature_header.as_bytes());
            if fields.t.is_none() {
                Err(SignatureError::MissingTimestamp)
            } else if fields.v1.is_none() {
                Err(SignatureError::MissingSignature)
            } else {
                Err(SignatureError::ClockBeforeEpoch)
            }
        },
    };
    assert(r == clock_outcome(raw_body@, signature_header.spec_bytes(), secret.spec_bytes(), clock));
    r
}

/// The bytes hold no comma.
pub open spec fn comma_free(s: Seq<u8>) -> bool {
    forall|i: int| 0 <= i < s.len() ==> #[trigger] s[i] != 44u8
}

proof fn lemma_split_comma_free(s: Seq<u8>)
    requires
        comma_free(s),
    ensures
        split_commas(s) == seq![s],
    decreases s.len(),
{
    if s.len() > 0 {
        assert(comma_free(s.drop_last()));
        lemma_split_comma_free(s.drop_last());
        assert(s.drop_last().push(s.last()) =~= s);
        assert(split_commas(s) =~= seq![s]);
    } else {
        assert(s =~= Seq::<u8>::empty());
    }
}

proof fn lemma_split_at_comma(s: Seq<u8>, u: Seq<u8>)
    ensures
        split_commas(s + seq![44u8] + u) == split_commas(s) + split_commas(u),
    decreases u.len(),
{
    let w = s + seq![44u8] + u;
    lemma_split_commas_nonempty(s);
    if u.len() == 0 {
        assert(w.drop_last() =~= s);
        assert(split_commas(w) =~= split_commas(s) + split_commas(u));
    } else {
        lemma_split_at_comma(s, u.drop_last());
        lemma_split_commas_nonempty(u.drop_last());
        assert(w.drop_last() =~= s + seq![44u8] + u.drop_last());
        assert(w.last() == u.last());
        let a = split_commas(s);
        let b = split_commas(u.drop_last());
        if u.last() == 44u8 {
            assert(split_commas(w) =~= split_commas(s) + split_commas(u));
        } else {
            assert((a + b).update((a + b).len() - 1, (a + b).last().push(u.last())) =~= a + b.update(
                b.len() - 1,
                b.last().push(u.last()),
            ));
            assert(split_commas(w) =~= split_commas(s) + split_commas(u));
        }
    }
}

/// The header Stripe sends: `t=<timestamp>,v1=<signature>,v0=<legacy>`.
pub open spec fn stripe_header(t: i64, v1: Seq<u8>, legacy: Seq<u8>) -> Seq<u8> {
    timestamp_prefix() + decimal(t as int) + seq![44u8] + v1_prefix() + v1 + seq![44u8] + seq![
        118u8,
        48u8,
        61u8,
    ] + legacy
}

proof fn lemma_hex_lower_comma_free(data: Seq<u8>)
    ensures
        comma_free(hex_lower(data)),
    decreases data.len(),
{
    if data.len() > 0 {
        lemma_hex_lower_comma_free(data.drop_first());
        let h = hex_lower(data);
        let d0 = crate::primitives::hex_digit((data[0] / 16) as int);
        let d1 = crate::primitives::hex_digit((data[0] % 16) as int);
        assert(h =~= seq![d0, d1] + hex_lower(data.drop_first()));
        assert forall|i: int| 0 <= i < h.len() implies #[trigger] h[i] != 44u8 by {
            if i >= 2 {
                assert(h[i] == hex_lower(data.drop_first())[i - 2]);
            }
        }
    }
}

proof fn lemma_decimal_comma_free(t: i64)
    ensures
        comma_free(decimal(t as int)),
{
    lemma_decimal_digits(t);
}

/// A webhook that carries, in the header format Stripe sends, the `v1`
/// signature that the secret gives for its body, with a timestamp within five
/// minutes of the current time, is accepted (its body being UTF-8).
pub proof fn lemma_signed_webhook_accepted(
    body: Seq<u8>,
    secret: Seq<u8>,
    t: i64,
    now: i64,
    legacy: Seq<u8>,
)
    requires
        within_tolerance(t, now),
        vstd::utf8::valid_utf8(body),
        comma_free(legacy),
    ensures
        signature_outcome(body, stripe_header(t, expected_signature(secret, t, body), legacy), secret, now)
            == Ok::<(), SignatureError>(()),
{
    let sig = expected_signature(secret, t, body);
    let a = timestamp_prefix() + decimal(t as int);
    let b = v1_prefix() + sig;
    let c = seq![118u8, 48u8, 61u8] + legacy;
    lemma_decimal_comma_free(t);
    lemma_hex_lower_comma_free(hmac_sha256(secret, signed_payload(t, body)));
    assert(comma_free(a)) by {
        assert forall|i: int| 0 <= i < a.len() implies #[trigger] a[i] != 44u8 by {
            if i >= 2 {
                assert(a[i] == decimal(t as int)[i - 2]);
            }
        }
    }
    assert(comma_free(b)) by {
        assert forall|i: int| 0 <= i < b.len() implies #[trigger] b[i] != 44u8 by {
            if i >= 3 {
                assert(b[i] == sig[i - 3]);
            }
        }
    }
    assert(comma_free(c)) by {
        assert forall|i: int| 0 <= i < c.len() implies #[trigger] c[i] != 44u8 by {
            if i >= 3 {
                assert(c[i] == legacy[i - 3]);
            }
        }
    }
    let header = stripe_header(t, sig, legacy);
    assert(header =~= a + seq![44u8] + (b + seq![44u8] + c));
    lemma_split_at_comma(a, b + seq![44u8] + c);
    lemma_split_at_comma(b, c);
    lemma_split_comma_free(a);
    lemma_split_comma_free(b);
    lemma_split_comma_free(c);
    let pieces = split_commas(header);
    assert(pieces =~= seq![a, b, c]);
    assert(pieces.drop_last() =~= seq![a, b]);
    assert(pieces.drop_last().drop_last() =~= seq![a]);
    assert(pieces.drop_last().drop_last().drop_last() =~= Seq::<Seq<u8>>::empty());
    assert(a.take(2) =~= timestamp_prefix());
    assert(a.skip(2) =~= decimal(t as int));
    lemma_parse_decimal(t);
    assert(b.take(2)[0] == 118u8);
    assert(!has_prefix(b, timestamp_prefix()));
    assert(b.take(3) =~= v1_prefix());
    assert(b.skip(3) =~= sig);
    assert(c.take(2)[0] == 118u8);
    assert(!has_prefix(c, timestamp_prefix()));
    assert(c.take(3)[1] == 48u8);
    assert(!has_prefix(c, v1_prefix()));
    assert(scan_pieces(seq![a]) == (Some(t), None::<Seq<u8>>)) by {
        assert(seq![a].drop_last() =~= Seq::<Seq<u8>>::empty());
        assert(scan_pieces(Seq::<Seq<u8>>::empty()) == (None::<i64>, None::<Seq<u8>>));
        assert(has_prefix(a, timestamp_prefix()));
        assert(parse_i64_spec(a.skip(2)) == Some(t));
        assert(apply_piece((None::<i64>, None::<Seq<u8>>), a) == (Some(t), None::<Seq<u8>>));
    }
    assert(scan_pieces(seq![a, b]) == (Some(t), Some(sig))) by {
        assert(seq![a, b].drop_last() =~= seq![a]);
    }
    assert(scan_pieces(seq![a, b, c]) == (Some(t), Some(sig))) by {
        assert(seq![a, b, c].drop_last() =~= seq![a, b]);
    }
    assert(header_fields(header) == (Some(t), Some(sig)));
}

/// An accepted webhook carries a timestamp within five minutes of the current
/// time and the `v1` signature that the secret gives for that timestamp and
/// its body, and its body is UTF-8.
pub proof fn lemma_accepted_webhook_is_signed(body: Seq<u8>, header: Seq<u8>, secret: Seq<u8>, now: i64)
    requires
        signature_outcome(body, header, secret, now) is Ok,
    ensures
        exists|t: i64|
            header_fields(header) == (Some(t), Some(expected_signature(secret, t, body)))
                && #[trigger] within_tolerance(t, now),
        vstd::utf8::valid_utf8(body),
{
    let t = header_fields(header).0->Some_0;
    let v1 = header_fields(header).1->Some_0;
    assert(expected_signature(secret, t, body) == v1);
    assert(header_fields(header) == (Some(t), Some(v1)));
    assert(within_tolerance(t, now));
}


/// The fields of an event's `data.object` that the handlers read; each is
/// `None` where the object has no such field or it is not a string.
#[derive(Debug, Clone)]
pub struct EventObject {
    pub id: Option<String>,
    pub customer: Option<String>,
    pub subscription: Option<String>,
    /// `metadata.user_id`
    pub metadata_user_id: Option<String>,
}

#[derive(Debug, Clone)]
pub struct EventData {
    pub object: EventObject,
}

/// A Stripe event envelope (the fields the handlers need).
#[derive(Debug, Clone)]
pub struct StripeEvent {
    pub id: String,
    pub event_type: String,
    pub data: EventData,
}

/// A string field, or the empty string where it is missing.
pub open spec fn text_or_empty(o: Option<String>) -> Seq<char> {
    match o {
        Some(s) => s@,
        None => Seq::empty(),
    }
}

fn string_or_empty(o: &Option<String>) -> (r: String)
    ensures
        r@ == text_or_empty(*o),
{
    match o {
        Some(s) => s.clone(),
        None => String::new(),
    }
}

/// The kinds of event the billing module acts on.
#[derive(Debug, Clone, Copy, PartialEq, Eq, Structural)]
pub enum EventKind {
    /// `checkout.session.completed`: a user just bought a plan.
    CheckoutCompleted,
    /// `customer.subscription.updated`, `.created` or `.deleted`.
    SubscriptionChanged,
    /// `invoice.payment_failed`
    PaymentFailed,
    /// Any other type, which is ignored.
    Other,
}

pub open spec fn event_kind(event_type: Seq<char>) -> EventKind {
    if event_type == "checkout.session.completed"@ {
        EventKind::CheckoutCompleted
    } else if event_type == "customer.subscription.updated"@ || event_type
        == "customer.subscription.created"@ || event_type == "customer.subscription.deleted"@ {
        EventKind::SubscriptionChanged
    } else if event_type == "invoice.payment_failed"@ {
        EventKind::PaymentFailed
    } else {
        EventKind::Other
    }
}

/// An event is dispatched by its exact type: `checkout.session.completed`
/// starts a checkout sync, the three `customer.subscription.*` changes a
/// subscription sync, `invoice.payment_failed` marks the customer past due,
/// and every other type (`invoice.payment_succeeded` among them) is ignored.
pub proof fn lemma_event_kinds(event_type: Seq<char>)
    ensures
        (event_kind(event_type) is CheckoutCompleted) <==> event_type == "checkout.session.completed"@,
        (event_kind(event_type) is SubscriptionChanged) <==> (event_type == "customer.subscription.updated"@
            || event_type == "customer.subscription.created"@ || event_type
            == "customer.subscription.deleted"@),
        (event_kind(event_type) is PaymentFailed) <==> event_type == "invoice.payment_failed"@,
        (event_kind(event_type) is Other) <==> !(event_type == "checkout.session.completed"@ || event_type
            == "customer.subscription.updated"@ || event_type == "customer.subscription.created"@
            || event_type == "customer.subscription.deleted"@ || event_type == "invoice.payment_failed"@),
{
    reveal_strlit("checkout.session.completed");
    reveal_strlit("customer.subscription.updated");
    reveal_strlit("customer.subscription.created");
    reveal_strlit("customer.subscription.deleted");
    reveal_strlit("invoice.payment_failed");
    // the names differ in length, or (the three subscription changes) in a letter
    assert("checkout.session.completed"@.len() == 26);
    assert("customer.subscription.updated"@.len() == 29);
    assert("customer.subscription.created"@.len() == 29);
    assert("customer.subscription.deleted"@.len() == 29);
    assert("invoice.payment_failed"@.len() == 22);
}

pub fn kind_of(event_type: &str) -> (k: EventKind)
    ensures
        k == event_kind(event_type@),
        (k is CheckoutCompleted) <==> event_type@ == "checkout.session.completed"@,
        (k is SubscriptionChanged) <==> (event_type@ == "customer.subscription.updated"@ || event_type@
            == "customer.subscription.created"@ || event_type@ == "customer.subscription.deleted"@),
        (k is PaymentFailed) <==> event_type@ == "invoice.payment_failed"@,
{
    proof {
        lemma_event_kinds(event_type@);
    }
    if str_eq(event_type, "checkout.session.completed") {
        EventKind::CheckoutCompleted
    } else if str_eq(event_type, "customer.subscription.updated") || str_eq(
        event_type,
        "customer.subscription.created",
    ) || str_eq(event_type, "customer.subscription.deleted") {
        EventKind::SubscriptionChanged
    } else if str_eq(event_type, "invoice.payment_failed") {
        EventKind::PaymentFailed
    } else {
        EventKind::Other
    }
}

/// The local subscription row that mirrors a Stripe subscription. The
/// period bounds are Unix times in seconds, each within the dates `chrono`
/// can represent.
#[derive(Debug, Clone)]
pub struct SubscriptionUpsert {
    pub user_id: String,
    pub stripe_customer_id: String,
    pub stripe_subscription_id: String,
    pub plan_tier: PlanTier,
    pub status: String,
    pub current_period_start: Option<i64>,
    pub current_period_end: Option<i64>,
    pub cancel_at_period_end: bool,
}

/// A period bound as it can be stored: none where Stripe gave none, or where
/// the time lies outside the dates `chrono` can represent.
pub open spec fn storable_time(t: Option<i64>) -> Option<i64> {
    match t {
        Some(secs) => if chrono_timestamp_in_range(secs) {
            Some(secs)
        } else {
            None
        },
        None => None,
    }
}

fn storable(t: Option<i64>) -> (r: Option<i64>)
    ensures
        r == storable_time(t),
{
    match t {
        Some(secs) => if timestamp_in_range(secs) {
            Some(secs)
        } else {
            None
        },
        None => None,
    }
}

/// `row` mirrors subscription `sub` for user `user_id`, with the tier its
/// first item's price stands for and the period bounds that can be stored.
pub open spec fn is_upsert_for(
    row: SubscriptionUpsert,
    user_id: Seq<char>,
    sub: SubscriptionApiResp,
    prices: PriceConfig,
) -> bool {
    &&& row.user_id@ == user_id
    &&& row.stripe_customer_id@ == sub.customer@
    &&& row.stripe_subscription_id@ == sub.id@
    &&& row.plan_tier == subscription_tier(sub, prices)
    &&& row.status@ == sub.status@
    &&& row.current_period_start == storable_time(sub.current_period_start)
    &&& row.current_period_end == storable_time(sub.current_period_end)
    &&& row.cancel_at_period_end == sub.cancel_at_period_end
}

/// A row built for a user's subscription copies what Stripe reports: the
/// user, customer, subscription ID, status and cancellation flag as they are,
/// and each period bound either as Stripe gave it or not at all.
pub proof fn lemma_upsert_copies_stripe_state(
    row: SubscriptionUpsert,
    user_id: Seq<char>,
    sub: SubscriptionApiResp,
    prices: PriceConfig,
)
    requires
        is_upsert_for(row, user_id, sub, prices),
    ensures
        row.user_id@ == user_id,
        row.stripe_customer_id@ == sub.customer@,
        row.stripe_subscription_id@ == sub.id@,
        row.status@ == sub.status@,
        row.cancel_at_period_end == sub.cancel_at_period_end,
        row.current_period_start is Some ==> row.current_period_start == sub.current_period_start,
        row.current_period_end is Some ==> row.current_period_end == sub.current_period_end,
        sub.current_period_start is None ==> row.current_period_start is None,
        sub.current_period_end is None ==> row.current_period_end is None,
{
}

/// The row to write for a user's subscription.
pub fn subscription_upsert(user_id: &str, sub: &SubscriptionApiResp, prices: &PriceConfig) -> (row:
    SubscriptionUpsert)
    ensures
        is_upsert_for(row, user_id@, *sub, *prices),
        row.user_id@ == user_id@,
        row.stripe_customer_id@ == sub.customer@,
        row.stripe_subscription_id@ == sub.id@,
        row.status@ == sub.status@,
        row.cancel_at_period_end == sub.cancel_at_period_end,
        row.current_period_start is Some ==> row.current_period_start == sub.current_period_start,
        row.current_period_end is Some ==> row.current_period_end == sub.current_period_end,
        sub.current_period_start is None ==> row.current_period_start is None,
        sub.current_period_end is None ==> row.current_period_end is None,
{
    SubscriptionUpsert {
        user_id: String::from_str(user_id),
        stripe_customer_id: sub.customer.clone(),
        stripe_subscription_id: sub.id.clone(),
        plan_tier: tier_of_subscription(sub, prices),
        status: sub.status.clone(),
        current_period_start: storable(sub.current_period_start),
        current_period_end: storable(sub.current_period_end),
        cancel_at_period_end: sub.cancel_at_period_end,
    }
}

/// A row of the subscriptions table, keyed by user, as far as the billing
/// flows write it (creation and update times aside).
pub struct StoredRow {
    pub stripe_customer_id: Option<Seq<char>>,
    pub stripe_subscription_id: Option<Seq<char>>,
    pub plan_tier: Seq<char>,
    pub status: Seq<char>,
    pub current_period_start: Option<i64>,
    pub current_period_end: Option<i64>,
    pub cancel_at_period_end: bool,
}

/// The stored form of an upserted row; the tier is stored by name.
pub open spec fn stored_row(row: SubscriptionUpsert) -> StoredRow {
    StoredRow {
        stripe_customer_id: Some(row.stripe_customer_id@),
        stripe_subscription_id: Some(row.stripe_subscription_id@),
        plan_tier: tier_name(row.plan_tier),
        status: row.status@,
        current_period_start: row.current_period_start,
        current_period_end: row.current_period_end,
        cancel_at_period_end: row.cancel_at_period_end,
    }
}

/// The table after an `Upsert` step: the user's row is inserted, or replaced
/// field by field where the user already has one.
pub open spec fn after_upsert(table: Map<Seq<char>, StoredRow>, row: SubscriptionUpsert) -> Map<
    Seq<char>,
    StoredRow,
> {
    table.insert(row.user_id@, stored_row(row))
}

/// The table after a `MarkPastDue` step: every row of the customer is past due.
pub open spec fn after_past_due(table: Map<Seq<char>, StoredRow>, customer_id: Seq<char>) -> Map<
    Seq<char>,
    StoredRow,
> {
    Map::new(
        |u: Seq<char>| table.dom().contains(u),
        |u: Seq<char>|
            if table[u].stripe_customer_id == Some(customer_id) {
                StoredRow {
                    stripe_customer_id: table[u].stripe_customer_id,
                    stripe_subscription_id: table[u].stripe_subscription_id,
                    plan_tier: table[u].plan_tier,
                    status: "past_due"@,
                    current_period_start: table[u].current_period_start,
                    current_period_end: table[u].current_period_end,
                    cancel_at_period_end: table[u].cancel_at_period_end,
                }
            } else {
                table[u]
            },
    )
}

/// A redelivered event whose subscription Stripe still reports the same way
/// writes nothing new: any two rows built for the same user, subscription and
/// prices, written one after the other, leave the table as the first did.
pub proof fn lemma_upsert_redelivery(
    table: Map<Seq<char>, StoredRow>,
    user_id: Seq<char>,
    sub: SubscriptionApiResp,
    prices: PriceConfig,
    first: SubscriptionUpsert,
    second: SubscriptionUpsert,
)
    requires
        is_upsert_for(first, user_id, sub, prices),
        is_upsert_for(second, user_id, sub, prices),
    ensures
        after_upsert(after_upsert(table, first), second) == after_upsert(table, first),
{
    assert(stored_row(first) == stored_row(second));
    assert(after_upsert(after_upsert(table, first), second) =~= after_upsert(table, first));
}

/// A redelivered failed-payment event changes nothing more.
pub proof fn lemma_past_due_redelivery(table: Map<Seq<char>, StoredRow>, customer_id: Seq<char>)
    ensures
        after_past_due(after_past_due(table, customer_id), customer_id) == after_past_due(table, customer_id),
{
    let once = after_past_due(table, customer_id);
    let twice = after_past_due(once, customer_id);
    assert(twice =~= once);
}

/// Where the handling of one event stands between outside calls.
pub enum EventState {
    /// A checkout completed; its subscription is being fetched from Stripe.
    AwaitCheckoutSubscription { user_id: String },
    /// A subscription changed; it is being fetched from Stripe.
    AwaitSubscription { subscription_id: String },
    /// The subscription is known; the local user of its customer is being looked up.
    AwaitUser { subscription_id: String, subscription: SubscriptionApiResp },
    /// A database write is under way.
    AwaitWrite,
    /// Nothing more is to be done.
    Finished,
}

/// How an event's handling ended.
pub enum EventOutcome {
    /// The event changed the local subscription state.
    Handled,
    /// The event type is not one the billing module acts on.
    Ignored,
    /// The subscription's customer has no local user; nothing was written.
    Unmapped { subscription_id: String },
}

/// What the caller is to do next.
pub enum EventStep {
    /// Fetch this subscription from Stripe, then reply `Subscription`.
    FetchSubscription { subscription_id: String },
    /// Look up the local user of this Stripe customer, then reply `User`.
    FindUser { customer_id: String },
    /// Insert or update this subscription row, as `after_upsert` describes,
    /// then reply `Written`.
    Upsert { row: SubscriptionUpsert },
    /// Mark every subscription of this customer past due, as
    /// `after_past_due` describes, then reply `Written`.
    MarkPastDue { customer_id: String },
    /// Handling is over.
    Done { outcome: EventOutcome },
    /// Handling failed (Stripe is to retry the webhook).
    Fail { message: String },
}

/// What came back from the outside call that a step asked for.
pub enum EventReply {
    Subscription(SubscriptionApiResp),
    User(Option<String>),
    Written,
    /// The call failed, with this message.
    Failed(String),
}

/// How many outside calls at most remain from a state.
pub open spec fn calls_left(state: EventState) -> nat {
    match state {
        EventState::AwaitCheckoutSubscription { .. } => 2,
        EventState::AwaitSubscription { .. } => 3,
        EventState::AwaitUser { .. } => 2,
        EventState::AwaitWrite => 1,
        EventState::Finished => 0,
    }
}

/// A step ends the handling exactly when the state is `Finished`.
pub open spec fn step_fits(state: EventState, step: EventStep) -> bool {
    (state is Finished) == (step is Done || step is Fail)
}

/// The reply answers the step that led to the state.
pub open spec fn expects(state: EventState, reply: EventReply) -> bool {
    match state {
        EventState::AwaitCheckoutSubscription { .. } => reply is Subscription || reply is Failed,
        EventState::AwaitSubscription { .. } => reply is Subscription || reply is Failed,
        EventState::AwaitUser { .. } => reply is User || reply is Failed,
        EventState::AwaitWrite => reply is Written || reply is Failed,
        EventState::Finished => false,
    }
}

/// Whether `reply` answers the step that led to `state`, so that
/// `advance_event` may be called with them.
pub fn event_accepts(state: &EventState, reply: &EventReply) -> (b: bool)
    ensures
        b == expects(*state, *reply),
{
    match state {
        EventState::AwaitCheckoutSubscription { .. } | EventState::AwaitSubscription { .. } => match reply {
            EventReply::Subscription(_) | EventReply::Failed(_) => true,
            _ => false,
        },
        EventState::AwaitUser { .. } => match reply {
            EventReply::User(_) | EventReply::Failed(_) => true,
            _ => false,
        },
        EventState::AwaitWrite => match reply {
            EventReply::Written | EventReply::Failed(_) => true,
            _ => false,
        },
        EventState::Finished => false,
    }
}

fn fail(message: &str) -> (r: (EventState, EventStep))
    ensures
        r.0 is Finished,
        r.1 matches EventStep::Fail { message: m } && m@ == message@,
{
    (EventState::Finished, EventStep::Fail { message: String::from_str(message) })
}

/// The first step of handling an event.
pub fn begin_event(event: &StripeEvent) -> (r: (EventState, EventStep))
    ensures
        step_fits(r.0, r.1),
        (r.1 is MarkPastDue) <==> event.event_type@ == "invoice.payment_failed"@,
        (r.1 matches EventStep::Done { outcome } && outcome is Ignored) <==> !(event.event_type@
            == "checkout.session.completed"@ || event.event_type@ == "customer.subscription.updated"@
            || event.event_type@ == "customer.subscription.created"@ || event.event_type@
            == "customer.subscription.deleted"@ || event.event_type@ == "invoice.payment_failed"@),
        ({
            let obj = event.data.object;
            match event_kind(event.event_type@) {
                EventKind::CheckoutCompleted => if text_or_empty(obj.customer).len() == 0
                    || text_or_empty(obj.subscription).len() == 0 {
                    r.1 matches EventStep::Fail { message }
                        && message@ == "checkout.session.completed missing ids"@
                } else {
                    &&& r.0 matches EventState::AwaitCheckoutSubscription { user_id }
                        && user_id@ == text_or_empty(obj.metadata_user_id)
                    &&& r.1 matches EventStep::FetchSubscription { subscription_id }
                        && subscription_id@ == text_or_empty(obj.subscription)
                },
                EventKind::SubscriptionChanged => if text_or_empty(obj.id).len() == 0 {
                    r.1 matches EventStep::Fail { message }
                        && message@ == "subscription event missing id"@
                } else {
                    &&& r.0 matches EventState::AwaitSubscription { subscription_id }
                        && subscription_id@ == text_or_empty(obj.id)
                    &&& r.1 matches EventStep::FetchSubscription { subscription_id }
                        && subscription_id@ == text_or_empty(obj.id)
                },
                EventKind::PaymentFailed => {
                    &&& r.0 is AwaitWrite
                    &&& r.1 matches EventStep::MarkPastDue { customer_id }
                        && customer_id@ == text_or_empty(obj.customer)
                },
                EventKind::Other => r.1 matches EventStep::Done { outcome } && outcome is Ignored,
            }
        }),
{
    let obj = &event.data.object;
    match kind_of(event.event_type.as_str()) {
        EventKind::CheckoutCompleted => {
            let customer = string_or_empty(&obj.customer);
            let subscription = string_or_empty(&obj.subscription);
            let user_id = string_or_empty(&obj.metadata_user_id);
            if customer.as_str().is_empty() || subscription.as_str().is_empty() {
                return fail("checkout.session.completed missing ids");
            }
            (
                EventState::AwaitCheckoutSubscription { user_id },
                EventStep::FetchSubscription { subscription_id: subscription },
            )
        },
        EventKind::SubscriptionChanged => {
            let sub_id = string_or_empty(&obj.id);
            if sub_id.as_str().is_empty() {
                return fail("subscription event missing id");
            }
            let fetch_id = sub_id.clone();
            (
                EventState::AwaitSubscription { subscription_id: sub_id },
                EventStep::FetchSubscription { subscription_id: fetch_id },
            )
        },
        EventKind::PaymentFailed => {
            let customer = string_or_empty(&obj.customer);
            (EventState::AwaitWrite, EventStep::MarkPastDue { customer_id: customer })
        },
        EventKind::Other => (EventState::Finished, EventStep::Done { outcome: EventOutcome::Ignored }),
    }
}

/// The next step of handling an event, given the reply to the last one.
pub fn advance_event(state: EventState, reply: EventReply, prices: &PriceConfig) -> (r: (
    EventState,
    EventStep,
))
    requires
        expects(state, reply),
    ensures
        step_fits(r.0, r.1),
        calls_left(r.0) < calls_left(state),
        reply matches EventReply::Failed(m) ==> (r.1 matches EventStep::Fail { message }
            && message@ == m@),
        match (state, reply) {
            (EventState::AwaitCheckoutSubscription { user_id }, EventReply::Subscription(sub)) => {
                &&& r.0 is AwaitWrite
                &&& r.1 matches EventStep::Upsert { row } && is_upsert_for(row, user_id@, sub, *prices)
            },
            (EventState::AwaitSubscription { subscription_id }, EventReply::Subscription(sub)) => {
                &&& r.0 matches EventState::AwaitUser { subscription_id: id, subscription } && id
                    == subscription_id && subscription == sub
                &&& r.1 matches EventStep::FindUser { customer_id } && customer_id@ == sub.customer@
            },
            (EventState::AwaitUser { subscription, .. }, EventReply::User(Some(user_id))) => {
                &&& r.0 is AwaitWrite
                &&& r.1 matches EventStep::Upsert { row } && is_upsert_for(
                    row,
                    user_id@,
                    subscription,
                    *prices,
                )
            },
            (EventState::AwaitUser { subscription_id, .. }, EventReply::User(None)) => {
                r.1 matches EventStep::Done { outcome: EventOutcome::Unmapped { subscription_id: s } }
                    && s@ == subscription_id@
            },
            (EventState::AwaitWrite, EventReply::Written) => {
                r.1 matches EventStep::Done { outcome } && outcome is Handled
            },
            _ => true,
        },
{
    match reply {
        EventReply::Failed(message) => (EventState::Finished, EventStep::Fail { message }),
        EventReply::Subscription(sub) => match state {
            EventState::AwaitCheckoutSubscription { user_id } => {
                let row = subscription_upsert(user_id.as_str(), &sub, prices);
                (EventState::AwaitWrite, EventStep::Upsert { row })
            },
            EventState::AwaitSubscription { subscription_id } => {
                let customer_id = sub.customer.clone();
                (
                    EventState::AwaitUser { subscription_id, subscription: sub },
                    EventStep::FindUser { customer_id },
                )
            },
            _ => {
                proof {
                    assert(false);
                }
                (EventState::Finished, EventStep::Done { outcome: EventOutcome::Ignored })
            },
        },
        EventReply::User(found) => match state {
            EventState::AwaitUser { subscription_id, subscription } => match found {
                Some(user_id) => {
                    let row = subscription_upsert(user_id.as_str(), &subscription, prices);
                    (EventState::AwaitWrite, EventStep::Upsert { row })
                },
                None => (
                    EventState::Finished,
                    EventStep::Done { outcome: EventOutcome::Unmapped { subscription_id } },
                ),
            },
            _ => {
                proof {
                    assert(false);
                }
                (EventState::Finished, EventStep::Done { outcome: EventOutcome::Ignored })
            },
        },
        EventReply::Written => (EventState::Finished, EventStep::Done { outcome: EventOutcome::Handled }),
    }
}

} // verus!
