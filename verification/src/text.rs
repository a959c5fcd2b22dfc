//! Byte- and string-level helpers shared by the billing logic.

use vstd::prelude::*;
use vstd::string::{StringExecFns, StringSliceAdditionalSpecFns};

verus! {

broadcast use vstd::utf8::encode_utf8_decode_utf8;

/// Byte-wise equality of two slices.
pub fn bytes_eq(a: &[u8], b: &[u8]) -> (r: bool)
    ensures
        r == (a@ == b@),
{
    if a.len() != b.len() {
        return false;
    }
    let mut i: usize = 0;
    while i < a.len()
        invariant
            a@.len() == b@.len(),
            i <= a@.len(),
            forall|j: int| 0 <= j < i ==> a@[j] == b@[j],
        decreases a@.len() - i,
    {
        if a[i] != b[i] {
            return false;
        }
        i = i + 1;
    }
    assert(a@ =~= b@);
    true
}

/// String equality, decided on the UTF-8 bytes of the two strings.
pub fn str_eq(a: &str, b: &str) -> (r: bool)
    ensures
        r == (a@ == b@),
{
    let r = bytes_eq(a.as_bytes(), b.as_bytes());
    proof {
        if r {
            assert(vstd::utf8::decode_utf8(a.spec_bytes()) == a@);
            assert(vstd::utf8::decode_utf8(b.spec_bytes()) == b@);
        }
    }
    r
}

} // verus!

verus! {

/// An ASCII decimal digit.
pub open spec fn is_digit(b: u8) -> bool {
    48 <= b <= 57
}

pub open spec fn all_digits(s: Seq<u8>) -> bool {
    forall|i: int| 0 <= i < s.len() ==> is_digit(#[trigger] s[i])
}

/// The number that a string of decimal digits denotes.
pub open spec fn digits_value(s: Seq<u8>) -> nat
    decreases s.len(),
{
    if s.len() == 0 {
        0
    } else {
        digits_value(s.drop_last()) * 10 + (s.last() - 48) as nat
    }
}

/// What `i64::from_str` gives: an optional `+` or `-` sign, then at least one
/// decimal digit and nothing else, denoting a value in the range of `i64`.
pub open spec fn parse_i64_spec(s: Seq<u8>) -> Option<i64> {
    if s.len() == 0 {
        None
    } else {
        let signed = s[0] == 45u8 || s[0] == 43u8;
        let digits = if signed { s.drop_first() } else { s };
        if digits.len() == 0 || !all_digits(digits) {
            None
        } else {
            let v: int = if s[0] == 45u8 { -(digits_value(digits) as int) } else { digits_value(digits) as int };
            if i64::MIN <= v <= i64::MAX { Some(v as i64) } else { None }
        }
    }
}

/// Decimal digits of a natural number, most significant first, no leading zero.
pub open spec fn nat_digits(n: nat) -> Seq<u8>
    decreases n,
{
    if n < 10 {
        seq![(n + 48) as u8]
    } else {
        nat_digits(n / 10).push((n % 10 + 48) as u8)
    }
}

/// How `Display` writes an integer: a `-` for negative values, then the digits.
pub open spec fn decimal(v: int) -> Seq<u8> {
    if v < 0 {
        seq![45u8] + nat_digits((-v) as nat)
    } else {
        nat_digits(v as nat)
    }
}

proof fn lemma_digits_value_prefix(s: Seq<u8>, k: int)
    requires
        0 <= k <= s.len(),
        all_digits(s),
    ensures
        digits_value(s.take(k)) <= digits_value(s),
    decreases s.len(),
{
    if k < s.len() {
        assert(all_digits(s.drop_last()));
        assert(s.drop_last().take(k) =~= s.take(k));
        lemma_digits_value_prefix(s.drop_last(), k);
    } else {
        assert(s.take(k) =~= s);
    }
}

/// Parses a signed 64-bit integer as `i64::from_str` does.
pub fn parse_i64(s: &[u8]) -> (r: Option<i64>)
    ensures
        r == parse_i64_spec(s@),
{
    if s.len() == 0 {
        return None;
    }
    let neg = s[0] == 45u8;
    let start: usize = if s[0] == 45u8 || s[0] == 43u8 { 1 } else { 0 };
    let ghost digits = if start == 1 { s@.drop_first() } else { s@ };
    assert(digits =~= s@.subrange(start as int, s@.len() as int));
    if start == s.len() {
        return None;
    }
    let limit: u64 = 0x8000_0000_0000_0000;
    let mut acc: u64 = 0;
    let mut i: usize = start;
    while i < s.len()
        invariant
            start <= i <= s@.len(),
            s@.len() > 0,
            start < s@.len(),
            digits == (if s@[0] == 45u8 || s@[0] == 43u8 { s@.drop_first() } else { s@ }),
            digits == s@.subrange(start as int, s@.len() as int),
            all_digits(s@.subrange(start as int, i as int)),
            acc == digits_value(s@.subrange(start as int, i as int)),
            acc <= limit,
            limit == 0x8000_0000_0000_0000u64,
        decreases s@.len() - i,
    {
        let b = s[i];
        assert(s@.subrange(start as int, i + 1).drop_last() =~= s@.subrange(start as int, i as int));
        if b < 48u8 || b > 57u8 {
            assert(digits[i - start] == b);
            assert(!is_digit(digits[i - start]));
            assert(!all_digits(digits));
            return None;
        }
        let d: u64 = (b - 48u8) as u64;
        if acc > (limit - d) / 10 {
            proof {
                assert(all_digits(s@.subrange(start as int, i + 1)));
                assert(acc * 10 + d > limit) by (nonlinear_arith)
                    requires
                        acc > (limit - d) / 10,
                        d <= 9,
                        limit == 0x8000_0000_0000_0000u64;
                assert(digits_value(s@.subrange(start as int, i + 1)) == acc * 10 + d);
                if all_digits(digits) {
                    assert(digits.take(i + 1 - start) =~= s@.subrange(start as int, i + 1));
                    lemma_digits_value_prefix(digits, i + 1 - start);
                }
            }
            return None;
        }
        acc = acc * 10 + d;
        i = i + 1;
    }
    assert(s@.subrange(start as int, s@.len() as int) =~= digits);
    if neg {
        if acc == limit {
            Some(i64::MIN)
        } else {
            Some(-(acc as i64))
        }
    } else if acc > i64::MAX as u64 {
        None
    } else {
        Some(acc as i64)
    }
}

proof fn lemma_nat_digits(n: nat)
    ensures
        all_digits(nat_digits(n)),
        digits_value(nat_digits(n)) == n,
        nat_digits(n).len() >= 1,
    decreases n,
{
    let x = nat_digits(n);
    if n < 10 {
        assert(x.drop_last() =~= Seq::<u8>::empty());
        assert(digits_value(x.drop_last()) == 0);
        assert((x.last() - 48) as nat == n);
    } else {
        lemma_nat_digits(n / 10);
        assert(x.drop_last() =~= nat_digits(n / 10));
        assert(digits_value(x.drop_last()) == n / 10);
        assert((x.last() - 48) as nat == n % 10);
        assert((n / 10) * 10 + n % 10 == n) by (nonlinear_arith);
    }
    assert(digits_value(x) == digits_value(x.drop_last()) * 10 + (x.last() - 48) as nat);
}

/// `Display` writes an `i64` as digits, after a `-` when it is negative.
pub proof fn lemma_decimal_digits(v: i64)
    ensures
        forall|i: int|
            0 <= i < decimal(v as int).len() ==> (is_digit(#[trigger] decimal(v as int)[i])
                || decimal(v as int)[i] == 45u8),
{
    let mag: nat = if v < 0 { (-v) as nat } else { v as nat };
    lemma_nat_digits(mag);
    if v < 0 {
        assert forall|i: int| 1 <= i < decimal(v as int).len() implies is_digit(
            #[trigger] decimal(v as int)[i],
        ) by {
            assert(decimal(v as int)[i] == nat_digits(mag)[i - 1]);
        }
    }
}

/// Reading back what `Display` wrote for an `i64` gives the same value.
pub proof fn lemma_parse_decimal(v: i64)
    ensures
        parse_i64_spec(decimal(v as int)) == Some(v),
{
    let mag: nat = if v < 0 { (-v) as nat } else { v as nat };
    lemma_nat_digits(mag);
    let s = decimal(v as int);
    if v < 0 {
        assert(s.drop_first() =~= nat_digits(mag));
    } else {
        assert(is_digit(nat_digits(mag)[0]));
    }
}

/// Appends the decimal digits of `n`.
fn push_nat_digits(n: u64, out: &mut Vec<u8>)
    ensures
        final(out)@ == old(out)@ + nat_digits(n as nat),
    decreases n,
{
    if n < 10 {
        out.push((n as u8) + 48u8);
    } else {
        push_nat_digits(n / 10, out);
        out.push(((n % 10) as u8) + 48u8);
    }
    assert(final(out)@ =~= old(out)@ + nat_digits(n as nat));
}

/// Appends the decimal form of `v`, as `Display` writes it.
pub fn push_decimal(v: i64, out: &mut Vec<u8>)
    ensures
        final(out)@ == old(out)@ + decimal(v as int),
{
    if v < 0 {
        out.push(45u8);
        let mag: u64 = if v == i64::MIN { 0x8000_0000_0000_0000u64 } else { (-v) as u64 };
        push_nat_digits(mag, out);
    } else {
        push_nat_digits(v as u64, out);
    }
    assert(final(out)@ =~= old(out)@ + decimal(v as int));
}

} // verus!

verus! {

pub open spec fn pow10(k: nat) -> nat
    decreases k,
{
    if k == 0 {
        1
    } else {
        10 * pow10((k - 1) as nat)
    }
}

proof fn lemma_nat_digits_len(n: nat, k: nat)
    requires
        k >= 1,
        n < pow10(k),
    ensures
        nat_digits(n).len() <= k,
    decreases k,
{
    if n >= 10 {
        let k1 = (k - 1) as nat;
        assert(k1 >= 1) by {
            if k1 == 0 {
                assert(pow10(0) == 1);
                assert(pow10(1) == 10);
            }
        }
        assert(n / 10 < pow10(k1)) by (nonlinear_arith)
            requires
                n < 10 * pow10(k1),
        ;
        lemma_nat_digits_len(n / 10, k1);
    }
}

/// `Display` writes an `i64` in at most 20 bytes.
pub proof fn lemma_decimal_len(v: i64)
    ensures
        decimal(v as int).len() <= 20,
{
    reveal_with_fuel(pow10, 20);
    assert(pow10(19) == 10_000_000_000_000_000_000nat);
    let mag: nat = if v < 0 { (-v) as nat } else { v as nat };
    lemma_nat_digits_len(mag, 19);
}

} // verus!

verus! {

/// The character of a decimal digit.
pub open spec fn digit_char(d: nat) -> char {
    if d == 0 {
        '0'
    } else if d == 1 {
        '1'
    } else if d == 2 {
        '2'
    } else if d == 3 {
        '3'
    } else if d == 4 {
        '4'
    } else if d == 5 {
        '5'
    } else if d == 6 {
        '6'
    } else if d == 7 {
        '7'
    } else if d == 8 {
        '8'
    } else {
        '9'
    }
}

/// Decimal digits of a natural number as characters, most significant first.
pub open spec fn decimal_chars(n: nat) -> Seq<char>
    decreases n,
{
    if n < 10 {
        seq![digit_char(n)]
    } else {
        decimal_chars(n / 10).push(digit_char(n % 10))
    }
}

fn digit_str(d: u64) -> (s: &'static str)
    requires
        d < 10,
    ensures
        s@ == seq![digit_char(d as nat)],
{
    proof {
        reveal_strlit("0");
        reveal_strlit("1");
        reveal_strlit("2");
        reveal_strlit("3");
        reveal_strlit("4");
        reveal_strlit("5");
        reveal_strlit("6");
        reveal_strlit("7");
        reveal_strlit("8");
        reveal_strlit("9");
    }
    if d == 0 {
        "0"
    } else if d == 1 {
        "1"
    } else if d == 2 {
        "2"
    } else if d == 3 {
        "3"
    } else if d == 4 {
        "4"
    } else if d == 5 {
        "5"
    } else if d == 6 {
        "6"
    } else if d == 7 {
        "7"
    } else if d == 8 {
        "8"
    } else {
        "9"
    }
}

/// Appends the decimal digits of `n`, as `Display` writes them.
pub fn append_decimal(s: &mut String, n: u64)
    ensures
        final(s)@ == old(s)@ + decimal_chars(n as nat),
    decreases n,
{
    if n < 10 {
        s.append(digit_str(n));
    } else {
        append_decimal(s, n / 10);
        s.append(digit_str(n % 10));
    }
    assert(final(s)@ =~= old(s)@ + decimal_chars(n as nat));
}

} // verus!
