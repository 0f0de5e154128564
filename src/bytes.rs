//! Byte-level helpers used by webhook verification: constant-time
//! comparison, lowercase hex encoding and decimal integer parsing.
use vstd::prelude::*;

verus! {

/// Lowercase hexadecimal digit for a value below 16.
pub open spec fn hex_digit(v: u8) -> u8 {
    if v < 10 {
        (48 + v) as u8
    } else {
        (87 + v) as u8
    }
}

/// Lowercase hex rendering of a byte string: two digits per byte, high
/// nibble first.
pub open spec fn hex_lower(d: Seq<u8>) -> Seq<u8> {
    Seq::new(
        2 * d.len(),
        |i: int|
            if i % 2 == 0 {
                hex_digit(d[i / 2] / 16)
            } else {
                hex_digit(d[i / 2] % 16)
            },
    )
}

proof fn lemma_hex_digit_injective(x: u8, y: u8)
    requires
        x < 16,
        y < 16,
        hex_digit(x) == hex_digit(y),
    ensures
        x == y,
{
}

proof fn lemma_nibbles_determine_byte(x: u8, y: u8)
    requires
        x / 16 == y / 16,
        x % 16 == y % 16,
    ensures
        x == y,
{
    assert(x == (x / 16) * 16 + x % 16);
    assert(y == (y / 16) * 16 + y % 16);
}

/// Distinct byte strings have distinct hex renderings.
pub proof fn lemma_hex_lower_injective(a: Seq<u8>, b: Seq<u8>)
    requires
        hex_lower(a) == hex_lower(b),
    ensures
        a == b,
{
    assert(hex_lower(a).len() == 2 * a.len());
    assert(hex_lower(b).len() == 2 * b.len());
    assert(a.len() == b.len());
    assert forall|i: int| 0 <= i < a.len() implies a[i] == b[i] by {
        assert(0 <= 2 * i + 1 < 2 * a.len());
        assert(hex_lower(a)[2 * i] == hex_lower(b)[2 * i]);
        assert(hex_lower(a)[2 * i + 1] == hex_lower(b)[2 * i + 1]);
        assert((2 * i) / 2 == i && (2 * i) % 2 == 0);
        assert((2 * i + 1) / 2 == i && (2 * i + 1) % 2 == 1);
        assert(hex_lower(a)[2 * i] == hex_digit(a[i] / 16));
        assert(hex_lower(b)[2 * i] == hex_digit(b[i] / 16));
        assert(hex_lower(a)[2 * i + 1] == hex_digit(a[i] % 16));
        assert(hex_lower(b)[2 * i + 1] == hex_digit(b[i] % 16));
        lemma_hex_digit_injective(a[i] / 16, b[i] / 16);
        lemma_hex_digit_injective(a[i] % 16, b[i] % 16);
        lemma_nibbles_determine_byte(a[i], b[i]);
    }
    assert(a =~= b);
}

/// Compares two byte strings without stopping at the first difference: every
/// byte pair is folded into one accumulator, which is tested only at the end.
pub fn constant_time_eq(a: &[u8], b: &[u8]) -> (r: bool)
    ensures
        r == (a@ == b@),
{
    if a.len() != b.len() {
        return false;
    }
    let mut acc: u8 = 0;
    let mut i: usize = 0;
    while i < a.len()
        invariant
            a.len() == b.len(),
            i <= a.len(),
            acc == 0 <==> (forall|j: int| 0 <= j < i ==> a@[j] == b@[j]),
        decreases a.len() - i,
    {
        let x = a[i];
        let y = b[i];
        let next = acc | (x ^ y);
        assert(next == 0 <==> (acc == 0 && x == y)) by (bit_vector)
            requires
                next == acc | (x ^ y),
        ;
        acc = next;
        i = i + 1;
    }
    let r = acc == 0;
    if r {
        assert(a@ =~= b@);
    }
    r
}

/// Renders `d` as lowercase hex.
pub fn to_hex(d: &[u8]) -> (r: Vec<u8>)
    requires
        d.len() <= usize::MAX / 2,
    ensures
        r@ == hex_lower(d@),
{
    let mut r: Vec<u8> = Vec::new();
    let mut i: usize = 0;
    while i < d.len()
        invariant
            i <= d.len(),
            d.len() <= usize::MAX / 2,
            r@ =~= hex_lower(d@.subrange(0, i as int)),
        decreases d.len() - i,
    {
        let v = d[i];
        let hi = v / 16;
        let lo = v % 16;
        let ch: u8 = if hi < 10 { 48 + hi } else { 87 + hi };
        let cl: u8 = if lo < 10 { 48 + lo } else { 87 + lo };
        r.push(ch);
        r.push(cl);
        i = i + 1;
        assert(r@ =~= hex_lower(d@.subrange(0, i as int)));
    }
    assert(d@.subrange(0, d.len() as int) =~= d@);
    r
}


pub open spec fn is_digit(b: u8) -> bool {
    48 <= b <= 57
}

/// Value of a string of decimal digits, most significant first.
pub open spec fn digits_value(s: Seq<u8>) -> int
    decreases s.len(),
{
    if s.len() == 0 {
        0
    } else {
        digits_value(s.drop_last()) * 10 + (s.last() - 48)
    }
}

pub open spec fn all_digits(d: Seq<u8>) -> bool {
    forall|i: int| 0 <= i < d.len() ==> is_digit(#[trigger] d[i])
}

/// Length of the optional sign in front of a decimal number.
pub open spec fn sign_len(s: Seq<u8>) -> int {
    if s.len() > 0 && (s[0] == 45 || s[0] == 43) {
        1
    } else {
        0
    }
}

/// The integer that `s` spells in decimal, as `i64`'s parser reads it: an
/// optional `+` or `-`, then one or more digits, with a value in range.
pub open spec fn parse_i64_spec(s: Seq<u8>) -> Option<i64> {
    let digits = s.subrange(sign_len(s), s.len() as int);
    let v = if s.len() > 0 && s[0] == 45 {
        -digits_value(digits)
    } else {
        digits_value(digits)
    };
    if digits.len() == 0 || !all_digits(digits) {
        None
    } else if i64::MIN <= v <= i64::MAX {
        Some(v as i64)
    } else {
        None
    }
}

proof fn lemma_digits_value_nonneg(s: Seq<u8>)
    requires
        forall|i: int| 0 <= i < s.len() ==> is_digit(s[i]),
    ensures
        digits_value(s) >= 0,
    decreases s.len(),
{
    if s.len() > 0 {
        lemma_digits_value_nonneg(s.drop_last());
    }
}

/// Parses a signed decimal `i64`.
pub fn parse_i64(s: &[u8]) -> (r: Option<i64>)
    ensures
        r == parse_i64_spec(s@),
{
    let neg = s.len() > 0 && s[0] == 45;
    let start: usize = if s.len() > 0 && (s[0] == 45 || s[0] == 43) {
        1
    } else {
        0
    };
    let ghost digits = s@.subrange(start as int, s.len() as int);
    if start == s.len() {
        return None;
    }
    let bound: u128 = 9223372036854775808;
    let mut acc: u128 = 0;
    let mut over = false;
    let mut i: usize = start;
    while i < s.len()
        invariant
            start <= i <= s.len(),
            start <= 1,
            start == sign_len(s@),
            neg == (s@.len() > 0 && s@[0] == 45),
            digits == s@.subrange(start as int, s.len() as int),
            bound == 9223372036854775808,
            forall|j: int| start <= j < i ==> is_digit(s@[j]),
            !over ==> acc == digits_value(s@.subrange(start as int, i as int)) && acc <= bound,
            over ==> digits_value(s@.subrange(start as int, i as int)) > bound,
        decreases s.len() - i,
    {
        let b = s[i];
        if !(48 <= b && b <= 57) {
            assert(digits[i - start] == b);
            assert(!is_digit(digits[i - start]));
            assert(!all_digits(digits));
            return None;
        }
        let ghost prev = s@.subrange(start as int, i as int);
        let ghost next = s@.subrange(start as int, i + 1);
        assert(next.drop_last() =~= prev);
        assert(forall|j: int| 0 <= j < prev.len() ==> is_digit(prev[j]));
        proof {
            lemma_digits_value_nonneg(prev);
        }
        if !over {
            let v = acc * 10 + (b - 48) as u128;
            if v > bound {
                over = true;
            } else {
                acc = v;
            }
        } else {
            assert(digits_value(next) >= digits_value(prev)) by (nonlinear_arith)
                requires
                    digits_value(next) == digits_value(prev) * 10 + (b - 48),
                    digits_value(prev) >= 0,
                    b >= 48,
            ;
        }
        i = i + 1;
    }
    assert(digits =~= s@.subrange(start as int, i as int));
    if over {
        return None;
    }
    if neg {
        Some((0 - acc as i128) as i64)
    } else if acc == bound {
        None
    } else {
        Some(acc as i64)
    }
}

} // verus!
