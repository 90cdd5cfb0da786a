//! Decimal parsing of the `player_uid` path segment: a signed 64-bit
//! integer read from the bytes of the segment, with an exact statement of
//! which strings parse and to what value.

use vstd::prelude::*;

verus! {

use vstd::string::StringSliceAdditionalSpecFns;

/// The byte is an ASCII decimal digit.
pub open spec fn is_ascii_digit(b: u8) -> bool {
    48 <= b && b <= 57
}

/// Every byte of the sequence is an ASCII decimal digit.
pub open spec fn all_ascii_digits(s: Seq<u8>) -> bool {
    forall|i: int| 0 <= i < s.len() ==> is_ascii_digit(#[trigger] s[i])
}

/// The non-negative value of a sequence of ASCII digits, most significant
/// first.
pub open spec fn digits_value(s: Seq<u8>) -> int
    decreases s.len(),
{
    if s.len() == 0 {
        0
    } else {
        digits_value(s.drop_last()) * 10 + (s.last() - 48)
    }
}

/// Ten to the `n`th power.
pub open spec fn pow10(n: nat) -> int
    decreases n,
{
    if n == 0 {
        1
    } else {
        10 * pow10((n - 1) as nat)
    }
}

/// The digit part of a decimal string: everything after a leading `+` or
/// `-` sign, or the whole string when there is none.
pub open spec fn decimal_digit_part(s: Seq<u8>) -> Seq<u8> {
    if s.len() > 0 && (s[0] == 45 || s[0] == 43) {
        s.subrange(1, s.len() as int)
    } else {
        s
    }
}

/// The string denotes a decimal integer: an optional sign followed by at
/// least one ASCII digit and nothing else.
pub open spec fn is_decimal_string(s: Seq<u8>) -> bool {
    &&& decimal_digit_part(s).len() > 0
    &&& all_ascii_digits(decimal_digit_part(s))
}

/// The signed value a decimal string denotes, before any range check.
pub open spec fn decimal_value(s: Seq<u8>) -> int {
    if s.len() > 0 && s[0] == 45 {
        -digits_value(decimal_digit_part(s))
    } else {
        digits_value(decimal_digit_part(s))
    }
}

/// What parsing the string as a signed 64-bit integer yields: its value
/// when the string is a decimal integer in range, nothing otherwise.
pub open spec fn parsed_i64(s: Seq<u8>) -> Option<int> {
    if is_decimal_string(s) && i64::MIN <= decimal_value(s) <= i64::MAX {
        Some(decimal_value(s))
    } else {
        None
    }
}

/// A sequence of digits has a non-negative value.
proof fn lemma_digits_value_nonneg(s: Seq<u8>)
    requires
        all_ascii_digits(s),
    ensures
        digits_value(s) >= 0,
    decreases s.len(),
{
    if s.len() > 0 {
        assert(all_ascii_digits(s.drop_last()));
        lemma_digits_value_nonneg(s.drop_last());
    }
}

/// A digit sequence that does not start with `0` has value at least ten
/// to the length less one.
proof fn lemma_digits_value_lower(s: Seq<u8>)
    requires
        all_ascii_digits(s),
        s.len() > 0,
        s[0] != 48,
    ensures
        digits_value(s) >= pow10((s.len() - 1) as nat),
    decreases s.len(),
{
    if s.len() == 1 {
        assert(s.drop_last().len() == 0);
    } else {
        assert(all_ascii_digits(s.drop_last()));
        assert(s.drop_last()[0] == s[0]);
        lemma_digits_value_lower(s.drop_last());
        assert(digits_value(s.drop_last()) * 10 >= pow10((s.len() - 2) as nat) * 10)
            by (nonlinear_arith)
            requires
                digits_value(s.drop_last()) >= pow10((s.len() - 2) as nat),
        ;
    }
}

/// Ten to any power is positive.
proof fn lemma_pow10_positive(n: nat)
    ensures
        pow10(n) >= 1,
    decreases n,
{
    if n > 0 {
        lemma_pow10_positive((n - 1) as nat);
    }
}

/// Ten to the power is monotone in the exponent.
proof fn lemma_pow10_monotone(a: nat, b: nat)
    requires
        a <= b,
    ensures
        pow10(a) <= pow10(b),
    decreases b,
{
    if a < b {
        lemma_pow10_monotone(a, (b - 1) as nat);
        lemma_pow10_positive((b - 1) as nat);
    }
}

/// A leading zero does not change the value of a digit sequence.
proof fn lemma_strip_leading_zero(s: Seq<u8>)
    requires
        s.len() > 0,
        s[0] == 48,
    ensures
        digits_value(s) == digits_value(s.subrange(1, s.len() as int)),
    decreases s.len(),
{
    if s.len() == 1 {
        assert(s.drop_last().len() == 0);
        assert(digits_value(s.drop_last()) == 0);
        assert(digits_value(s) == 0);
        assert(s.subrange(1, s.len() as int).len() == 0);
        assert(digits_value(s.subrange(1, s.len() as int)) == 0);
    } else {
        let dl = s.drop_last();
        assert(dl[0] == 48);
        lemma_strip_leading_zero(dl);
        let t = s.subrange(1, s.len() as int);
        assert(t.drop_last() =~= dl.subrange(1, dl.len() as int));
        assert(t.last() == s.last());
        assert(digits_value(t) == digits_value(t.drop_last()) * 10 + (t.last() - 48));
        assert(digits_value(s) == digits_value(dl) * 10 + (s.last() - 48));
        assert(digits_value(t.drop_last()) == digits_value(dl));
        assert(digits_value(s) == digits_value(t));
    }
}

/// Appending one digit multiplies the value by ten and adds the digit.
proof fn lemma_digits_value_step(s: Seq<u8>, lo: int, i: int)
    requires
        0 <= lo <= i < s.len(),
    ensures
        digits_value(s.subrange(lo, i + 1)) == digits_value(s.subrange(lo, i)) * 10 + (s[i] - 48),
{
    assert(s.subrange(lo, i + 1).drop_last() =~= s.subrange(lo, i));
    assert(s.subrange(lo, i + 1).last() == s[i]);
}

/// Checks that every byte from `start` on is an ASCII digit.
fn all_digits_from(bytes: &[u8], start: usize) -> (r: bool)
    requires
        start <= bytes@.len(),
    ensures
        r == all_ascii_digits(bytes@.subrange(start as int, bytes@.len() as int)),
{
    let ghost part = bytes@.subrange(start as int, bytes@.len() as int);
    let len = bytes.len();
    let mut i: usize = start;
    while i < len
        invariant
            start <= i <= len,
            len == bytes@.len(),
            part =~= bytes@.subrange(start as int, bytes@.len() as int),
            forall|j: int| start <= j < i ==> is_ascii_digit(#[trigger] bytes@[j]),
        decreases len - i,
    {
        let b = bytes[i];
        if b < 48 || b > 57 {
            proof {
                assert(part[i - start] == bytes@[i as int]);
            }
            return false;
        }
        i = i + 1;
    }
    proof {
        assert(forall|j: int| 0 <= j < part.len() ==> part[j] == bytes@[j + start]);
    }
    true
}

/// Advances past leading zero digits, which do not change the value.
fn skip_leading_zeros(bytes: &[u8], lo: usize) -> (z: usize)
    requires
        lo <= bytes@.len(),
    ensures
        lo <= z <= bytes@.len(),
        digits_value(bytes@.subrange(z as int, bytes@.len() as int)) == digits_value(
            bytes@.subrange(lo as int, bytes@.len() as int),
        ),
        z < bytes@.len() ==> bytes@[z as int] != 48,
{
    let len = bytes.len();
    let mut z: usize = lo;
    while z < len && bytes[z] == 48
        invariant
            lo <= z <= len,
            len == bytes@.len(),
            digits_value(bytes@.subrange(z as int, len as int)) == digits_value(
                bytes@.subrange(lo as int, len as int),
            ),
        decreases len - z,
    {
        proof {
            let tail = bytes@.subrange(z as int, len as int);
            lemma_strip_leading_zero(tail);
            assert(tail.subrange(1, tail.len() as int) =~= bytes@.subrange(
                z as int + 1,
                len as int,
            ));
        }
        z = z + 1;
    }
    z
}

/// Accumulates at most nineteen digits into their value; nineteen digits
/// stay below ten to the nineteenth, which fits in a `u64`.
fn accumulate_digits(bytes: &[u8], z: usize) -> (acc: u64)
    requires
        z <= bytes@.len(),
        bytes@.len() - z <= 19,
        all_ascii_digits(bytes@.subrange(z as int, bytes@.len() as int)),
    ensures
        acc == digits_value(bytes@.subrange(z as int, bytes@.len() as int)),
{
    let ghost sig = bytes@.subrange(z as int, bytes@.len() as int);
    proof {
        assert(pow10(19) == 10_000_000_000_000_000_000) by {
            reveal_with_fuel(pow10, 20);
        }
    }
    let len = bytes.len();
    let mut acc: u64 = 0;
    let mut k: usize = z;
    while k < len
        invariant
            z <= k <= len,
            len == bytes@.len(),
            len - z <= 19,
            all_ascii_digits(sig),
            sig =~= bytes@.subrange(z as int, len as int),
            acc == digits_value(bytes@.subrange(z as int, k as int)),
            acc < pow10((k - z) as nat),
            pow10(19) == 10_000_000_000_000_000_000,
        decreases len - k,
    {
        proof {
            assert(sig[k - z] == bytes@[k as int]);
            assert(is_ascii_digit(bytes@[k as int]));
        }
        let d = bytes[k] - 48;
        proof {
            lemma_digits_value_step(bytes@, z as int, k as int);
            lemma_pow10_monotone(((k - z) + 1) as nat, 19);
            assert(acc * 10 + 9 < pow10(((k - z) + 1) as nat)) by (nonlinear_arith)
                requires
                    acc < pow10((k - z) as nat),
                    pow10(((k - z) + 1) as nat) == 10 * pow10((k - z) as nat),
            ;
        }
        acc = acc * 10 + (d as u64);
        k = k + 1;
    }
    proof {
        assert(bytes@.subrange(z as int, k as int) =~= sig);
    }
    acc
}

/// The magnitude of the digit run starting at `lo`: its value when it
/// fits a `u64`, nothing when it reaches at least two to the sixty-third
/// and so lies outside the range of `i64` for either sign.
fn decimal_magnitude(bytes: &[u8], lo: usize) -> (r: Option<u64>)
    requires
        lo <= bytes@.len(),
        all_ascii_digits(bytes@.subrange(lo as int, bytes@.len() as int)),
    ensures
        match r {
            Some(v) => v == digits_value(bytes@.subrange(lo as int, bytes@.len() as int)),
            None => digits_value(bytes@.subrange(lo as int, bytes@.len() as int))
                > 9_223_372_036_854_775_808,
        },
{
    let ghost whole = bytes@.subrange(lo as int, bytes@.len() as int);
    let z = skip_leading_zeros(bytes, lo);
    let ghost sig = bytes@.subrange(z as int, bytes@.len() as int);
    proof {
        assert(all_ascii_digits(sig)) by {
            assert(forall|j: int| 0 <= j < sig.len() ==> sig[j] == whole[j + (z - lo)]);
        }
    }
    let len = bytes.len();
    if len - z > 19 {
        // At least twenty significant digits: the value is at least ten
        // to the nineteenth.
        proof {
            lemma_digits_value_lower(sig);
            lemma_pow10_monotone(19, (sig.len() - 1) as nat);
            assert(pow10(19) == 10_000_000_000_000_000_000) by {
                reveal_with_fuel(pow10, 20);
            }
        }
        return None;
    }
    Some(accumulate_digits(bytes, z))
}

/// Parses the whole string as a signed decimal 64-bit integer, exactly as
/// the path parameter of the skill-window routes is read: an optional
/// `+` or `-` sign, then one or more ASCII digits, the value within the
/// bounds of `i64`. Anything else yields nothing.
pub fn parse_i64(s: &str) -> (r: Option<i64>)
    ensures
        match r {
            Some(v) => parsed_i64(s.spec_bytes()) == Some(v as int),
            None => parsed_i64(s.spec_bytes()) is None,
        },
{
    let bytes = s.as_bytes();
    let ghost sq = s.spec_bytes();
    let len = bytes.len();
    if len == 0 {
        return None;
    }
    let first = bytes[0];
    let negative = first == 45;
    let start: usize = if first == 45 || first == 43 {
        1
    } else {
        0
    };
    let ghost digits = decimal_digit_part(sq);
    proof {
        assert(digits =~= sq.subrange(start as int, len as int));
    }
    if start == len {
        // A bare sign has no digits.
        return None;
    }
    if !all_digits_from(bytes, start) {
        return None;
    }
    let magnitude = decimal_magnitude(bytes, start);
    proof {
        lemma_digits_value_nonneg(digits);
    }
    match magnitude {
        None => None,
        Some(acc) => {
            if negative {
                if acc > 9_223_372_036_854_775_808u64 {
                    None
                } else if acc == 9_223_372_036_854_775_808u64 {
                    Some(i64::MIN)
                } else {
                    Some(-(acc as i64))
                }
            } else {
                if acc > 9_223_372_036_854_775_807u64 {
                    None
                } else {
                    Some(acc as i64)
                }
            }
        },
    }
}

} // verus!
