//! Decimal request payloads.
//!
//! The accumulator capability speaks unsigned decimal numbers: a request is
//! a non-empty string of ASCII digits, and a response is the canonical
//! decimal rendering (no leading zeros except for zero itself) of the new
//! state.

use vstd::prelude::*;

verus! {

/// Whether `b` is an ASCII decimal digit.
pub open spec fn is_digit(b: u8) -> bool {
    48 <= b <= 57
}

/// The numeric value of a digit byte; zero for a non-digit, so that the
/// value of a string is total and extending a string never decreases it.
pub open spec fn digit_val(b: u8) -> nat {
    if is_digit(b) {
        (b - 48) as nat
    } else {
        0
    }
}

/// Whether every byte of `s` is an ASCII decimal digit.
pub open spec fn all_digits(s: Seq<u8>) -> bool {
    forall|i: int| 0 <= i < s.len() ==> is_digit(s[i])
}

/// The numeric value of a digit string, most significant digit first.
pub open spec fn digits_value(s: Seq<u8>) -> nat
    decreases s.len(),
{
    if s.len() == 0 {
        0
    } else {
        digits_value(s.drop_last()) * 10 + digit_val(s.last())
    }
}

/// The value a request payload denotes: a payload parses when it is
/// non-empty, all digits, and its value fits in a `u64`.
pub open spec fn spec_parse_u64(s: Seq<u8>) -> Option<u64> {
    if s.len() > 0 && all_digits(s) && digits_value(s) <= u64::MAX {
        Some(digits_value(s) as u64)
    } else {
        None
    }
}

/// The canonical decimal rendering of `n`, most significant digit first.
pub open spec fn spec_digits(n: nat) -> Seq<u8>
    decreases n,
{
    if n < 10 {
        seq![(n + 48) as u8]
    } else {
        spec_digits(n / 10).push((n % 10 + 48) as u8)
    }
}

/// The canonical rendering of a number is a non-empty digit string whose
/// value is that number.
pub proof fn lemma_digits_round_trip(n: nat)
    ensures
        all_digits(spec_digits(n)),
        spec_digits(n).len() > 0,
        digits_value(spec_digits(n)) == n,
    decreases n,
{
    if n < 10 {
        let s = spec_digits(n);
        assert(s =~= seq![(n + 48) as u8]);
        assert(s.drop_last() =~= Seq::<u8>::empty());
        assert(digits_value(s) == digits_value(s.drop_last()) * 10 + digit_val(s.last()));
    } else {
        lemma_digits_round_trip(n / 10);
        let prefix = spec_digits(n / 10);
        let s = spec_digits(n);
        let d = ((n % 10) + 48) as u8;
        assert(s == prefix.push(d));
        assert(s.drop_last() =~= prefix);
        assert(s.last() == d);
        assert(digits_value(s) == digits_value(prefix) * 10 + digit_val(d));
        assert(digits_value(s) == (n / 10) * 10 + n % 10);
        assert forall|i: int| 0 <= i < s.len() implies is_digit(s[i]) by {
            if i < prefix.len() {
                assert(s[i] == prefix[i]);
            } else {
                assert(s[i] == d);
            }
        }
    }
}

/// What the accumulator responds parses back to exactly the total it now
/// holds: rendering then parsing is the identity on `u64`.
pub proof fn lemma_format_parse_round_trip(n: u64)
    ensures
        spec_parse_u64(spec_digits(n as nat)) == Some(n),
{
    lemma_digits_round_trip(n as nat);
}

/// Extending a digit string never decreases its value.
proof fn lemma_digits_value_mono(s: Seq<u8>, i: int, j: int)
    requires
        0 <= i <= j <= s.len(),
    ensures
        digits_value(s.take(i)) <= digits_value(s.take(j)),
    decreases j - i,
{
    if i < j {
        lemma_digits_value_mono(s, i, j - 1);
        assert(s.take(j).drop_last() =~= s.take(j - 1));
        assert(digits_value(s.take(j)) == digits_value(s.take(j - 1)) * 10 + digit_val(
            s.take(j).last(),
        ));
    }
}

/// Parse a payload as an unsigned decimal number.
///
/// Returns the denoted value exactly when the payload is non-empty, all
/// digits, and in range; rejects everything else.
pub fn parse_u64(s: &Vec<u8>) -> (r: Option<u64>)
    ensures
        r == spec_parse_u64(s@),
{
    if s.len() == 0 {
        return None;
    }
    let mut val: u64 = 0;
    let mut i: usize = 0;
    while i < s.len()
        invariant
            0 < s@.len(),
            i <= s@.len(),
            all_digits(s@.take(i as int)),
            val == digits_value(s@.take(i as int)),
        decreases s@.len() - i,
    {
        let b = s[i];
        if b < 48 || b > 57 {
            assert(!all_digits(s@)) by {
                assert(!is_digit(s@[i as int]));
            }
            return None;
        }
        let d = b - 48;
        let wide: u128 = (val as u128) * 10 + (d as u128);
        proof {
            assert(s@.take(i + 1).drop_last() =~= s@.take(i as int));
            assert(s@.take(i + 1).last() == s@[i as int]);
            assert(digits_value(s@.take(i + 1)) == digits_value(s@.take(i as int)) * 10
                + digit_val(s@[i as int]));
        }
        if wide > u64::MAX as u128 {
            proof {
                lemma_digits_value_mono(s@, i + 1, s@.len() as int);
                assert(s@.take(s@.len() as int) =~= s@);
                assert(digits_value(s@) > u64::MAX);
            }
            return None;
        }
        val = wide as u64;
        i += 1;
    }
    proof {
        assert(s@.take(s@.len() as int) =~= s@);
    }
    Some(val)
}

/// Render `n` as decimal digits, most significant first.
pub fn format_u64(n: u64) -> (r: Vec<u8>)
    ensures
        r@ == spec_digits(n as nat),
{
    if n == 0 {
        let mut out: Vec<u8> = Vec::new();
        out.push(48);
        proof {
            assert(spec_digits(0) =~= seq![48u8]);
            assert(out@ =~= seq![48u8]);
        }
        return out;
    }
    let mut rev: Vec<u8> = Vec::new();
    let mut m = n;
    while m > 0
        invariant
            m as nat > 0 ==> spec_digits(n as nat) =~= spec_digits(m as nat) + rev@.reverse(),
            m == 0 ==> rev@.len() > 0 && spec_digits(n as nat) =~= rev@.reverse(),
        decreases m,
    {
        let d = (m % 10) as u8 + 48;
        let next = m / 10;
        let ghost rev_before = rev@;
        rev.push(d);
        proof {
            assert(rev@.reverse() =~= seq![d] + rev_before.reverse());
            if next as nat > 0 {
                assert(spec_digits(m as nat) == spec_digits(m as nat / 10).push(
                    ((m as nat % 10) + 48) as u8,
                ));
                assert(spec_digits(m as nat) =~= spec_digits(next as nat) + seq![d]);
                assert(spec_digits(next as nat) + rev@.reverse() =~= (spec_digits(next as nat)
                    + seq![d]) + rev_before.reverse());
            } else {
                assert(m < 10);
                assert(spec_digits(m as nat) =~= seq![d]);
                assert(rev@.reverse() =~= spec_digits(m as nat) + rev_before.reverse());
            }
        }
        m = next;
    }
    let mut out: Vec<u8> = Vec::new();
    let total = rev.len();
    let mut j: usize = 0;
    while j < total
        invariant
            total == rev@.len(),
            j <= total,
            out@ =~= rev@.reverse().take(j as int),
        decreases total - j,
    {
        let b = rev[total - 1 - j];
        out.push(b);
        j += 1;
        proof {
            assert(out@ =~= rev@.reverse().take(j as int));
        }
    }
    proof {
        assert(out@ =~= rev@.reverse());
    }
    out
}

} // verus!
