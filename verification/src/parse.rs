//! Reading an unsigned 32-bit number written in decimal, as Rust's `u32::from_str` reads it:
//! an optional `+`, then one or more ASCII digits, with no other character, whose value fits.

use vstd::prelude::*;

verus! {

/// The byte `+`.
pub const PLUS: u8 = 43;

/// The byte `0`.
pub const ZERO: u8 = 48;

/// The byte `9`.
pub const NINE: u8 = 57;

/// `b` is an ASCII decimal digit.
pub open spec fn is_digit(b: u8) -> bool {
    ZERO <= b && b <= NINE
}

/// Every byte of `s` is an ASCII decimal digit.
pub open spec fn all_digits(s: Seq<u8>) -> bool {
    forall|i: int| 0 <= i < s.len() ==> #[trigger] is_digit(s[i])
}

/// The number that the decimal digits `s` write, most significant first.
pub open spec fn digits_value(s: Seq<u8>) -> int
    decreases s.len(),
{
    if s.len() == 0 {
        0
    } else {
        digits_value(s.drop_last()) * 10 + (s.last() - ZERO)
    }
}

/// `s` without its leading `+`, where it has one.
pub open spec fn unsigned_part(s: Seq<u8>) -> Seq<u8> {
    if s.len() > 0 && s[0] == PLUS {
        s.drop_first()
    } else {
        s
    }
}

/// What `u32::from_str` gives for the bytes `s`: `None` for an error.
pub open spec fn spec_parse_u32(s: Seq<u8>) -> Option<u32> {
    let d = unsigned_part(s);
    if d.len() > 0 && all_digits(d) && digits_value(d) <= u32::MAX {
        Some(digits_value(d) as u32)
    } else {
        None
    }
}

/// Ten to the power `n`.
pub open spec fn pow10(n: nat) -> int
    decreases n,
{
    if n == 0 {
        1
    } else {
        10 * pow10((n - 1) as nat)
    }
}

/// A number written with `n` decimal digits lies in `[0, 10^n)`.
pub proof fn lemma_digits_value_bounds(s: Seq<u8>)
    requires
        all_digits(s),
    ensures
        0 <= digits_value(s) < pow10(s.len()),
    decreases s.len(),
{
    if s.len() > 0 {
        assert(is_digit(s[s.len() - 1]));
        lemma_digits_value_bounds(s.drop_last());
    }
}

/// Writing more digits after a number never makes it smaller.
pub proof fn lemma_digits_value_prefix(s: Seq<u8>, j: int)
    requires
        all_digits(s),
        0 <= j <= s.len(),
    ensures
        digits_value(s.take(j)) <= digits_value(s),
    decreases s.len(),
{
    if j < s.len() {
        assert(is_digit(s[s.len() - 1]));
        assert(s.drop_last().take(j) =~= s.take(j));
        lemma_digits_value_prefix(s.drop_last(), j);
        lemma_digits_value_bounds(s.drop_last());
    } else {
        assert(s.take(j) =~= s);
    }
}

/// Reads `s` as `u32::from_str` does; `None` where it reports an error.
pub fn parse_u32(s: &[u8]) -> (r: Option<u32>)
    ensures
        r == spec_parse_u32(s@),
        r is Some ==> s@.len() > 0 && forall|i: int| 0 <= i < s@.len() ==> (48 <= #[trigger] s@[i] <= 57
            || (i == 0 && s@[i] == 43)),
{
    proof {
        lemma_parse_u32_accepts_only_digits(s@);
    }
    let start: usize = if s.len() > 0 && s[0] == PLUS { 1 } else { 0 };
    let ghost d = unsigned_part(s@);
    assert(d =~= s@.subrange(start as int, s@.len() as int));
    if start >= s.len() {
        return None;
    }
    let mut acc: u64 = 0;
    let mut i: usize = start;
    while i < s.len()
        invariant
            start <= i <= s.len(),
            d =~= s@.subrange(start as int, s@.len() as int),
            d == unsigned_part(s@),
            all_digits(d.take(i - start)),
            acc == digits_value(d.take(i - start)),
            acc <= u32::MAX,
        decreases s.len() - i,
    {
        let b = s[i];
        let ghost k: int = i - start;
        assert(d[k] == b);
        if b < ZERO || b > NINE {
            assert(!is_digit(d[k]));
            return None;
        }
        assert(d.take(k + 1).drop_last() =~= d.take(k));
        assert(d.take(k + 1).last() == b);
        let next: u64 = acc * 10 + (b - ZERO) as u64;
        assert(next == digits_value(d.take(k + 1)));
        assert(all_digits(d.take(k + 1))) by {
            assert forall|j: int| 0 <= j < k + 1 implies #[trigger] is_digit(d.take(k + 1)[j]) by {
                if j < k {
                    assert(d.take(k + 1)[j] == d.take(k)[j]);
                }
            }
        }
        if next > u32::MAX as u64 {
            proof {
                if all_digits(d) {
                    lemma_digits_value_prefix(d, k + 1);
                }
            }
            return None;
        }
        acc = next;
        i = i + 1;
    }
    assert(d.take(i - start) =~= d);
    Some(acc as u32)
}

/// `u32::from_str` accepts only decimal digits, with at most a leading `+`: a text
/// it reads is not empty, is not a lone `+`, and every byte is an ASCII digit
/// except a `+` in first place. Conversely, one to nine digits always read.
pub proof fn lemma_parse_u32_accepts_only_digits(s: Seq<u8>)
    ensures
        spec_parse_u32(s) is Some ==> {
            &&& s.len() > 0
            &&& (s[0] == 43 ==> s.len() > 1)
            &&& forall|i: int| 0 <= i < s.len() ==> (48 <= #[trigger] s[i] <= 57 || (i == 0 && s[i] == 43))
        },
        (0 < s.len() <= 9 && forall|i: int| 0 <= i < s.len() ==> 48 <= #[trigger] s[i] <= 57)
            ==> spec_parse_u32(s) is Some,
{
    let d = unsigned_part(s);
    if spec_parse_u32(s) is Some {
        assert forall|i: int| 0 <= i < s.len() implies (48 <= #[trigger] s[i] <= 57 || (i == 0
            && s[i] == 43)) by {
            if s[0] == PLUS {
                if i > 0 {
                    assert(d[i - 1] == s[i]);
                    assert(is_digit(d[i - 1]));
                }
            } else {
                assert(is_digit(d[i]));
            }
        }
    }
    if 0 < s.len() <= 9 && forall|i: int| 0 <= i < s.len() ==> 48 <= #[trigger] s[i] <= 57 {
        assert(s[0] != PLUS);
        assert(d == s);
        assert(all_digits(d)) by {
            assert forall|i: int| 0 <= i < d.len() implies #[trigger] is_digit(d[i]) by {
                assert(48 <= s[i] <= 57);
            }
        }
        lemma_digits_value_bounds(d);
        lemma_pow10_at_most_9(d.len());
    }
}

/// Powers of ten grow with the exponent.
pub proof fn lemma_pow10_monotone(m: nat, n: nat)
    requires
        m <= n,
    ensures
        0 < pow10(m) <= pow10(n),
    decreases n,
{
    if m < n {
        lemma_pow10_monotone(m, (n - 1) as nat);
    } else if n > 0 {
        lemma_pow10_monotone((n - 1) as nat, (n - 1) as nat);
    }
}

/// Ten to a power of at most nine is at most a billion.
proof fn lemma_pow10_at_most_9(n: nat)
    requires
        n <= 9,
    ensures
        pow10(n) <= 1_000_000_000,
{
    lemma_pow10_monotone(n, 9);
    assert(pow10(9) == 1_000_000_000) by {
        reveal_with_fuel(pow10, 10);
    }
}

/// Writing one more digit `c` after a number that reads as `v` gives `10 v + c`,
/// as long as that still fits a `u32`.
pub proof fn lemma_parse_u32_append_digit(s: Seq<u8>, c: u8)
    requires
        spec_parse_u32(s) is Some,
        48 <= c <= 57,
        spec_parse_u32(s).unwrap() * 10 + (c - 48) <= u32::MAX,
    ensures
        spec_parse_u32(s.push(c)) == Some((spec_parse_u32(s).unwrap() * 10 + (c - 48)) as u32),
{
    let d = unsigned_part(s);
    let e = unsigned_part(s.push(c));
    assert(s.push(c)[0] == s[0]);
    if s[0] == PLUS {
        assert(e =~= d.push(c));
    } else {
        assert(e =~= d.push(c));
    }
    assert(e.drop_last() =~= d);
    assert(e.len() > 0 && e.last() == c);
    assert(all_digits(e)) by {
        assert forall|i: int| 0 <= i < e.len() implies #[trigger] is_digit(e[i]) by {
            if i < d.len() {
                assert(e[i] == d[i]);
            }
        }
    }
    lemma_digits_value_bounds(d);
    assert(spec_parse_u32(s).unwrap() == digits_value(d));
    assert(digits_value(e) == digits_value(d) * 10 + (c - ZERO));
    assert(e.len() > 0);
}

/// A leading `+` changes nothing: `+` followed by a text that does not itself
/// start with `+` reads as that text does.
pub proof fn lemma_parse_u32_plus(s: Seq<u8>)
    requires
        s.len() > 0,
        s[0] != 43,
    ensures
        spec_parse_u32(seq![43u8] + s) == spec_parse_u32(s),
{
    assert((seq![43u8] + s).drop_first() =~= s);
}

} // verus!
