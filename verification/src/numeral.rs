//! Unsigned numerals in decimal and hexadecimal, as bytes of text.

use vstd::prelude::*;
use vstd::slice::slice_subrange;

verus! {

/// The two notations the scanner reads.
#[derive(Clone, Copy, Debug, PartialEq, Eq, Structural)]
pub enum Radix {
    Decimal,
    Hex,
}

impl Radix {
    /// The number of distinct digits of the notation.
    pub open spec fn base(self) -> nat {
        match self {
            Radix::Decimal => 10,
            Radix::Hex => 16,
        }
    }
}

/// The value a byte has as a digit, whatever the notation: `0`-`9`, then
/// `a`-`f` or `A`-`F` for ten to fifteen.
pub open spec fn digit_weight(b: u8) -> Option<nat> {
    if 0x30 <= b <= 0x39 {
        Some((b - 0x30) as nat)
    } else if 0x61 <= b <= 0x66 {
        Some((b - 0x61 + 10) as nat)
    } else if 0x41 <= b <= 0x46 {
        Some((b - 0x41 + 10) as nat)
    } else {
        None
    }
}

/// The value of `b` as a digit of `radix`, or `None` if it is not one.
pub open spec fn digit_value(b: u8, radix: Radix) -> Option<nat> {
    match digit_weight(b) {
        Some(d) => if d < radix.base() { Some(d) } else { None },
        None => None,
    }
}

/// Every byte of `s` is a digit of `radix`.
pub open spec fn all_digits(s: Seq<u8>, radix: Radix) -> bool {
    forall|i: int| 0 <= i < s.len() ==> digit_value(#[trigger] s[i], radix).is_some()
}

/// The number that the digits of `s` denote, most significant first.
pub open spec fn numeral_value(s: Seq<u8>, radix: Radix) -> nat
    decreases s.len(),
{
    if s.len() == 0 {
        0
    } else {
        numeral_value(s.drop_last(), radix) * radix.base() + digit_value(
            s.last(),
            radix,
        ).unwrap_or(0)
    }
}

/// What a text denotes: a number, if the text is one or more digits of
/// `radix` and the number is at most `limit`.
pub open spec fn parsed(s: Seq<u8>, radix: Radix, limit: u64) -> Option<u64> {
    if s.len() > 0 && all_digits(s, radix) && numeral_value(s, radix) <= limit {
        Some(numeral_value(s, radix) as u64)
    } else {
        None
    }
}

/// The digits of a numeral that may begin with one sign, `+` or `-`.
pub open spec fn magnitude_text(s: Seq<u8>) -> Seq<u8> {
    if s.len() > 0 && (s[0] == 0x2b || s[0] == 0x2d) {
        s.subrange(1, s.len() as int)
    } else {
        s
    }
}

/// The numeral begins with `-`.
pub open spec fn is_negative(s: Seq<u8>) -> bool {
    s.len() > 0 && s[0] == 0x2d
}

/// What a text denotes as a signed numeral: a number, if the text is one
/// or more digits of `radix` after at most one sign, and the number lies
/// between `lowest` and `highest`.
pub open spec fn parsed_signed(s: Seq<u8>, radix: Radix, lowest: i64, highest: i64) -> Option<i64> {
    let digits = magnitude_text(s);
    let value = if is_negative(s) {
        -(numeral_value(digits, radix) as int)
    } else {
        numeral_value(digits, radix) as int
    };
    if digits.len() > 0 && all_digits(digits, radix) && lowest <= value <= highest {
        Some(value as i64)
    } else {
        None
    }
}

/// A numeral is worth at least as much as each of its prefixes.
pub proof fn lemma_prefix_value(s: Seq<u8>, k: int, radix: Radix)
    requires
        0 <= k <= s.len(),
    ensures
        numeral_value(s.subrange(0, k), radix) <= numeral_value(s, radix),
    decreases s.len(),
{
    if k == s.len() {
        assert(s.subrange(0, k) =~= s);
    } else {
        lemma_prefix_value(s.drop_last(), k, radix);
        assert(s.drop_last().subrange(0, k) =~= s.subrange(0, k));
        let v = numeral_value(s.drop_last(), radix);
        let b = radix.base();
        assert(v * b >= v) by (nonlinear_arith)
            requires
                b >= 1,
                v >= 0,
        ;
    }
}

/// Reads one digit.
pub fn digit_of(b: u8, radix: Radix) -> (d: Option<u8>)
    ensures
        match d {
            Some(v) => digit_value(b, radix) == Some(v as nat),
            None => digit_value(b, radix).is_none(),
        },
{
    let base: u8 = match radix {
        Radix::Decimal => 10,
        Radix::Hex => 16,
    };
    let weight: u8 = if 0x30 <= b && b <= 0x39 {
        b - 0x30
    } else if 0x61 <= b && b <= 0x66 {
        b - 0x61 + 10
    } else if 0x41 <= b && b <= 0x46 {
        b - 0x41 + 10
    } else {
        return None;
    };
    if weight < base {
        Some(weight)
    } else {
        None
    }
}

/// Reads an unsigned numeral: one or more digits of `radix`, nothing else,
/// worth at most `limit`.
pub fn parse_number(s: &[u8], radix: Radix, limit: u64) -> (r: Option<u64>)
    ensures
        r == parsed(s@, radix, limit),
{
    let n: usize = s.len();
    if n == 0 {
        return None;
    }
    let base: u128 = match radix {
        Radix::Decimal => 10,
        Radix::Hex => 16,
    };
    let mut acc: u128 = 0;
    let mut i: usize = 0;
    while i < n
        invariant
            n == s@.len(),
            i <= n,
            base == radix.base(),
            acc <= limit,
            acc == numeral_value(s@.subrange(0, i as int), radix),
            forall|j: int| 0 <= j < i ==> digit_value(#[trigger] s@[j], radix).is_some(),
        decreases n - i,
    {
        let d: u8 = match digit_of(s[i], radix) {
            Some(d) => d,
            None => {
                return None;
            },
        };
        assert(acc * base <= 0xffff_ffff_ffff_ffff * 16) by (nonlinear_arith)
            requires
                acc <= 0xffff_ffff_ffff_ffff,
                base <= 16,
        ;
        let next: u128 = acc * base + d as u128;
        proof {
            let head = s@.subrange(0, i + 1);
            assert(head.drop_last() =~= s@.subrange(0, i as int));
            assert(head.last() == s@[i as int]);
            assert(next == numeral_value(head, radix));
        }
        if next > limit as u128 {
            proof {
                lemma_prefix_value(s@, i + 1, radix);
            }
            return None;
        }
        acc = next;
        i += 1;
    }
    assert(s@.subrange(0, n as int) =~= s@);
    Some(acc as u64)
}

/// Reads a signed numeral: at most one sign, `+` or `-`, then one or more
/// digits of `radix` and nothing else, worth no less than `lowest` and no
/// more than `highest`.
pub fn parse_signed(s: &[u8], radix: Radix, lowest: i64, highest: i64) -> (r: Option<i64>)
    ensures
        r == parsed_signed(s@, radix, lowest, highest),
{
    let negative = s.len() > 0 && s[0] == 0x2d;
    let digits = if s.len() > 0 && (s[0] == 0x2b || s[0] == 0x2d) {
        slice_subrange(s, 1, s.len())
    } else {
        s
    };
    match parse_number(digits, radix, 0x8000_0000_0000_0000) {
        None => None,
        Some(magnitude) => {
            let value: i128 = if negative {
                0 - (magnitude as i128)
            } else {
                magnitude as i128
            };
            if lowest as i128 <= value && value <= highest as i128 {
                Some(value as i64)
            } else {
                None
            }
        },
    }
}

} // verus!
