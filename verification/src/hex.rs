//! Lowercase hexadecimal text: the two digits of a byte and the padded
//! digits of an address.

use vstd::prelude::*;

verus! {

/// The lowercase digit for a value below sixteen.
pub open spec fn hex_char(n: nat) -> char {
    if n < 10 {
        ((0x30 + n) as u8) as char
    } else {
        ((0x57 + n) as u8) as char
    }
}

/// A character is one of `0`-`9`, `a`-`f`.
pub open spec fn is_lower_hex(c: char) -> bool {
    (0x30 <= c as u32 <= 0x39) || (0x61 <= c as u32 <= 0x66)
}

/// The two digits of a byte, high one first.
pub open spec fn hex_pair(b: u8) -> Seq<char> {
    seq![hex_char((b / 16) as nat), hex_char((b % 16) as nat)]
}

/// The lowest `width` digits of `n`, most significant first, with zeros for
/// the digits that `n` does not have.
pub open spec fn fixed_hex(n: nat, width: nat) -> Seq<char>
    decreases width,
{
    if width == 0 {
        Seq::empty()
    } else {
        fixed_hex(n / 16, (width - 1) as nat).push(hex_char(n % 16))
    }
}

/// The number of digits that `n` takes, at least one.
pub open spec fn digit_count(n: nat) -> nat
    decreases n,
{
    if n < 16 {
        1
    } else {
        1 + digit_count(n / 16)
    }
}

/// An address as the dump shows it: all its digits, padded with zeros on
/// the left to eight.
pub open spec fn address_text(address: usize) -> Seq<char> {
    let count = digit_count(address as nat);
    fixed_hex(address as nat, if count < 8 { 8 } else { count })
}

/// A byte always renders as exactly two lowercase digits.
pub proof fn lemma_hex_pair_shape(b: u8)
    ensures
        hex_pair(b).len() == 2,
        is_lower_hex(hex_pair(b)[0]),
        is_lower_hex(hex_pair(b)[1]),
{
}

/// Appends one character to a string, by `String::push`, which std documents
/// as adding the character at the end and changing nothing before it.
#[verifier::external_body]
pub(crate) fn push_char(s: &mut String, c: char)
    ensures
        final(s)@ == old(s)@.push(c),
{
    s.push(c);
}

/// The lowercase digit for a value below sixteen.
pub fn hex_digit(n: u8) -> (c: char)
    requires
        n < 16,
    ensures
        c == hex_char(n as nat),
{
    if n < 10 {
        (0x30 + n) as char
    } else {
        (0x57 + n) as char
    }
}

/// Renders an address: lowercase hexadecimal, at least eight digits.
pub fn address_field(address: usize) -> (s: String)
    ensures
        s@ == address_text(address),
{
    let mut quotients: Vec<usize> = Vec::new();
    quotients.push(address);
    while quotients[quotients.len() - 1] >= 16
        invariant
            quotients@.len() >= 1,
            quotients@[0] == address,
            forall|i: int|
                0 <= i && i + 1 < quotients@.len() ==> quotients@[i + 1] == (#[trigger] quotients@[i])
                    / 16,
            digit_count(address as nat) == digit_count(quotients@.last() as nat) + quotients@.len()
                - 1,
        decreases quotients@.last(),
    {
        let next: usize = quotients[quotients.len() - 1] / 16;
        quotients.push(next);
    }
    while quotients.len() < 8
        invariant
            quotients@.len() >= 1,
            quotients@[0] == address,
            forall|i: int|
                0 <= i && i + 1 < quotients@.len() ==> quotients@[i + 1] == (#[trigger] quotients@[i])
                    / 16,
            quotients@.len() <= 8 || quotients@.len() == digit_count(address as nat),
            digit_count(address as nat) <= quotients@.len(),
        decreases 8 - quotients@.len(),
    {
        let next: usize = quotients[quotients.len() - 1] / 16;
        quotients.push(next);
    }
    let width: usize = quotients.len();
    let mut s = String::new();
    let mut i: usize = width;
    while i > 0
        invariant
            i <= width,
            width == quotients@.len(),
            forall|k: int|
                0 <= k && k + 1 < quotients@.len() ==> quotients@[k + 1] == (#[trigger] quotients@[k])
                    / 16,
            i < width ==> s@ == fixed_hex(quotients@[i as int] as nat, (width - i) as nat),
            i == width ==> s@ == Seq::<char>::empty(),
        decreases i,
    {
        i -= 1;
        let digit: u8 = (quotients[i] % 16) as u8;
        push_char(&mut s, hex_digit(digit));
        proof {
            if i + 1 < width {
                assert(quotients@[i + 1] == quotients@[i as int] / 16);
            } else {
                assert(fixed_hex(quotients@[i as int] as nat / 16, 0) == Seq::<char>::empty());
            }
        }
    }
    s
}

} // verus!
