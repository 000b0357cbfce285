//! A Party's identifier, and its text form.
use vstd::prelude::*;

use crate::text::chars_of;

verus! {

/// A Party, by its 128-bit identifier.
#[derive(Clone, Copy, Debug, PartialEq, Eq, Structural)]
pub struct PartyId(pub u128);

/// The value of a hexadecimal digit, either case; `None` for any other character.
pub open spec fn hex_digit_value(c: char) -> Option<nat> {
    if '0' <= c <= '9' {
        Some((c as nat - '0' as nat) as nat)
    } else if 'a' <= c <= 'f' {
        Some((c as nat - 'a' as nat + 10) as nat)
    } else if 'A' <= c <= 'F' {
        Some((c as nat - 'A' as nat + 10) as nat)
    } else {
        None
    }
}

/// The positions of the four hyphens in the text form of an identifier.
pub open spec fn is_hyphen_position(i: int) -> bool {
    i == 8 || i == 13 || i == 18 || i == 23
}

/// The text form of an identifier: 36 characters, hyphens at positions 8, 13,
/// 18 and 23 and a hexadecimal digit everywhere else
/// (`00000000-0000-0000-0000-000000000007`).
pub open spec fn is_party_text(s: Seq<char>) -> bool {
    &&& s.len() == 36
    &&& forall|i: int|
        0 <= i < 36 ==> if is_hyphen_position(i) {
            s[i] == '-'
        } else {
            hex_digit_value(#[trigger] s[i]) is Some
        }
}

/// The number that the hexadecimal digits of `s` spell, most significant
/// first, hyphens passed over.
pub open spec fn hex_value(s: Seq<char>) -> nat
    decreases s.len(),
{
    if s.len() == 0 {
        0
    } else if s.last() == '-' {
        hex_value(s.drop_last())
    } else {
        hex_value(s.drop_last()) * 16 + hex_digit_value(s.last()).unwrap_or(0)
    }
}

/// The Party that a text names, if it is the text form of an identifier.
pub open spec fn party_of_text(s: Seq<char>) -> Option<PartyId> {
    if is_party_text(s) {
        Some(PartyId(hex_value(s) as u128))
    } else {
        None
    }
}

/// Why a text that is not the text form of an identifier is refused.
pub open spec fn party_refusal(text: Seq<char>) -> Seq<char> {
    "party '"@ + text + "' is not a Party identifier"@
}

/// Why `text`, which is not the text form of an identifier, is refused.
pub fn refuse_party(text: &str) -> (why: String)
    ensures
        why@ == party_refusal(text@),
{
    let mut why = String::from_str("party '");
    why.append(text);
    why.append("' is not a Party identifier");
    why
}

pub open spec fn pow16(n: nat) -> nat
    decreases n,
{
    if n == 0 {
        1
    } else {
        16 * pow16((n - 1) as nat)
    }
}

/// The number of digit positions below `i` in the text form.
pub open spec fn digits_before(i: int) -> int {
    i - (if i > 8 { 1int } else { 0 }) - (if i > 13 { 1int } else { 0 }) - (if i > 18 {
        1int
    } else {
        0
    }) - (if i > 23 { 1int } else { 0 })
}

proof fn lemma_pow16_monotonic(a: nat, b: nat)
    requires
        a <= b,
    ensures
        pow16(a) <= pow16(b),
    decreases b,
{
    if a < b {
        lemma_pow16_monotonic(a, (b - 1) as nat);
    }
}

proof fn lemma_pow16_32()
    ensures
        pow16(32) == 0x1_0000_0000_0000_0000_0000_0000_0000_0000,
{
    reveal_with_fuel(pow16, 33);
}

fn hex_digit(c: char) -> (r: Option<u128>)
    ensures
        match hex_digit_value(c) {
            Some(d) => r == Some(d as u128),
            None => r is None,
        },
        r matches Some(d) ==> d < 16,
{
    if '0' <= c && c <= '9' {
        Some((c as u32 - '0' as u32) as u128)
    } else if 'a' <= c && c <= 'f' {
        Some((c as u32 - 'a' as u32 + 10) as u128)
    } else if 'A' <= c && c <= 'F' {
        Some((c as u32 - 'A' as u32 + 10) as u128)
    } else {
        None
    }
}

impl PartyId {
    /// The Party with identifier `n`.
    pub fn new(n: u128) -> (p: PartyId)
        ensures
            p == PartyId(n),
    {
        PartyId(n)
    }

    /// Reads the text form of an identifier; `None` where `text` is not one.
    pub fn parse(text: &str) -> (r: Option<PartyId>)
        ensures
            r == party_of_text(text@),
    {
        let cs = chars_of(text);
        if cs.len() != 36 {
            return None;
        }
        let mut acc: u128 = 0;
        let mut i: usize = 0;
        while i < 36
            invariant
                cs@ == text@,
                cs.len() == 36,
                0 <= i <= 36,
                forall|j: int|
                    0 <= j < i ==> if is_hyphen_position(j) {
                        cs@[j] == '-'
                    } else {
                        hex_digit_value(#[trigger] cs@[j]) is Some
                    },
                acc == hex_value(cs@.take(i as int)),
                acc < pow16(digits_before(i as int) as nat),
            decreases 36 - i,
        {
            let c = cs[i];
            assert(cs@.take(i + 1).drop_last() =~= cs@.take(i as int));
            if i == 8 || i == 13 || i == 18 || i == 23 {
                if c != '-' {
                    return None;
                }
            } else {
                match hex_digit(c) {
                    None => {
                        return None;
                    },
                    Some(d) => {
                        proof {
                            lemma_pow16_monotonic((digits_before(i as int) + 1) as nat, 32);
                            lemma_pow16_32();
                        }
                        acc = acc * 16 + d;
                    },
                }
            }
            i = i + 1;
        }
        assert(cs@.take(36) =~= cs@);
        Some(PartyId(acc))
    }
}

} // verus!
