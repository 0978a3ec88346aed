//! Whole numbers read from text: an optional sign, then decimal digits.

use vstd::prelude::*;
use vstd::string::*;

verus! {

/// The value of a decimal digit; `None` for any other character.
pub open spec fn digit_value(c: char) -> Option<nat> {
    if 0x30 <= c as u32 <= 0x39 {
        Some((c as u32 - 0x30) as nat)
    } else {
        None
    }
}

/// The value of a run of decimal digits, the empty run counting as zero; `None` where
/// a character is no digit.
pub open spec fn digits_value(s: Seq<char>) -> Option<nat>
    decreases s.len(),
{
    if s.len() == 0 {
        Some(0)
    } else {
        match (digits_value(s.drop_last()), digit_value(s.last())) {
            (Some(v), Some(d)) => Some(v * 10 + d),
            _ => None,
        }
    }
}

/// Whether a text begins with a sign.
pub open spec fn has_sign(s: Seq<char>) -> bool {
    s.len() > 0 && (s[0] == '-' || s[0] == '+')
}

/// The digits of a text: what follows its sign, or all of it.
pub open spec fn digits_part(s: Seq<char>) -> Seq<char> {
    if has_sign(s) {
        s.drop_first()
    } else {
        s
    }
}

/// The number that a text denotes: an optional `+` or `-`, then at least one digit and
/// nothing else. `None` for any other text.
pub open spec fn signed_value(s: Seq<char>) -> Option<int> {
    let body = digits_part(s);
    if body.len() == 0 {
        None
    } else {
        match digits_value(body) {
            Some(v) => Some(
                if s[0] == '-' {
                    -(v as int)
                } else {
                    v as int
                },
            ),
            None => None,
        }
    }
}

/// The number that a text denotes, where it is one of 32 bits with a sign.
pub open spec fn i32_value(s: Seq<char>) -> Option<i32> {
    match signed_value(s) {
        Some(n) => if i32::MIN <= n <= i32::MAX {
            Some(n as i32)
        } else {
            None
        },
        None => None,
    }
}

/// Where a run of digits has a value, so has each of its beginnings, and a value
/// that is no larger.
pub proof fn lemma_digits_prefix(s: Seq<char>, k: int)
    requires
        0 <= k <= s.len(),
        digits_value(s) is Some,
    ensures
        digits_value(s.subrange(0, k)) is Some,
        digits_value(s.subrange(0, k))->0 <= digits_value(s)->0,
    decreases s.len() - k,
{
    if k == s.len() {
        assert(s.subrange(0, k) =~= s);
    } else {
        lemma_digits_prefix(s.drop_last(), k);
        assert(s.drop_last().subrange(0, k) =~= s.subrange(0, k));
    }
}

/// Reads a number of 32 bits with a sign.
pub fn parse_i32(text: &str) -> (r: Option<i32>)
    ensures
        r == i32_value(text@),
{
    let n = text.unicode_len();
    if n == 0 {
        return None;
    }
    let first = text.get_char(0);
    let negative = first == '-';
    let start: usize = if first == '-' || first == '+' {
        1
    } else {
        0
    };
    let ghost body = digits_part(text@);
    assert(body =~= text@.subrange(start as int, n as int));
    if start == n {
        return None;
    }
    let mut acc: u64 = 0;
    let mut i: usize = start;
    assert(body.subrange(0, 0) =~= Seq::<char>::empty());
    while i < n
        invariant
            start <= i <= n,
            n == text@.len(),
            body == text@.subrange(start as int, n as int),
            body == digits_part(text@),
            digits_value(body.subrange(0, i - start)) == Some(acc as nat),
            acc <= 0x8000_0000,
        decreases n - i,
    {
        let c = text.get_char(i);
        let u: u32 = c as u32;
        proof {
            let upto = body.subrange(0, i + 1 - start);
            assert(upto.drop_last() =~= body.subrange(0, i - start));
            assert(upto.last() == c);
            if digits_value(body) is Some {
                lemma_digits_prefix(body, i + 1 - start);
            }
        }
        if u < 0x30 || u > 0x39 {
            return None;
        }
        acc = acc * 10 + (u - 0x30) as u64;
        if acc > 0x8000_0000 {
            return None;
        }
        i += 1;
    }
    assert(body.subrange(0, n - start) =~= body);
    if negative {
        if acc == 0x8000_0000 {
            Some(i32::MIN)
        } else {
            Some(-(acc as i32))
        }
    } else if acc == 0x8000_0000 {
        None
    } else {
        Some(acc as i32)
    }
}

} // verus!
