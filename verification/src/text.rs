//! Text shaping on character sequences: filling, padding, trimming.
//!
//! Every length in this module is a count of characters, never of bytes.
//! A text is modelled by its view, a `Seq<char>`.

use vstd::prelude::*;
use vstd::string::*;

verus! {

/// The character `c` written `n` times.
pub open spec fn fill_seq(c: char, n: nat) -> Seq<char> {
    Seq::new(n, |i: int| c)
}

/// How many fill characters bring a text of `len` characters up to `width`.
pub open spec fn pad_count(len: nat, width: nat) -> nat {
    if len >= width {
        0
    } else {
        (width - len) as nat
    }
}

/// `text` with fill characters in front, up to `width`; a longer text stays as it is.
pub open spec fn pad_start_seq(text: Seq<char>, width: nat, fill: char) -> Seq<char> {
    fill_seq(fill, pad_count(text.len(), width)) + text
}

/// `text` with fill characters behind, up to `width`; a longer text stays as it is.
pub open spec fn pad_end_seq(text: Seq<char>, width: nat, fill: char) -> Seq<char> {
    text + fill_seq(fill, pad_count(text.len(), width))
}

/// `text` centred in `width`: half of the padding in front, rounded down, the rest behind,
/// so an odd padding puts its extra character on the right.
pub open spec fn pad_both_seq(text: Seq<char>, width: nat, fill: char) -> Seq<char> {
    let pad = pad_count(text.len(), width);
    fill_seq(fill, pad / 2) + text + fill_seq(fill, (pad - pad / 2) as nat)
}

/// The first `n` characters of `text`, or all of it where it is shorter.
pub open spec fn take_seq(text: Seq<char>, n: nat) -> Seq<char> {
    if text.len() <= n {
        text
    } else {
        text.subrange(0, n as int)
    }
}

/// The characters that carry the Unicode property White_Space.
pub open spec fn is_white_space(c: char) -> bool {
    let u = c as u32;
    ||| 0x09 <= u <= 0x0D
    ||| u == 0x20
    ||| u == 0x85
    ||| u == 0xA0
    ||| u == 0x1680
    ||| 0x2000 <= u <= 0x200A
    ||| u == 0x2028
    ||| u == 0x2029
    ||| u == 0x202F
    ||| u == 0x205F
    ||| u == 0x3000
}

/// `s` without its leading white space.
pub open spec fn trim_start_seq(s: Seq<char>) -> Seq<char>
    decreases s.len(),
{
    if s.len() > 0 && is_white_space(s[0]) {
        trim_start_seq(s.drop_first())
    } else {
        s
    }
}

/// `s` without its trailing white space.
pub open spec fn trim_end_seq(s: Seq<char>) -> Seq<char>
    decreases s.len(),
{
    if s.len() > 0 && is_white_space(s.last()) {
        trim_end_seq(s.drop_last())
    } else {
        s
    }
}

/// `s` without leading and trailing white space.
pub open spec fn trim_seq(s: Seq<char>) -> Seq<char> {
    trim_end_seq(trim_start_seq(s))
}

/// Whether `s` begins with a space character (U+0020).
pub open spec fn starts_with_space(s: Seq<char>) -> bool {
    s.len() > 0 && s[0] == ' '
}

/// Whether `s` ends with a space character (U+0020).
pub open spec fn ends_with_space(s: Seq<char>) -> bool {
    s.len() > 0 && s.last() == ' '
}

/// Leading white space is skipped: trimming `s` from the front is trimming what follows
/// a prefix of white space.
pub proof fn lemma_trim_start_skip(s: Seq<char>, k: int)
    requires
        0 <= k <= s.len(),
        forall|i: int| 0 <= i < k ==> is_white_space(#[trigger] s[i]),
    ensures
        trim_start_seq(s) == trim_start_seq(s.subrange(k, s.len() as int)),
    decreases k,
{
    if k == 0 {
        assert(s.subrange(0, s.len() as int) =~= s);
    } else {
        let rest = s.drop_first();
        assert forall|i: int| 0 <= i < k - 1 implies is_white_space(#[trigger] rest[i]) by {
            assert(rest[i] == s[i + 1]);
        }
        lemma_trim_start_skip(rest, k - 1);
        assert(rest.subrange(k - 1, rest.len() as int) =~= s.subrange(k, s.len() as int));
    }
}

/// Trailing white space is dropped: trimming `s` from the end is trimming the part
/// before a suffix of white space.
pub proof fn lemma_trim_end_take(s: Seq<char>, k: int)
    requires
        0 <= k <= s.len(),
        forall|i: int| k <= i < s.len() ==> is_white_space(#[trigger] s[i]),
    ensures
        trim_end_seq(s) == trim_end_seq(s.subrange(0, k)),
    decreases s.len() - k,
{
    if k == s.len() {
        assert(s.subrange(0, k) =~= s);
    } else {
        let rest = s.drop_last();
        assert forall|i: int| k <= i < rest.len() implies is_white_space(#[trigger] rest[i]) by {
            assert(rest[i] == s[i]);
        }
        lemma_trim_end_take(rest, k);
        assert(rest.subrange(0, k) =~= s.subrange(0, k));
    }
}

/// Tells whether `c` is white space.
pub fn char_is_white_space(c: char) -> (r: bool)
    ensures
        r == is_white_space(c),
{
    let u: u32 = c as u32;
    (0x09 <= u && u <= 0x0D) || u == 0x20 || u == 0x85 || u == 0xA0 || u == 0x1680 || (0x2000 <= u
        && u <= 0x200A) || u == 0x2028 || u == 0x2029 || u == 0x202F || u == 0x205F || u == 0x3000
}

/// Writes the one-character text `glyph` `n` times.
pub fn fill_str(glyph: &str, n: usize) -> (out: String)
    requires
        glyph@.len() == 1,
    ensures
        out@ == fill_seq(glyph@[0], n as nat),
{
    let mut out = String::new();
    let mut k: usize = 0;
    while k < n
        invariant
            k <= n,
            glyph@.len() == 1,
            out@ == fill_seq(glyph@[0], k as nat),
        decreases n - k,
    {
        out.append(glyph);
        k += 1;
        assert(out@ =~= fill_seq(glyph@[0], k as nat));
    }
    out
}

/// Pads `text` in front with the one-character text `fill`, up to `width` characters.
pub fn pad_start(text: &str, width: usize, fill: &str) -> (out: String)
    requires
        fill@.len() == 1,
    ensures
        out@ == pad_start_seq(text@, width as nat, fill@[0]),
{
    let len = text.unicode_len();
    let pad: usize = if len >= width {
        0
    } else {
        width - len
    };
    let mut out = fill_str(fill, pad);
    out.append(text);
    out
}

/// Pads `text` behind with the one-character text `fill`, up to `width` characters.
pub fn pad_end(text: &str, width: usize, fill: &str) -> (out: String)
    requires
        fill@.len() == 1,
    ensures
        out@ == pad_end_seq(text@, width as nat, fill@[0]),
{
    let len = text.unicode_len();
    let pad: usize = if len >= width {
        0
    } else {
        width - len
    };
    let mut out = String::from_str(text);
    let tail = fill_str(fill, pad);
    out.append(tail.as_str());
    out
}

/// Centres `text` in `width` characters with the one-character text `fill`.
pub fn pad_both(text: &str, width: usize, fill: &str) -> (out: String)
    requires
        fill@.len() == 1,
    ensures
        out@ == pad_both_seq(text@, width as nat, fill@[0]),
{
    let len = text.unicode_len();
    let pad: usize = if len >= width {
        0
    } else {
        width - len
    };
    let front: usize = pad / 2;
    let mut out = fill_str(fill, front);
    out.append(text);
    let tail = fill_str(fill, pad - front);
    out.append(tail.as_str());
    out
}

/// The first `n` characters of `text`, or all of it where it is shorter.
pub fn take_chars(text: &str, n: usize) -> (out: &str)
    ensures
        out@ == take_seq(text@, n as nat),
{
    let len = text.unicode_len();
    if len <= n {
        text
    } else {
        text.substring_char(0, n)
    }
}

/// Removes trailing white space.
pub fn trim_end(s: &str) -> (out: &str)
    ensures
        out@ == trim_end_seq(s@),
{
    let len = s.unicode_len();
    let mut end: usize = len;
    while end > 0 && char_is_white_space(s.get_char(end - 1))
        invariant
            end <= len,
            len == s@.len(),
            forall|i: int| end <= i < len ==> is_white_space(#[trigger] s@[i]),
        decreases end,
    {
        end -= 1;
    }
    proof {
        lemma_trim_end_take(s@, end as int);
        let kept = s@.subrange(0, end as int);
        if end > 0 {
            assert(kept.last() == s@[end - 1]);
        }
        assert(trim_end_seq(kept) == kept);
    }
    s.substring_char(0, end)
}

/// Removes leading white space.
pub fn trim_start(s: &str) -> (out: &str)
    ensures
        out@ == trim_start_seq(s@),
{
    let len = s.unicode_len();
    let mut start: usize = 0;
    while start < len && char_is_white_space(s.get_char(start))
        invariant
            start <= len,
            len == s@.len(),
            forall|i: int| 0 <= i < start ==> is_white_space(#[trigger] s@[i]),
        decreases len - start,
    {
        start += 1;
    }
    proof {
        lemma_trim_start_skip(s@, start as int);
        let kept = s@.subrange(start as int, len as int);
        if start < len {
            assert(kept[0] == s@[start as int]);
        }
        assert(trim_start_seq(kept) == kept);
    }
    s.substring_char(start, len)
}

/// Removes leading and trailing white space.
pub fn trim(s: &str) -> (out: &str)
    ensures
        out@ == trim_seq(s@),
{
    trim_end(trim_start(s))
}

/// Tells whether `s` begins with a space.
pub fn begins_with_space(s: &str) -> (r: bool)
    ensures
        r == starts_with_space(s@),
{
    s.unicode_len() > 0 && s.get_char(0) == ' '
}

/// Tells whether `s` ends with a space.
pub fn finishes_with_space(s: &str) -> (r: bool)
    ensures
        r == ends_with_space(s@),
{
    let len = s.unicode_len();
    len > 0 && s.get_char(len - 1) == ' '
}

/// The decimal digit of a number below ten.
pub open spec fn digit_char(d: nat) -> char {
    if d == 0 {
        '0'
    } else if d == 1 {
        '1'
    } else if d == 2 {
        '2'
    } else if d == 3 {
        '3'
    } else if d == 4 {
        '4'
    } else if d == 5 {
        '5'
    } else if d == 6 {
        '6'
    } else if d == 7 {
        '7'
    } else if d == 8 {
        '8'
    } else {
        '9'
    }
}

/// A number in decimal digits, without leading zeros; zero is `0`.
pub open spec fn decimal_seq(n: nat) -> Seq<char>
    decreases n,
{
    if n < 10 {
        seq![digit_char(n)]
    } else {
        decimal_seq(n / 10).push(digit_char(n % 10))
    }
}

/// The digit of a number below ten, as a text of one character.
pub fn digit_str(d: u64) -> (s: &'static str)
    requires
        d < 10,
    ensures
        s@ == seq![digit_char(d as nat)],
{
    proof {
        reveal_strlit("0123456789");
    }
    let s = "0123456789".substring_char(d as usize, d as usize + 1);
    assert(s@ =~= seq![digit_char(d as nat)]);
    s
}

/// Writes a number in decimal digits.
pub fn decimal(n: u64) -> (out: String)
    ensures
        out@ == decimal_seq(n as nat),
    decreases n,
{
    if n < 10 {
        String::from_str(digit_str(n))
    } else {
        let mut out = decimal(n / 10);
        out.append(digit_str(n % 10));
        assert(out@ =~= decimal_seq(n as nat));
        out
    }
}

/// Tells whether two texts hold the same characters.
pub fn same_text(a: &str, b: &str) -> (r: bool)
    ensures
        r == (a@ == b@),
{
    let x = String::from_str(a);
    let y = String::from_str(b);
    x == y
}

/// `front` and `back` in one text.
pub fn join(front: &str, back: &str) -> (out: String)
    ensures
        out@ == front@ + back@,
{
    let mut out = String::from_str(front);
    out.append(back);
    out
}

} // verus!
