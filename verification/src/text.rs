//! Text helpers: decimal numerals, prefixes and joins.

use vstd::prelude::*;
use vstd::string::*;

verus! {

/// The decimal digit that stands for `d`, a number below ten.
pub open spec fn digit_char(d: nat) -> char {
    if d == 0 {
        '0'
    } else if d == 1 {
        '1'
    } else if d == 2 {
        '2'
    } else if d == 3 {
        '3'
    } else if d == 4 {
        '4'
    } else if d == 5 {
        '5'
    } else if d == 6 {
        '6'
    } else if d == 7 {
        '7'
    } else if d == 8 {
        '8'
    } else {
        '9'
    }
}

/// The number that a decimal digit stands for; `None` for any other character.
pub open spec fn digit_value(c: char) -> Option<nat> {
    if c == '0' {
        Some(0)
    } else if c == '1' {
        Some(1)
    } else if c == '2' {
        Some(2)
    } else if c == '3' {
        Some(3)
    } else if c == '4' {
        Some(4)
    } else if c == '5' {
        Some(5)
    } else if c == '6' {
        Some(6)
    } else if c == '7' {
        Some(7)
    } else if c == '8' {
        Some(8)
    } else if c == '9' {
        Some(9)
    } else {
        None
    }
}

/// The decimal numeral of `n`: no sign, no leading zero.
pub open spec fn decimal_text(n: nat) -> Seq<char>
    decreases n,
{
    if n < 10 {
        seq![digit_char(n)]
    } else {
        decimal_text(n / 10).push(digit_char(n % 10))
    }
}

/// The number that a decimal numeral stands for. Text that is empty, holds
/// anything but digits, or starts with a needless zero stands for none.
pub open spec fn decimal_value(s: Seq<char>) -> Option<nat>
    decreases s.len(),
{
    if s.len() == 0 {
        None
    } else {
        match digit_value(s.last()) {
            None => None,
            Some(d) => if s.len() == 1 {
                Some(d)
            } else {
                match decimal_value(s.drop_last()) {
                    Some(p) => if p > 0 {
                        Some(p * 10 + d)
                    } else {
                        None
                    },
                    None => None,
                }
            },
        }
    }
}

/// The decimal numeral of an integer: that of its magnitude, behind a minus
/// sign if the integer is negative.
pub open spec fn integer_text(i: int) -> Seq<char> {
    if i < 0 {
        seq!['-'] + decimal_text((-i) as nat)
    } else {
        decimal_text(i as nat)
    }
}

/// The 16-bit number that a decimal numeral stands for, if it fits.
pub open spec fn decimal_u16(s: Seq<char>) -> Option<u16> {
    match decimal_value(s) {
        Some(n) => if n <= 0xffff {
            Some(n as u16)
        } else {
            None
        },
        None => None,
    }
}

/// `parts` written one after the other, with `sep` between neighbours.
pub open spec fn joined(parts: Seq<Seq<char>>, sep: Seq<char>) -> Seq<char>
    decreases parts.len(),
{
    if parts.len() == 0 {
        Seq::empty()
    } else if parts.len() == 1 {
        parts[0]
    } else {
        joined(parts.drop_last(), sep) + sep + parts.last()
    }
}

/// A numeral is never empty.
pub proof fn lemma_decimal_text_len(n: nat)
    ensures
        decimal_text(n).len() >= 1,
    decreases n,
{
    if n >= 10 {
        lemma_decimal_text_len(n / 10);
    }
}

/// Reading a numeral gives back the number it was written from.
pub proof fn lemma_decimal_round_trip(n: nat)
    ensures
        decimal_value(decimal_text(n)) == Some(n),
    decreases n,
{
    if n >= 10 {
        let head = decimal_text(n / 10);
        let whole = head.push(digit_char(n % 10));
        lemma_decimal_text_len(n / 10);
        lemma_decimal_round_trip(n / 10);
        assert(whole.last() == digit_char(n % 10));
        assert(whole.drop_last() =~= head);
        assert(digit_value(digit_char(n % 10)) == Some(n % 10));
    } else {
        assert(decimal_text(n).last() == digit_char(n));
    }
}

/// Text with a prefix that is no numeral is no numeral.
pub proof fn lemma_decimal_prefix_none(s: Seq<char>, k: int)
    requires
        1 <= k <= s.len(),
        decimal_value(s.take(k)) is None,
    ensures
        decimal_value(s) is None,
    decreases s.len() - k,
{
    if k == s.len() {
        assert(s.take(k) =~= s);
    } else {
        assert(s.drop_last().take(k) =~= s.take(k));
        lemma_decimal_prefix_none(s.drop_last(), k);
    }
}

/// A numeral stands for at least as much as any numeral it starts with.
pub proof fn lemma_decimal_prefix_grows(s: Seq<char>, k: int)
    requires
        1 <= k <= s.len(),
        decimal_value(s.take(k)) is Some,
        decimal_value(s) is Some,
    ensures
        decimal_value(s.take(k))->0 <= decimal_value(s)->0,
    decreases s.len() - k,
{
    if k == s.len() {
        assert(s.take(k) =~= s);
    } else {
        assert(s.drop_last().take(k) =~= s.take(k));
        lemma_decimal_prefix_grows(s.drop_last(), k);
    }
}

/// The one-character text of a digit.
fn digit_str(d: u64) -> (r: &'static str)
    requires
        d < 10,
    ensures
        r@ == seq![digit_char(d as nat)],
{
    proof {
        reveal_strlit("0");
        reveal_strlit("1");
        reveal_strlit("2");
        reveal_strlit("3");
        reveal_strlit("4");
        reveal_strlit("5");
        reveal_strlit("6");
        reveal_strlit("7");
        reveal_strlit("8");
        reveal_strlit("9");
    }
    let r = if d == 0 {
        "0"
    } else if d == 1 {
        "1"
    } else if d == 2 {
        "2"
    } else if d == 3 {
        "3"
    } else if d == 4 {
        "4"
    } else if d == 5 {
        "5"
    } else if d == 6 {
        "6"
    } else if d == 7 {
        "7"
    } else if d == 8 {
        "8"
    } else {
        "9"
    };
    assert(r@ =~= seq![digit_char(d as nat)]);
    r
}

/// Appends the decimal numeral of `n` to `out`.
pub fn append_decimal(out: &mut String, n: u64)
    ensures
        final(out)@ == old(out)@ + decimal_text(n as nat),
    decreases n,
{
    if n >= 10 {
        append_decimal(out, n / 10);
    }
    out.append(digit_str(n % 10));
    assert(out@ =~= old(out)@ + decimal_text(n as nat));
}

/// The decimal numeral of `n`.
pub fn decimal(n: u64) -> (r: String)
    ensures
        r@ == decimal_text(n as nat),
{
    let mut out = String::new();
    append_decimal(&mut out, n);
    assert(out@ =~= decimal_text(n as nat));
    out
}

/// The decimal numeral of `i`, with a minus sign if `i` is negative.
pub fn integer(i: i64) -> (r: String)
    ensures
        r@ == integer_text(i as int),
{
    if i < 0 {
        let magnitude: u64 = if i == i64::MIN {
            0x8000_0000_0000_0000
        } else {
            (-i) as u64
        };
        let mut out = String::from_str("-");
        append_decimal(&mut out, magnitude);
        proof {
            reveal_strlit("-");
            assert(out@ =~= integer_text(i as int));
        }
        out
    } else {
        decimal(i as u64)
    }
}

/// The number that the digit `c` stands for.
fn digit_of(c: char) -> (r: Option<u32>)
    ensures
        match r {
            Some(d) => digit_value(c) == Some(d as nat) && d < 10,
            None => digit_value(c) is None,
        },
{
    if c == '0' {
        Some(0)
    } else if c == '1' {
        Some(1)
    } else if c == '2' {
        Some(2)
    } else if c == '3' {
        Some(3)
    } else if c == '4' {
        Some(4)
    } else if c == '5' {
        Some(5)
    } else if c == '6' {
        Some(6)
    } else if c == '7' {
        Some(7)
    } else if c == '8' {
        Some(8)
    } else if c == '9' {
        Some(9)
    } else {
        None
    }
}

/// Reads a decimal numeral that fits in 16 bits.
pub fn parse_u16(s: &str) -> (r: Option<u16>)
    ensures
        r == decimal_u16(s@),
{
    let len: usize = s.unicode_len();
    if len == 0 {
        return None;
    }
    let mut acc: u32 = 0;
    let mut i: usize = 0;
    while i < len
        invariant
            0 <= i <= len,
            len == s@.len(),
            acc <= 0xffff,
            i == 0 ==> acc == 0,
            i > 0 ==> decimal_value(s@.take(i as int)) == Some(acc as nat),
        decreases len - i,
    {
        let c: char = s.get_char(i);
        proof {
            assert(s@.take(i + 1).last() == c);
            assert(s@.take(i + 1).drop_last() =~= s@.take(i as int));
        }
        match digit_of(c) {
            None => {
                proof {
                    lemma_decimal_prefix_none(s@, i + 1);
                }
                return None;
            },
            Some(d) => {
                if i > 0 && acc == 0 {
                    proof {
                        lemma_decimal_prefix_none(s@, i + 1);
                    }
                    return None;
                }
                let next: u32 = acc * 10 + d;
                proof {
                    let t = s@.take(i + 1);
                    assert(t.len() == i + 1);
                    assert(digit_value(t.last()) == Some(d as nat));
                    if i > 0 {
                        assert(decimal_value(t.drop_last()) == Some(acc as nat));
                    }
                    assert(decimal_value(t) == Some(next as nat));
                }
                if next > 0xffff {
                    proof {
                        if decimal_value(s@) is Some {
                            lemma_decimal_prefix_grows(s@, i + 1);
                        }
                    }
                    return None;
                }
                acc = next;
            },
        }
        i += 1;
    }
    proof {
        assert(s@.take(len as int) =~= s@);
    }
    Some(acc as u16)
}

/// Whether `s` starts with `prefix`.
pub fn has_prefix(s: &str, prefix: &str) -> (r: bool)
    ensures
        r == prefix@.is_prefix_of(s@),
{
    let n: usize = prefix.unicode_len();
    if s.unicode_len() < n {
        return false;
    }
    let mut i: usize = 0;
    while i < n
        invariant
            0 <= i <= n,
            n == prefix@.len(),
            n <= s@.len(),
            forall|j: int| 0 <= j < i ==> s@[j] == prefix@[j],
        decreases n - i,
    {
        if s.get_char(i) != prefix.get_char(i) {
            assert(s@.subrange(0, n as int)[i as int] != prefix@[i as int]);
            return false;
        }
        i += 1;
    }
    assert(prefix@ =~= s@.subrange(0, n as int));
    true
}

/// Whether `s` reads exactly `expected`.
pub fn text_is(s: &String, expected: &str) -> (r: bool)
    ensures
        r == (s@ == expected@),
{
    let wanted = String::from_str(expected);
    *s == wanted
}

} // verus!
