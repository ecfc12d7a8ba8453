//! Unsigned numbers as text: reading digits in a given radix, and writing
//! upper-case hexadecimal.

use vstd::prelude::*;
use vstd::string::*;

verus! {

/// The value of `c` as a digit, whatever the radix: `0`-`9` count 0 to 9,
/// the letters of either case count 10 to 35.
pub open spec fn digit_of(c: char) -> Option<nat> {
    let n = c as u32;
    if 0x30 <= n <= 0x39 {
        Some((n - 0x30) as nat)
    } else if 0x61 <= n <= 0x7A {
        Some((n - 0x61 + 10) as nat)
    } else if 0x41 <= n <= 0x5A {
        Some((n - 0x41 + 10) as nat)
    } else {
        None
    }
}

/// The value of `c` as a digit of the given radix, if it is one.
pub open spec fn digit_value(c: char, radix: nat) -> Option<nat> {
    match digit_of(c) {
        Some(d) => if d < radix {
            Some(d)
        } else {
            None
        },
        None => None,
    }
}

/// Whether every character of `s` is a digit of the given radix.
pub open spec fn all_digits(s: Seq<char>, radix: nat) -> bool {
    forall|i: int| 0 <= i < s.len() ==> (#[trigger] digit_value(s[i], radix)) is Some
}

/// The number that the digits `s` denote, most significant digit first.
pub open spec fn digits_value(s: Seq<char>, radix: nat) -> nat
    decreases s.len(),
{
    if s.len() == 0 {
        0
    } else {
        digits_value(s.drop_last(), radix) * radix + digit_value(s.last(), radix).unwrap_or(0)
    }
}

/// The digits of `s`: all of it but one leading `+`.
pub open spec fn unsigned_part(s: Seq<char>) -> Seq<char> {
    if s.len() > 0 && s[0] == '+' {
        s.drop_first()
    } else {
        s
    }
}

/// The number that `s` denotes: an optional `+`, then one or more digits of
/// the radix and nothing else.
pub open spec fn number(s: Seq<char>, radix: nat) -> Option<nat> {
    let digits = unsigned_part(s);
    if digits.len() > 0 && all_digits(digits, radix) {
        Some(digits_value(digits, radix))
    } else {
        None
    }
}

/// The number that `s` denotes, if it fits 64 bits.
pub open spec fn number_u64(s: Seq<char>, radix: nat) -> Option<u64> {
    match number(s, radix) {
        Some(v) => if v <= u64::MAX {
            Some(v as u64)
        } else {
            None
        },
        None => None,
    }
}

/// Digits never denote less than a prefix of them does.
pub proof fn lemma_prefix_value_le(s: Seq<char>, radix: nat, k: int)
    requires
        radix >= 1,
        0 <= k <= s.len(),
    ensures
        digits_value(s.subrange(0, k), radix) <= digits_value(s, radix),
    decreases s.len(),
{
    if k == s.len() {
        assert(s.subrange(0, k) =~= s);
    } else {
        let front = s.drop_last();
        lemma_prefix_value_le(front, radix, k);
        assert(front.subrange(0, k) =~= s.subrange(0, k));
        let v = digits_value(front, radix);
        assert(v * radix >= v) by (nonlinear_arith)
            requires
                radix >= 1,
                v >= 0,
        ;
    }
}

/// The value of `c` as a digit of the given radix.
pub fn digit(c: char, radix: u32) -> (d: Option<u64>)
    requires
        2 <= radix <= 36,
    ensures
        match d {
            Some(v) => digit_value(c, radix as nat) == Some(v as nat),
            None => digit_value(c, radix as nat) is None,
        },
{
    let n: u32 = c as u32;
    let v: u32 = if 0x30 <= n && n <= 0x39 {
        n - 0x30
    } else if 0x61 <= n && n <= 0x7A {
        n - 0x61 + 10
    } else if 0x41 <= n && n <= 0x5A {
        n - 0x41 + 10
    } else {
        return None;
    };
    if v < radix {
        Some(v as u64)
    } else {
        None
    }
}

/// Reads `s` as an unsigned number in the given radix: an optional `+`, then
/// digits only. Gives `None` for anything else, and for a number that does
/// not fit 64 bits.
pub fn parse_u64(s: &str, radix: u32) -> (parsed: Option<u64>)
    requires
        2 <= radix <= 36,
    ensures
        parsed == number_u64(s@, radix as nat),
{
    let n: usize = s.unicode_len();
    let first: usize = if n > 0 && s.get_char(0) == '+' {
        1
    } else {
        0
    };
    let ghost digits = unsigned_part(s@);
    assert(digits =~= s@.subrange(first as int, n as int));
    if first == n {
        return None;
    }
    let mut i: usize = first;
    let mut value: u64 = 0;
    while i < n
        invariant
            2 <= radix <= 36,
            first <= i <= n,
            n == s@.len(),
            digits == unsigned_part(s@),
            digits == s@.subrange(first as int, n as int),
            all_digits(digits.subrange(0, i - first), radix as nat),
            value == digits_value(digits.subrange(0, i - first), radix as nat),
        decreases n - i,
    {
        let c = s.get_char(i);
        let ghost seen = digits.subrange(0, i - first + 1);
        proof {
            assert(seen.drop_last() =~= digits.subrange(0, i - first));
            assert(digits[i - first] == c);
        }
        match digit(c, radix) {
            None => {
                assert(digit_value(digits[i - first], radix as nat) is None);
                return None;
            },
            Some(d) => {
                proof {
                    lemma_prefix_value_le(digits, radix as nat, i - first + 1);
                    assert(digits_value(seen, radix as nat) == value * radix + d);
                    assert forall|j: int| 0 <= j < seen.len() implies (#[trigger] digit_value(
                        seen[j],
                        radix as nat,
                    )) is Some by {
                        if j < seen.len() - 1 {
                            assert(seen[j] == digits.subrange(0, i - first)[j]);
                        }
                    }
                }
                match value.checked_mul(radix as u64) {
                    None => {
                        return None;
                    },
                    Some(shifted) => {
                        match shifted.checked_add(d) {
                            None => {
                                return None;
                            },
                            Some(next) => {
                                value = next;
                            },
                        }
                    },
                }
            },
        }
        i = i + 1;
    }
    assert(digits.subrange(0, n - first) =~= digits);
    Some(value)
}

/// The upper-case hexadecimal digit that stands for `d`, for `d` below 16.
pub open spec fn upper_hex_digit(d: nat) -> char {
    "0123456789ABCDEF"@[d as int]
}

/// `n` in upper-case hexadecimal, without a prefix and without leading zeros.
pub open spec fn upper_hex(n: nat) -> Seq<char>
    decreases n,
{
    if n < 16 {
        seq![upper_hex_digit(n)]
    } else {
        upper_hex(n / 16).push(upper_hex_digit(n % 16))
    }
}

/// Each upper-case hexadecimal digit reads back as the number it stands for.
pub proof fn lemma_upper_hex_digit_reads_back(d: nat)
    requires
        d < 16,
    ensures
        digit_value(upper_hex_digit(d), 16) == Some(d),
        upper_hex_digit(d) != '+',
{
    reveal_strlit("0123456789ABCDEF");
    let table = "0123456789ABCDEF"@;
    assert(table[0] == '0' && table[1] == '1' && table[2] == '2' && table[3] == '3');
    assert(table[4] == '4' && table[5] == '5' && table[6] == '6' && table[7] == '7');
    assert(table[8] == '8' && table[9] == '9' && table[10] == 'A' && table[11] == 'B');
    assert(table[12] == 'C' && table[13] == 'D' && table[14] == 'E' && table[15] == 'F');
}

/// What is written in upper-case hexadecimal reads back, in radix 16, as the
/// number that was written.
pub proof fn lemma_upper_hex_reads_back(n: nat)
    ensures
        upper_hex(n).len() > 0,
        upper_hex(n)[0] != '+',
        all_digits(upper_hex(n), 16),
        digits_value(upper_hex(n), 16) == n,
        number(upper_hex(n), 16) == Some(n),
    decreases n,
{
    let text = upper_hex(n);
    if n < 16 {
        lemma_upper_hex_digit_reads_back(n);
        assert(text.drop_last() =~= Seq::<char>::empty());
        assert(digits_value(text.drop_last(), 16) == 0);
    } else {
        let front = upper_hex(n / 16);
        lemma_upper_hex_reads_back(n / 16);
        lemma_upper_hex_digit_reads_back(n % 16);
        assert(text.drop_last() =~= front);
        assert(text[0] == front[0]);
        assert forall|i: int| 0 <= i < text.len() implies (#[trigger] digit_value(
            text[i],
            16,
        )) is Some by {
            if i < front.len() {
                assert(text[i] == front[i]);
            }
        }
    }
}

/// Appends `n` in upper-case hexadecimal to `out`.
pub fn push_upper_hex(out: &mut String, n: u64)
    ensures
        final(out)@ == old(out)@ + upper_hex(n as nat),
    decreases n,
{
    if n >= 16 {
        push_upper_hex(out, n / 16);
    }
    let table = "0123456789ABCDEF";
    proof {
        reveal_strlit("0123456789ABCDEF");
    }
    let d: usize = (n % 16) as usize;
    out.append(table.substring_char(d, d + 1));
    proof {
        assert(table@.subrange(d as int, d + 1) =~= seq![upper_hex_digit(d as nat)]);
        if n >= 16 {
            assert(old(out)@ + upper_hex((n / 16) as nat) + seq![upper_hex_digit(d as nat)]
                =~= old(out)@ + upper_hex(n as nat));
        }
    }
}

/// `n` in upper-case hexadecimal.
pub fn to_upper_hex(n: u64) -> (text: String)
    ensures
        text@ == upper_hex(n as nat),
{
    let mut text = String::new();
    push_upper_hex(&mut text, n);
    text
}

} // verus!
