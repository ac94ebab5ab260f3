//! Parsing of user-supplied numerals.
//!
//! The reminder command takes day, hour and minute counts in base ten; the
//! color command takes a hexadecimal color code, with any `0x` or `#`
//! markers removed first. A malformed numeral is an invalid input reported
//! back to the user, never a fault.

use vstd::prelude::*;

verus! {

/// The numeric value of a digit in bases up to sixteen, letters in either
/// case, or -1 for any other character.
pub open spec fn digit_val(c: char) -> int {
    if c == '0' {
        0
    } else if c == '1' {
        1
    } else if c == '2' {
        2
    } else if c == '3' {
        3
    } else if c == '4' {
        4
    } else if c == '5' {
        5
    } else if c == '6' {
        6
    } else if c == '7' {
        7
    } else if c == '8' {
        8
    } else if c == '9' {
        9
    } else if c == 'a' || c == 'A' {
        10
    } else if c == 'b' || c == 'B' {
        11
    } else if c == 'c' || c == 'C' {
        12
    } else if c == 'd' || c == 'D' {
        13
    } else if c == 'e' || c == 'E' {
        14
    } else if c == 'f' || c == 'F' {
        15
    } else {
        -1
    }
}

/// The digit value of `c`, read in any base up to sixteen.
fn digit_of(c: char) -> (r: Option<u32>)
    ensures
        r matches Some(d) ==> d == digit_val(c),
        r is None ==> digit_val(c) == -1,
{
    match c {
        '0' => Some(0),
        '1' => Some(1),
        '2' => Some(2),
        '3' => Some(3),
        '4' => Some(4),
        '5' => Some(5),
        '6' => Some(6),
        '7' => Some(7),
        '8' => Some(8),
        '9' => Some(9),
        'a' | 'A' => Some(10),
        'b' | 'B' => Some(11),
        'c' | 'C' => Some(12),
        'd' | 'D' => Some(13),
        'e' | 'E' => Some(14),
        'f' | 'F' => Some(15),
        _ => None,
    }
}

/// Whether `c` is a digit of base `base`.
pub open spec fn is_digit(c: char, base: int) -> bool {
    0 <= digit_val(c) && digit_val(c) < base
}

/// Whether every character of `s` is a digit of base `base`.
pub open spec fn all_digits(s: Seq<char>, base: int) -> bool {
    forall|i: int| 0 <= i < s.len() ==> is_digit(s[i], base)
}

/// The value of a digit string read in base `base`, most significant digit
/// first.
pub open spec fn radix_value(s: Seq<char>, base: int) -> int
    decreases s.len(),
{
    if s.len() == 0 {
        0
    } else {
        radix_value(s.drop_last(), base) * base + digit_val(s.last())
    }
}

/// The digits of a numeral: what follows the optional leading plus sign.
pub open spec fn digits_of(s: Seq<char>) -> Seq<char> {
    if s.len() > 0 && s[0] == '+' {
        s.skip(1)
    } else {
        s
    }
}

/// What parsing an unsigned numeral returns: the value of the digits when
/// the string is an optional plus sign followed by at least one digit of
/// the base and the value fits; nothing otherwise.
pub open spec fn spec_parse_unsigned(s: Seq<char>, base: int) -> Option<u32> {
    let digits = digits_of(s);
    if digits.len() >= 1 && all_digits(digits, base) && radix_value(digits, base) <= u32::MAX {
        Some(radix_value(digits, base) as u32)
    } else {
        None
    }
}

/// A digit string never reads as a negative value.
proof fn lemma_radix_value_nonneg(s: Seq<char>, base: int)
    requires
        base >= 2,
        all_digits(s, base),
    ensures
        radix_value(s, base) >= 0,
    decreases s.len(),
{
    if s.len() > 0 {
        assert forall|i: int| 0 <= i < s.drop_last().len() implies is_digit(
            #[trigger] s.drop_last()[i],
            base,
        ) by {
            assert(is_digit(s[i], base));
        }
        lemma_radix_value_nonneg(s.drop_last(), base);
        let v = radix_value(s.drop_last(), base);
        assert(v * base >= 0) by (nonlinear_arith)
            requires
                v >= 0,
                base >= 2,
        ;
        assert(is_digit(s[s.len() - 1], base));
    }
}

/// Reading more digits never shrinks the value: every prefix reads at most
/// the whole string's value.
proof fn lemma_radix_prefix_le(s: Seq<char>, base: int, i: int)
    requires
        base >= 2,
        all_digits(s, base),
        0 <= i <= s.len(),
    ensures
        radix_value(s.take(i), base) <= radix_value(s, base),
    decreases s.len() - i,
{
    assert forall|k: int, j: int| 0 <= j <= s.len() && 0 <= k < j implies is_digit(
        #[trigger] s.take(j)[k],
        base,
    ) by {
        assert(is_digit(s[k], base));
    }
    if i < s.len() {
        let prefix = s.take(i);
        let longer = s.take(i + 1);
        assert(longer.drop_last() =~= prefix);
        assert(longer.last() == s[i]);
        lemma_radix_value_nonneg(prefix, base);
        let v = radix_value(prefix, base);
        assert(v * base >= v) by (nonlinear_arith)
            requires
                v >= 0,
                base >= 2,
        ;
        assert(is_digit(s[i], base));
        lemma_radix_prefix_le(s, base, i + 1);
        assert(s.take(s.len() as int) =~= s);
    } else {
        assert(s.take(i) =~= s);
    }
}

/// Reads an unsigned numeral in the given base: an optional plus sign, then
/// at least one digit, with a value that fits; anything else is rejected.
pub fn parse_unsigned(s: &Vec<char>, base: u32) -> (r: Option<u32>)
    requires
        2 <= base <= 16,
    ensures
        r == spec_parse_unsigned(s@, base as int),
{
    let n = s.len();
    let start: usize = if n > 0 && s[0] == '+' {
        1
    } else {
        0
    };
    let ghost digits = digits_of(s@);
    proof {
        assert(digits =~= s@.skip(start as int));
    }
    if start == n {
        return None;
    }
    let mut acc: u64 = 0;
    let mut i = start;
    while i < n
        invariant
            start <= i <= n,
            n == s@.len(),
            start == if n > 0 && s@[0] == '+' {
                1int
            } else {
                0int
            },
            digits == digits_of(s@),
            digits == s@.skip(start as int),
            2 <= base <= 16,
            all_digits(digits.take(i - start), base as int),
            acc == radix_value(digits.take(i - start), base as int),
            acc <= u32::MAX,
        decreases n - i,
    {
        let c = s[i];
        proof {
            assert(digits[i - start] == s@[i as int]);
        }
        let d: u32 = match digit_of(c) {
            Some(d) => d,
            None => {
                proof {
                    assert(!is_digit(digits[i - start], base as int));
                }
                return None;
            },
        };
        if d >= base {
            proof {
                assert(!is_digit(digits[i - start], base as int));
            }
            return None;
        }
        proof {
            assert(acc * (base as u64) <= 0xffff_ffffu64 * 16) by (nonlinear_arith)
                requires
                    acc <= 0xffff_ffffu64,
                    base <= 16,
            ;
        }
        let next: u64 = acc * (base as u64) + (d as u64);
        proof {
            let upto = digits.take(i - start + 1);
            assert(upto.drop_last() =~= digits.take(i - start));
            assert(upto.last() == digits[i - start]);
            assert(digit_val(digits[i - start]) == d as int);
            assert(next == radix_value(upto, base as int));
        }
        if next > u32::MAX as u64 {
            proof {
                if all_digits(digits, base as int) {
                    lemma_radix_prefix_le(digits, base as int, i - start + 1);
                }
            }
            return None;
        }
        acc = next;
        i = i + 1;
    }
    proof {
        assert(digits.take(n - start) =~= digits);
    }
    Some(acc as u32)
}

/// Reads a base-ten count, as the reminder command takes days, hours and
/// minutes from the user.
pub fn parse_u32(s: &Vec<char>) -> (r: Option<u32>)
    ensures
        r == spec_parse_unsigned(s@, 10),
{
    parse_unsigned(s, 10)
}

/// `s` with every `0x` pair removed, scanning left to right.
pub open spec fn strip_hex_marker(s: Seq<char>) -> Seq<char>
    decreases s.len(),
{
    if s.len() == 0 {
        s
    } else if s.len() >= 2 && s[0] == '0' && s[1] == 'x' {
        strip_hex_marker(s.skip(2))
    } else {
        seq![s[0]] + strip_hex_marker(s.skip(1))
    }
}

/// `s` with every `#` removed.
pub open spec fn without_hash(s: Seq<char>) -> Seq<char>
    decreases s.len(),
{
    if s.len() == 0 {
        s
    } else {
        without_hash(s.drop_last()) + if s.last() != '#' {
            seq![s.last()]
        } else {
            Seq::empty()
        }
    }
}

/// What parsing a color code returns: the hexadecimal value of the string
/// once its `0x` and `#` markers are removed, when what remains is a valid
/// numeral that fits; nothing otherwise.
pub open spec fn spec_parse_color(s: Seq<char>) -> Option<u32> {
    spec_parse_unsigned(without_hash(strip_hex_marker(s)), 16)
}

/// Reads a user-supplied color code such as a six-digit hexadecimal value
/// with an optional `0x` or `#` marker anywhere in it.
pub fn parse_color_code(s: &Vec<char>) -> (r: Option<u32>)
    ensures
        r == spec_parse_color(s@),
{
    let n = s.len();
    let mut cleaned: Vec<char> = Vec::new();
    let mut i: usize = 0;
    proof {
        assert(s@.skip(0) =~= s@);
        assert(cleaned@ + strip_hex_marker(s@) =~= strip_hex_marker(s@));
    }
    while i < n
        invariant
            i <= n,
            n == s@.len(),
            strip_hex_marker(s@) == cleaned@ + strip_hex_marker(s@.skip(i as int)),
        decreases n - i,
    {
        if s[i] == '0' && i + 1 < n && s[i + 1] == 'x' {
            proof {
                assert(s@.skip(i as int).skip(2) =~= s@.skip(i + 2));
            }
            i = i + 2;
        } else {
            cleaned.push(s[i]);
            proof {
                assert(s@.skip(i as int).skip(1) =~= s@.skip(i + 1));
                assert(cleaned@ + strip_hex_marker(s@.skip(i + 1)) =~= cleaned@.drop_last() + (seq![
                    s@[i as int],
                ] + strip_hex_marker(s@.skip(i + 1))));
            }
            i = i + 1;
        }
    }
    proof {
        assert(s@.skip(n as int) =~= Seq::<char>::empty());
        assert(cleaned@ + strip_hex_marker(s@.skip(n as int)) =~= cleaned@);
    }
    let m = cleaned.len();
    let mut hex: Vec<char> = Vec::new();
    for j in 0..m
        invariant
            m == cleaned@.len(),
            hex@ == without_hash(cleaned@.take(j as int)),
    {
        proof {
            assert(cleaned@.take(j + 1).drop_last() =~= cleaned@.take(j as int));
            assert(cleaned@.take(j + 1).last() == cleaned@[j as int]);
        }
        if cleaned[j] != '#' {
            hex.push(cleaned[j]);
            proof {
                assert(hex@ =~= without_hash(cleaned@.take(j + 1)));
            }
        } else {
            proof {
                assert(hex@ =~= without_hash(cleaned@.take(j + 1)));
            }
        }
    }
    proof {
        assert(cleaned@.take(m as int) =~= cleaned@);
    }
    parse_unsigned(&hex, 16)
}

} // verus!
