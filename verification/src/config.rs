//! Reading the settings that the gateway is started with.

use vstd::prelude::*;
use vstd::string::*;

verus! {

/// Whether `c` is one of the ten decimal digits.
pub open spec fn is_digit(c: char) -> bool {
    '0' <= c && c <= '9'
}

/// The number that a digit stands for.
pub open spec fn digit_value(c: char) -> nat {
    if is_digit(c) {
        (c as int - '0' as int) as nat
    } else {
        0
    }
}

/// The number that a sequence of digits stands for in base ten.
pub open spec fn decimal_value(s: Seq<char>) -> nat
    decreases s.len(),
{
    if s.len() == 0 {
        0
    } else {
        10 * decimal_value(s.drop_last()) + digit_value(s.last())
    }
}

/// Whether `s` is one digit or more, and nothing else.
pub open spec fn is_decimal(s: Seq<char>) -> bool {
    s.len() > 0 && forall|i: int| 0 <= i < s.len() ==> is_digit(#[trigger] s[i])
}

/// The text without its leading plus sign, where it has one.
pub open spec fn unsigned_part(s: Seq<char>) -> Seq<char> {
    if s.len() > 0 && s[0] == '+' {
        s.subrange(1, s.len() as int)
    } else {
        s
    }
}

/// The object limit that a setting gives: the number it spells in decimal
/// digits, with or without a plus sign in front, if it fits the machine word.
/// A setting that is absent, empty, not a number or too large gives none.
pub open spec fn file_limit_of(setting: Option<Seq<char>>) -> Option<usize> {
    match setting {
        None => None,
        Some(text) => {
            let digits = unsigned_part(text);
            if is_decimal(digits) && decimal_value(digits) <= usize::MAX {
                Some(decimal_value(digits) as usize)
            } else {
                None
            }
        },
    }
}

/// The setting as the specification sees it.
pub open spec fn setting_view(setting: Option<&str>) -> Option<Seq<char>> {
    match setting {
        None => None,
        Some(text) => Some(text@),
    }
}

/// The value of a prefix never exceeds the value of the whole.
proof fn lemma_prefix_value(s: Seq<char>, k: int)
    requires
        0 <= k <= s.len(),
    ensures
        decimal_value(s.subrange(0, k)) <= decimal_value(s),
    decreases s.len() - k,
{
    if k == s.len() {
        assert(s.subrange(0, k) =~= s);
    } else {
        assert(s.subrange(0, k + 1).drop_last() =~= s.subrange(0, k));
        lemma_prefix_value(s, k + 1);
    }
}

/// Reads the object limit from its setting, if the setting is there.
pub fn parse_file_limit(setting: Option<&str>) -> (limit: Option<usize>)
    ensures
        limit == file_limit_of(setting_view(setting)),
{
    let text: &str = match setting {
        None => {
            return None;
        },
        Some(text) => text,
    };
    let n: usize = text.unicode_len();
    let start: usize = if n > 0 && text.get_char(0) == '+' {
        1
    } else {
        0
    };
    let ghost digits = unsigned_part(text@);
    assert(digits =~= text@.subrange(start as int, n as int));
    if start >= n {
        return None;
    }
    let mut value: usize = 0;
    let mut i: usize = start;
    while i < n
        invariant
            start <= i <= n,
            n == text@.len(),
            setting_view(setting) == Some(text@),
            digits == unsigned_part(text@),
            digits == text@.subrange(start as int, n as int),
            forall|j: int| 0 <= j < i - start ==> is_digit(#[trigger] digits[j]),
            value == decimal_value(digits.subrange(0, i - start)),
        decreases n - i,
    {
        let c: char = text.get_char(i);
        if !(c >= '0' && c <= '9') {
            assert(!is_digit(digits[i - start]));
            return None;
        }
        let d: usize = (c as u32 - 48) as usize;
        proof {
            let k = i - start;
            assert(digits[k] == c);
            assert(digits.subrange(0, k + 1).drop_last() =~= digits.subrange(0, k));
            assert(decimal_value(digits.subrange(0, k + 1)) == 10 * value + d);
            lemma_prefix_value(digits, k + 1);
        }
        value =
        match value.checked_mul(10) {
            Some(tens) => match tens.checked_add(d) {
                Some(sum) => sum,
                None => {
                    return None;
                },
            },
            None => {
                return None;
            },
        };
        i += 1;
    }
    assert(digits.subrange(0, n - start) =~= digits);
    Some(value)
}

} // verus!
