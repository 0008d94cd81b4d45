//! Object names: the only text of a client that ever becomes part of a path.

use vstd::prelude::*;
use vstd::string::*;

verus! {

/// Whether `c` may appear in an object name: an ASCII letter, an ASCII digit,
/// a dot or a hyphen.
pub open spec fn is_name_char(c: char) -> bool {
    ||| ('a' <= c && c <= 'z')
    ||| ('A' <= c && c <= 'Z')
    ||| ('0' <= c && c <= '9')
    ||| c == '.'
    ||| c == '-'
}

/// Whether every character of `s` is a name character. The empty name passes.
pub open spec fn is_valid_name(s: Seq<char>) -> bool {
    forall|i: int| 0 <= i < s.len() ==> is_name_char(#[trigger] s[i])
}

/// Decides `is_name_char` for a character of ASCII, given as its byte.
pub fn name_byte(b: u8) -> (ok: bool)
    requires
        b < 128,
    ensures
        ok == is_name_char(b as char),
{
    (b >= 97 && b <= 122) || (b >= 65 && b <= 90) || (b >= 48 && b <= 57) || b == 46 || b == 45
}

/// Returns `true` if `filename` is a valid object name and `false` otherwise.
///
/// A valid name holds no path separator, so a path built from it stays inside
/// the namespace it is appended to.
pub fn valid_filename(filename: &str) -> (ok: bool)
    ensures
        ok == is_valid_name(filename@),
{
    if !filename.is_ascii() {
        proof {
            let i = choose|i: int|
                0 <= i < filename@.len() && !('\0' <= #[trigger] filename@[i] <= '\u{7f}');
            assert(!is_name_char(filename@[i]));
        }
        return false;
    }
    let n: usize = filename.unicode_len();
    let mut i: usize = 0;
    while i < n
        invariant
            n == filename@.len(),
            i <= n,
            is_ascii(filename),
            forall|j: int| 0 <= j < i ==> is_name_char(#[trigger] filename@[j]),
        decreases n - i,
    {
        let b: u8 = filename.get_ascii(i);
        assert(filename@[i as int] == b as char);
        if !name_byte(b) {
            return false;
        }
        i += 1;
    }
    true
}

/// A valid name holds no path separator, so it names nothing outside the
/// directory it is appended to.
pub proof fn law_valid_name_has_no_separator(s: Seq<char>, i: int)
    requires
        is_valid_name(s),
        0 <= i < s.len(),
    ensures
        s[i] != '/',
        s[i] != '\\',
{
}

} // verus!
