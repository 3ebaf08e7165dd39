//! ASCII case folding and decimal digits.

use vstd::prelude::*;

verus! {

/// `c` in lower case, when it is an ASCII capital letter; `c` otherwise.
pub open spec fn lower_char(c: char) -> char {
    if 'A' <= c && c <= 'Z' {
        (((c as u8) + 32) as u8) as char
    } else {
        c
    }
}

/// `s` with every ASCII capital letter in lower case.
pub open spec fn ascii_lower(s: Seq<char>) -> Seq<char> {
    s.map_values(|c: char| lower_char(c))
}

fn lower(c: char) -> (res: char)
    ensures
        res == lower_char(c),
{
    if 'A' <= c && c <= 'Z' {
        let b: u8 = c as u8;
        (b + 32) as char
    } else {
        c
    }
}

/// Whether `s`, with its ASCII letters in lower case, is `lowered`.
pub fn eq_ignore_ascii_case_to(s: &str, lowered: &str) -> (res: bool)
    ensures
        res == (ascii_lower(s@) == lowered@),
{
    let n = s.unicode_len();
    if n != lowered.unicode_len() {
        assert(ascii_lower(s@).len() != lowered@.len());
        return false;
    }
    let mut i: usize = 0;
    while i < n
        invariant
            n == s@.len(),
            n == lowered@.len(),
            i <= n,
            forall|j: int| 0 <= j < i ==> lower_char(s@[j]) == lowered@[j],
        decreases n - i,
    {
        if lower(s.get_char(i)) != lowered.get_char(i) {
            assert(ascii_lower(s@)[i as int] != lowered@[i as int]);
            return false;
        }
        i = i + 1;
    }
    assert(ascii_lower(s@) =~= lowered@);
    true
}

/// Whether `c` is an ASCII decimal digit.
pub open spec fn is_digit(c: char) -> bool {
    '0' <= c && c <= '9'
}

/// The value of the decimal digit `c`.
pub open spec fn digit_value(c: char) -> int {
    (c as int) - ('0' as int)
}

} // verus!
