//! Case-insensitive comparison of network selectors.

use vstd::prelude::*;
use vstd::string::StrSliceExecFns;

verus! {

/// The code point of `c` after ASCII lower-casing: `'A'..='Z'` move to
/// `'a'..='z'`, every other character stays as it is.
pub open spec fn lower_code(c: char) -> u32 {
    let x = c as u32;
    if 65 <= x && x <= 90 {
        (x + 32) as u32
    } else {
        x
    }
}

/// `a` and `b` are equal once both are ASCII lower-cased.
pub open spec fn same_ignoring_ascii_case(a: Seq<char>, b: Seq<char>) -> bool {
    &&& a.len() == b.len()
    &&& forall|i: int| 0 <= i < a.len() ==> #[trigger] lower_code(a[i]) == lower_code(b[i])
}

fn lower_code_exec(c: char) -> (r: u32)
    ensures
        r == lower_code(c),
{
    let x = c as u32;
    if 65 <= x && x <= 90 {
        x + 32
    } else {
        x
    }
}

/// Compares two strings, ignoring the case of ASCII letters.
pub fn eq_ignore_ascii_case(a: &str, b: &str) -> (r: bool)
    ensures
        r == same_ignoring_ascii_case(a@, b@),
{
    let n = a.unicode_len();
    if n != b.unicode_len() {
        return false;
    }
    let mut i: usize = 0;
    while i < n
        invariant
            n == a@.len(),
            n == b@.len(),
            i <= n,
            forall|j: int| 0 <= j < i ==> #[trigger] lower_code(a@[j]) == lower_code(b@[j]),
        decreases n - i,
    {
        if lower_code_exec(a.get_char(i)) != lower_code_exec(b.get_char(i)) {
            return false;
        }
        i = i + 1;
    }
    true
}

} // verus!
