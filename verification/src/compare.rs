//! String comparison that examines every character.
//!
//! The digest check of validation must not leak, through its running time,
//! how long a matching prefix an attacker has found, so the comparison below
//! never exits early on a mismatch.

use vstd::prelude::*;
use vstd::string::StrSliceExecFns;

verus! {

/// Compares two strings without an early exit on the first differing
/// character: a mismatch is folded into a flag and the scan always runs to
/// the end of equal-length inputs.
pub fn constant_time_str_eq(a: &str, b: &str) -> (r: bool)
    ensures
        r == (a@ == b@),
{
    let n = a.unicode_len();
    if n != b.unicode_len() {
        return false;
    }
    let mut mismatches: usize = 0;
    let mut i: usize = 0;
    while i < n
        invariant
            n == a@.len(),
            n == b@.len(),
            0 <= i <= n,
            mismatches <= i,
            mismatches > 0 <==> exists|k: int| 0 <= k < i && a@[k] != b@[k],
        decreases n - i,
    {
        let ca = a.get_char(i);
        let cb = b.get_char(i);
        let step: usize = if ca != cb {
            proof {
                assert(0 <= i < i + 1 && a@[i as int] != b@[i as int]);
            }
            1
        } else {
            0
        };
        mismatches = mismatches + step;
        i = i + 1;
    }
    proof {
        if mismatches == 0 {
            assert(a@ =~= b@);
        }
    }
    mismatches == 0
}

} // verus!
