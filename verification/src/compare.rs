//! Equality checks whose running time does not depend on where two values
//! first differ.
//!
//! Secrets (passwords, CSRF tokens) are compared here.  The loop inspects
//! every character and folds the outcome into one flag instead of returning
//! at the first mismatch, so the time taken reveals only the lengths, which
//! the transport exposes anyway.

use vstd::prelude::*;

verus! {

/// True exactly when the two strings are equal, computed without an early
/// exit on the first differing character.
pub fn constant_time_str_eq(a: &str, b: &str) -> (r: bool)
    ensures
        r == (a@ == b@),
{
    let a_len = a.unicode_len();
    let b_len = b.unicode_len();
    if a_len != b_len {
        return false;
    }
    let mut diff: u32 = 0;
    let mut i: usize = 0;
    while i < a_len
        invariant
            a_len == a@.len(),
            a_len == b@.len(),
            i <= a_len,
            (diff == 0) <==> (forall|k: int| 0 <= k < i ==> a@[k] == b@[k]),
        decreases a_len - i,
    {
        let ca = a.get_char(i) as u32;
        let cb = b.get_char(i) as u32;
        proof {
            let d = diff;
            assert((d | (ca ^ cb)) == 0 <==> d == 0 && ca == cb) by (bit_vector);
        }
        diff = diff | (ca ^ cb);
        i = i + 1;
    }
    if diff == 0 {
        proof {
            assert(a@ =~= b@);
        }
        true
    } else {
        proof {
            let k = choose|k: int| 0 <= k < a_len && a@[k] != b@[k];
            assert(a@[k] != b@[k]);
        }
        false
    }
}

} // verus!
