//! Comparing strings.

use vstd::prelude::*;
use vstd::string::StringSliceAdditionalSpecFns;
use vstd::utf8::encode_utf8_decode_utf8;

verus! {

/// Two strings with the same UTF-8 bytes hold the same characters.
pub proof fn lemma_same_bytes_same_text(left: &str, right: &str)
    requires
        left.spec_bytes() == right.spec_bytes(),
    ensures
        left@ == right@,
{
    encode_utf8_decode_utf8(left@);
    encode_utf8_decode_utf8(right@);
}

/// Whether `left` and `right` hold the same characters.
pub fn same_text(left: &str, right: &str) -> (same: bool)
    ensures
        same == (left@ == right@),
{
    let left_bytes = left.as_bytes();
    let right_bytes = right.as_bytes();
    if left_bytes.len() != right_bytes.len() {
        return false;
    }
    let mut next: usize = 0;
    while next < left_bytes.len()
        invariant
            left_bytes@ == left.spec_bytes(),
            right_bytes@ == right.spec_bytes(),
            left_bytes@.len() == right_bytes@.len(),
            next <= left_bytes@.len(),
            forall|i: int| 0 <= i < next ==> left_bytes@[i] == right_bytes@[i],
        decreases left_bytes@.len() - next,
    {
        if left_bytes[next] != right_bytes[next] {
            return false;
        }
        next += 1;
    }
    proof {
        assert(left_bytes@ =~= right_bytes@);
        lemma_same_bytes_same_text(left, right);
    }
    true
}

} // verus!
