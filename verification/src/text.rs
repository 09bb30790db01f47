//! What the resolver asks of a name as text.

use vstd::prelude::*;
use vstd::string::StringSliceAdditionalSpecFns;
use vstd::utf8::encode_utf8_decode_utf8;

verus! {

/// Whether the NUL character occurs in `name`.
pub open spec fn has_nul(name: Seq<char>) -> bool {
    name.contains('\0')
}

/// Whether the NUL character occurs in `name`.
pub fn contains_nul(name: &str) -> (found: bool)
    ensures
        found == has_nul(name@),
{
    for c in it: name.chars()
        invariant
            it.seq() == name@,
            forall|i: int| 0 <= i < it.index() ==> name@[i] != '\0',
    {
        if c == '\0' {
            return true;
        }
    }
    false
}

/// Whether `left` and `right` are the same text.
pub fn same_text(left: &str, right: &str) -> (same: bool)
    ensures
        same == (left@ == right@),
{
    let left_bytes = left.as_bytes();
    let right_bytes = right.as_bytes();
    proof {
        // a text is what its bytes decode to, so equal bytes are equal texts
        encode_utf8_decode_utf8(left@);
        encode_utf8_decode_utf8(right@);
    }
    if left_bytes.len() != right_bytes.len() {
        return false;
    }
    let mut at: usize = 0;
    while at < left_bytes.len()
        invariant
            left_bytes@ == left.spec_bytes(),
            right_bytes@ == right.spec_bytes(),
            left_bytes@.len() == right_bytes@.len(),
            at <= left_bytes@.len(),
            forall|i: int| 0 <= i < at ==> left_bytes@[i] == right_bytes@[i],
        decreases left_bytes@.len() - at,
    {
        if left_bytes[at] != right_bytes[at] {
            return false;
        }
        at += 1;
    }
    assert(left_bytes@ =~= right_bytes@);  // byte for byte, so as sequences
    true
}

} // verus!
