//! Comparison of texts, character by character.

use vstd::prelude::*;
use vstd::string::StringSliceAdditionalSpecFns;
use vstd::utf8::encode_utf8_decode_utf8;

verus! {

/// Whether two byte strings are the same.
pub fn bytes_equal(left: &[u8], right: &[u8]) -> (same: bool)
    ensures
        same == (left@ == right@),
{
    if left.len() != right.len() {
        return false;
    }
    let mut at: usize = 0;
    while at < left.len()
        invariant
            left@.len() == right@.len(),
            at <= left@.len(),
            left@.take(at as int) == right@.take(at as int),
        decreases left@.len() - at,
    {
        if left[at] != right[at] {
            return false;
        }
        assert(left@.take(at as int + 1) =~= left@.take(at as int).push(left@[at as int]));
        assert(right@.take(at as int + 1) =~= right@.take(at as int).push(right@[at as int]));
        at += 1;
    }
    assert(left@.take(at as int) =~= left@);
    assert(right@.take(at as int) =~= right@);
    true
}

/// Whether a text is, character by character, the expected one. Two texts
/// are the same exactly if their bytes in UTF-8 are.
pub fn text_is(text: &str, expected: &str) -> (same: bool)
    ensures
        same == (text@ == expected@),
{
    proof {
        encode_utf8_decode_utf8(text@);
        encode_utf8_decode_utf8(expected@);
    }
    bytes_equal(text.as_bytes(), expected.as_bytes())
}

} // verus!
