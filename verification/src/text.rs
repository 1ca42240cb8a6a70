use vstd::prelude::*;

verus! {


/// Compares two strings character by character.
pub fn str_equals(a: &str, b: &str) -> (r: bool)
    ensures
        r == (a@ == b@),
{
    let a_bytes = a.as_bytes();
    let b_bytes = b.as_bytes();
    proof {
        vstd::utf8::encode_utf8_decode_utf8(a@);
        vstd::utf8::encode_utf8_decode_utf8(b@);
    }
    if a_bytes.len() != b_bytes.len() {
        return false;
    }
    let mut i: usize = 0;
    while i < a_bytes.len()
        invariant
            a_bytes@ == vstd::utf8::encode_utf8(a@),
            b_bytes@ == vstd::utf8::encode_utf8(b@),
            a_bytes@.len() == b_bytes@.len(),
            i <= a_bytes@.len(),
            forall|j: int| 0 <= j < i ==> a_bytes@[j] == b_bytes@[j],
        decreases a_bytes@.len() - i,
    {
        if a_bytes[i] != b_bytes[i] {
            assert(vstd::utf8::encode_utf8(a@) != vstd::utf8::encode_utf8(b@));
            return false;
        }
        i = i + 1;
    }
    assert(a_bytes@ =~= b_bytes@);
    true
}

} // verus!
