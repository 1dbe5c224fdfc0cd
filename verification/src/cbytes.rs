use vstd::prelude::*;

verus! {

/// Whether a byte string contains a zero byte anywhere.
pub open spec fn has_nul(s: Seq<u8>) -> bool {
    exists|i: int| 0 <= i < s.len() && s[i] == 0
}

/// The shape the C library expects of a string handed across its boundary:
/// at least the terminator, the terminator last, and no zero byte before it.
pub open spec fn c_str_ok(s: Seq<u8>) -> bool {
    &&& s.len() >= 1
    &&& s[s.len() - 1] == 0
    &&& forall|i: int| 0 <= i < s.len() - 1 ==> s[i] != 0
}

/// Scans a byte string for a zero byte.
pub fn contains_nul(v: &Vec<u8>) -> (r: bool)
    ensures
        r == has_nul(v@),
{
    let mut i: usize = 0;
    while i < v.len()
        invariant
            0 <= i <= v@.len(),
            forall|j: int| 0 <= j < i ==> v@[j] != 0,
        decreases v@.len() - i,
    {
        if v[i] == 0 {
            return true;
        }
        i = i + 1;
    }
    false
}

/// A copy of the byte string with the C terminator appended.
pub fn terminated(v: &Vec<u8>) -> (r: Vec<u8>)
    ensures
        r@ == v@.push(0u8),
        !has_nul(v@) ==> c_str_ok(r@),
{
    let mut r = v.clone();
    r.push(0u8);
    proof {
        assert(r@ == v@.push(0u8));
        if !has_nul(v@) {
            assert(r@[r@.len() - 1] == 0);
            assert(forall|i: int| 0 <= i < r@.len() - 1 ==> r@[i] == v@[i] && r@[i] != 0);
        }
    }
    r
}

} // verus!
