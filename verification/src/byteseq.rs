//! Small byte-slice utilities shared by the RIFF and SF2 layers: locating a
//! byte, comparing slices, and their specification-level counterparts.

use vstd::prelude::*;

verus! {

/// The index of the first occurrence of `x` in `b`, or `b.len()` when `x`
/// does not occur.
pub open spec fn spec_find_byte(b: Seq<u8>, x: u8) -> int
    decreases b.len(),
{
    if b.len() == 0 {
        0
    } else if b[0] == x {
        0
    } else {
        1 + spec_find_byte(b.subrange(1, b.len() as int), x)
    }
}

pub proof fn lemma_find_byte_bounds(b: Seq<u8>, x: u8)
    ensures
        0 <= spec_find_byte(b, x) <= b.len(),
        forall|j: int| 0 <= j < spec_find_byte(b, x) ==> b[j] != x,
        spec_find_byte(b, x) < b.len() ==> b[spec_find_byte(b, x)] == x,
    decreases b.len(),
{
    if b.len() != 0 && b[0] != x {
        let s = b.subrange(1, b.len() as int);
        lemma_find_byte_bounds(s, x);
        assert(spec_find_byte(b, x) == 1 + spec_find_byte(s, x));
        assert forall|j: int| 0 <= j < spec_find_byte(b, x) implies b[j] != x by {
            if j > 0 {
                assert(b[j] == s[j - 1]);
            }
        }
    }
}

/// The first index in `b` holding `x`, or `b.len()` when `x` is absent.
pub fn find_byte(b: &[u8], x: u8) -> (r: usize)
    ensures
        r as int == spec_find_byte(b@, x),
{
    proof {
        lemma_find_byte_bounds(b@, x);
    }
    let mut i: usize = 0;
    while i < b.len()
        invariant
            0 <= i <= b@.len(),
            forall|j: int| 0 <= j < i ==> b@[j] != x,
            i <= spec_find_byte(b@, x),
        decreases b@.len() - i,
    {
        if *vstd::slice::slice_index_get(b, i) == x {
            proof {
                lemma_find_byte_bounds(b@, x);
            }
            return i;
        }
        i = i + 1;
        proof {
            lemma_find_byte_bounds(b@, x);
        }
    }
    proof {
        lemma_find_byte_bounds(b@, x);
    }
    i
}

/// Byte-wise slice equality, reflected into the view equality of the two
/// slices.
pub fn bytes_eq(a: &[u8], b: &[u8]) -> (r: bool)
    ensures
        r == (a@ == b@),
{
    if a.len() != b.len() {
        proof {
            assert(a@.len() != b@.len());
        }
        return false;
    }
    let mut i: usize = 0;
    while i < a.len()
        invariant
            0 <= i <= a@.len(),
            a@.len() == b@.len(),
            forall|j: int| 0 <= j < i ==> a@[j] == b@[j],
        decreases a@.len() - i,
    {
        if *vstd::slice::slice_index_get(a, i) != *vstd::slice::slice_index_get(b, i) {
            return false;
        }
        i = i + 1;
    }
    proof {
        assert(a@ =~= b@);
    }
    true
}

} // verus!
