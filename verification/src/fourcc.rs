//! FourCC identifiers: 4-byte ASCII tags naming RIFF chunks. A well-formed
//! FourCC is a non-empty alphanumeric prefix followed only by space bytes.

use vstd::prelude::*;

use crate::byteseq::{find_byte, lemma_find_byte_bounds, spec_find_byte};

verus! {

/// ASCII digits and letters, the bytes allowed before the space padding of a
/// FourCC.
pub open spec fn is_fourcc_word_byte(b: u8) -> bool {
    (48 <= b <= 57) || (65 <= b <= 90) || (97 <= b <= 122)
}

/// A well-formed FourCC: four bytes, split at the first space; the part
/// before it is alphanumeric and non-empty, the part from it on is all
/// spaces.
pub open spec fn is_fourcc(id: Seq<u8>) -> bool {
    let p = spec_find_byte(id, 32);
    &&& id.len() == 4
    &&& p > 0
    &&& forall|j: int| 0 <= j < p ==> is_fourcc_word_byte(#[trigger] id[j])
    &&& forall|j: int| p <= j < 4 ==> id[j] == 32
}

/// The byte sequence of a FourCC written as four characters.
pub open spec fn fourcc_seq(a: char, b: char, c: char, d: char) -> Seq<u8> {
    seq![a as u8, b as u8, c as u8, d as u8]
}

/// The 4 id bytes of a FourCC written as four characters.
pub fn fourcc_bytes(a: char, b: char, c: char, d: char) -> (r: [u8; 4])
    ensures
        r@ == fourcc_seq(a, b, c, d),
{
    let r: [u8; 4] = [a as u8, b as u8, c as u8, d as u8];
    proof {
        assert(r@ =~= fourcc_seq(a, b, c, d));
    }
    r
}

/// Whether `b` is an ASCII digit or letter.
fn is_word_byte(b: u8) -> (r: bool)
    ensures
        r == is_fourcc_word_byte(b),
{
    (48 <= b && b <= 57) || (65 <= b && b <= 90) || (97 <= b && b <= 122)
}

/// Whether `id` is a well-formed FourCC.
pub fn fourcc_valid(id: &[u8]) -> (r: bool)
    ensures
        r == is_fourcc(id@),
{
    if id.len() != 4 {
        return false;
    }
    let p = find_byte(id, 32);
    proof {
        lemma_find_byte_bounds(id@, 32);
    }
    if p == 0 {
        return false;
    }
    let mut j: usize = 0;
    while j < p
        invariant
            0 <= j <= p,
            p as int == spec_find_byte(id@, 32),
            0 < p <= id@.len() == 4,
            forall|k: int| 0 <= k < j ==> is_fourcc_word_byte(#[trigger] id@[k]),
        decreases p - j,
    {
        if !is_word_byte(*vstd::slice::slice_index_get(id, j)) {
            return false;
        }
        j = j + 1;
    }
    let mut k: usize = p;
    while k < 4
        invariant
            p <= k <= 4,
            p as int == spec_find_byte(id@, 32),
            0 < p <= id@.len() == 4,
            forall|m: int| 0 <= m < p ==> is_fourcc_word_byte(#[trigger] id@[m]),
            forall|m: int| p <= m < k ==> id@[m] == 32,
        decreases 4 - k,
    {
        if *vstd::slice::slice_index_get(id, k) != 32 {
            return false;
        }
        k = k + 1;
    }
    true
}

} // verus!
