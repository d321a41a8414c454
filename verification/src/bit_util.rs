//! Bit-level access to validity bitmaps: one bit per array index, least
//! significant bit of each byte first.

use vstd::prelude::*;

verus! {

/// Whether bit `i` of the bitmap `bytes` is set.
pub open spec fn nth_bit(bytes: Seq<u8>, i: int) -> bool {
    (bytes[i / 8] >> ((i % 8) as u8)) & 1 == 1
}

/// Reads bit `i` of the bitmap.
pub fn get_bit(data: &Vec<u8>, i: usize) -> (r: bool)
    requires
        i / 8 < data@.len(),
    ensures
        r == nth_bit(data@, i as int),
{
    let byte: u8 = data[i / 8];
    let shift: u8 = (i % 8) as u8;
    (byte >> shift) & 1 == 1
}

/// Sets bit `i` of the bitmap, leaving every other bit as it was.
pub fn set_bit(data: &mut Vec<u8>, i: usize)
    requires
        i / 8 < old(data)@.len(),
    ensures
        final(data)@.len() == old(data)@.len(),
        nth_bit(final(data)@, i as int),
        forall|j: int| 0 <= j < 8 * final(data)@.len() && j != i ==> nth_bit(final(data)@, j)
            == nth_bit(old(data)@, j),
{
    let byte: u8 = data[i / 8];
    let shift: u8 = (i % 8) as u8;
    let updated: u8 = byte | (1u8 << shift);
    data.set(i / 8, updated);
    proof {
        assert forall|j: int| 0 <= j < 8 * data@.len() && j != i implies nth_bit(data@, j)
            == nth_bit(old(data)@, j) by {
            if j / 8 == i / 8 {
                let js: u8 = (j % 8) as u8;
                assert(js != shift) by {
                    assert(j != i);
                    assert(8 * (j / 8) + (j % 8) == j);
                    assert(8 * (i as int / 8) + (i as int % 8) == i);
                };
                assert(((byte | (1u8 << shift)) >> js) & 1 == (byte >> js) & 1) by (bit_vector)
                    requires
                        js < 8,
                        shift < 8,
                        js != shift,
                ;
            }
        };
        assert(nth_bit(data@, i as int)) by {
            assert(((byte | (1u8 << shift)) >> shift) & 1 == 1) by (bit_vector)
                requires
                    shift < 8,
            ;
        };
    }
}

/// How many of the `len` bits starting at `start` are set.
pub open spec fn count_set_bits(bytes: Seq<u8>, start: int, len: nat) -> int
    decreases len,
{
    if len == 0 {
        0
    } else {
        count_set_bits(bytes, start, (len - 1) as nat) + if nth_bit(bytes, start + len - 1) {
            1int
        } else {
            0int
        }
    }
}

/// The count of set bits never exceeds the width of the window.
pub proof fn lemma_count_set_bits_bounds(bytes: Seq<u8>, start: int, len: nat)
    ensures
        0 <= count_set_bits(bytes, start, len) <= len,
    decreases len,
{
    if len > 0 {
        lemma_count_set_bits_bounds(bytes, start, (len - 1) as nat);
    }
}

} // verus!
