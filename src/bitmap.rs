use vstd::prelude::*;

verus! {

/// Whether leaf `index` is marked in `bitmap`; indices past its end never are.
pub open spec fn is_paid(bitmap: Seq<u8>, index: int) -> bool {
    &&& 0 <= index < bitmap.len() * 8
    &&& (bitmap[index / 8] >> ((index % 8) as u8)) & 1u8 == 1u8
}

/// How many of the leaves `0 .. n` are marked.
pub open spec fn paid_below(bitmap: Seq<u8>, n: int) -> nat
    decreases n,
{
    if n <= 0 {
        0
    } else {
        paid_below(bitmap, n - 1) + if is_paid(bitmap, n - 1) {
            1nat
        } else {
            0nat
        }
    }
}

/// `bitmap` with leaf `index` marked.
pub open spec fn with_paid(bitmap: Seq<u8>, index: int) -> Seq<u8> {
    bitmap.update(index / 8, bitmap[index / 8] | (1u8 << ((index % 8) as u8)))
}

/// A bitmap with nothing marked.
pub open spec fn cleared(len: nat) -> Seq<u8> {
    Seq::new(len, |i: int| 0u8)
}

proof fn lemma_set_bit_u8(x: u8, k: u8, j: u8)
    requires
        k < 8,
        j < 8,
    ensures
        ((x | (1u8 << k)) >> j) & 1u8 == if j == k {
            1u8
        } else {
            (x >> j) & 1u8
        },
{
    assert(((x | (1u8 << k)) >> j) & 1u8 == if j == k {
        1u8
    } else {
        (x >> j) & 1u8
    }) by (bit_vector)
        requires
            k < 8,
            j < 8,
    ;
}

/// Marking a leaf marks it and leaves every other leaf as it was.
pub proof fn lemma_with_paid(bitmap: Seq<u8>, index: int, other: int)
    requires
        0 <= index < bitmap.len() * 8,
    ensures
        is_paid(with_paid(bitmap, index), index),
        other != index ==> is_paid(with_paid(bitmap, index), other) == is_paid(bitmap, other),
        with_paid(bitmap, index).len() == bitmap.len(),
{
    let b = with_paid(bitmap, index);
    lemma_set_bit_u8(bitmap[index / 8], (index % 8) as u8, (index % 8) as u8);
    if other != index && 0 <= other < bitmap.len() * 8 {
        if other / 8 == index / 8 {
            lemma_set_bit_u8(bitmap[index / 8], (index % 8) as u8, (other % 8) as u8);
        }
    }
}

/// Marking an unmarked leaf below `n` adds one to the count below `n`.
pub proof fn lemma_paid_below_with_paid(bitmap: Seq<u8>, n: int, index: int)
    requires
        0 <= index < bitmap.len() * 8,
        !is_paid(bitmap, index),
        n >= 0,
    ensures
        paid_below(with_paid(bitmap, index), n) == paid_below(bitmap, n) + if index < n {
            1nat
        } else {
            0nat
        },
    decreases n,
{
    if n > 0 {
        lemma_paid_below_with_paid(bitmap, n - 1, index);
        lemma_with_paid(bitmap, index, n - 1);
    }
}

/// Nothing is marked in a cleared bitmap.
pub proof fn lemma_paid_below_cleared(len: nat, n: int)
    requires
        n >= 0,
    ensures
        paid_below(cleared(len), n) == 0,
    decreases n,
{
    if n > 0 {
        lemma_paid_below_cleared(len, n - 1);
        let k = n - 1;
        if 0 <= k < len * 8 {
            let z = cleared(len)[k / 8];
            let s = (k % 8) as u8;
            assert(z == 0u8);
            assert((0u8 >> s) & 1u8 == 0u8) by (bit_vector);
        }
    }
}

/// Whether leaf `index` is marked.
pub fn bit_is_set(bitmap: &[u8; 128], index: u16) -> (r: bool)
    requires
        index < 1024,
    ensures
        r == is_paid(bitmap@, index as int),
{
    let byte_index = (index / 8) as usize;
    let bit_index = (index % 8) as u8;
    (bitmap[byte_index] >> bit_index) & 1 == 1
}

/// Marks leaf `index`.
pub fn set_bit(bitmap: &mut [u8; 128], index: u16)
    requires
        index < 1024,
    ensures
        final(bitmap)@ == with_paid(old(bitmap)@, index as int),
{
    let byte_index = (index / 8) as usize;
    let bit_index = (index % 8) as u8;
    let b = bitmap[byte_index] | (1u8 << bit_index);
    bitmap[byte_index] = b;
}

} // verus!
