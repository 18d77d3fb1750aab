//! Reconstruction of a big-endian multi-byte integer from raw register
//! bytes, most significant byte first.

use vstd::prelude::*;

verus! {

/// The unsigned value of a byte sequence read big-endian (most significant
/// byte first).
pub open spec fn be_value(data: Seq<u8>) -> nat
    decreases data.len(),
{
    if data.len() == 0 {
        0
    } else {
        (be_value(data.drop_last()) * 256 + data.last()) as nat
    }
}

/// 256 raised to the given power: the number of values a byte sequence of
/// that length can take.
pub open spec fn pow256(n: nat) -> nat
    decreases n,
{
    if n == 0 {
        1
    } else {
        256 * pow256((n - 1) as nat)
    }
}

/// The big-endian value of a byte sequence is bounded by the number of
/// values a sequence of its length can take.
pub proof fn lemma_be_value_bound(data: Seq<u8>)
    ensures
        be_value(data) < pow256(data.len()),
    decreases data.len(),
{
    if data.len() > 0 {
        lemma_be_value_bound(data.drop_last());
    }
}

/// Reconstructs a big-endian unsigned integer from at most four raw bytes.
pub fn vec_to_u32(data: &Vec<u8>) -> (r: u32)
    requires
        data@.len() <= 4,
    ensures
        r == be_value(data@),
{
    proof {
        assert(pow256(0) == 1);
        assert(pow256(1) == 256);
        assert(pow256(2) == 65536);
        assert(pow256(3) == 16777216);
        assert(pow256(4) == 4294967296);
    }
    let mut result: u32 = 0;
    let mut idx: usize = 0;
    while idx < data.len()
        invariant
            idx <= data@.len() <= 4,
            result == be_value(data@.take(idx as int)),
            result < pow256(idx as nat),
            pow256(1) == 256,
            pow256(2) == 65536,
            pow256(3) == 16777216,
            pow256(4) == 4294967296,
        decreases data@.len() - idx,
    {
        proof {
            assert(data@.take(idx + 1).drop_last() =~= data@.take(idx as int));
            assert(pow256(idx as nat + 1) == 256 * pow256(idx as nat));
        }
        result = result * 256 + (data[idx] as u32);
        idx = idx + 1;
    }
    proof {
        assert(data@.take(data@.len() as int) =~= data@);
    }
    result
}

/// Reconstructs a big-endian unsigned integer from at most four raw bytes,
/// widened into a signed 64-bit value.
pub fn vec_to_i64(data: &Vec<u8>) -> (r: i64)
    requires
        data@.len() <= 4,
    ensures
        r == be_value(data@),
{
    let magnitude = vec_to_u32(data);
    magnitude as i64
}

} // verus!
