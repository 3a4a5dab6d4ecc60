//! How a block of data is cut into the blobs that single requests carry.

use vstd::arithmetic::div_mod::lemma_fundamental_div_mod;
use vstd::arithmetic::mul::{
    lemma_mul_inequality, lemma_mul_is_distributive_add_other_way, lemma_mul_strict_inequality,
};
use vstd::prelude::*;
use vstd::slice::slice_subrange;

verus! {

/// How many blobs of at most `size` bytes it takes to carry `len` bytes.
pub open spec fn blob_count(len: nat, size: nat) -> nat
    recommends
        size > 0,
{
    ((len + size - 1) / size as int) as nat
}

/// Where blob `i` starts, in a block of `len` bytes; for `i` the number of blobs, where the
/// last one ends.
pub open spec fn blob_start(len: nat, size: nat, i: int) -> int {
    if i * size < len {
        i * size
    } else {
        len as int
    }
}

/// The blobs of a block: one after the other, each as long as is allowed, and the rest in the
/// last.
pub open spec fn blobs(data: Seq<u8>, size: nat) -> Seq<Seq<u8>>
    recommends
        size > 0,
{
    Seq::new(
        blob_count(data.len(), size),
        |i: int|
            data.subrange(
                blob_start(data.len(), size, i),
                blob_start(data.len(), size, i + 1),
            ),
    )
}

/// The contents of borrowed blobs.
pub open spec fn contents(slices: Seq<&[u8]>) -> Seq<Seq<u8>> {
    slices.map_values(|slice: &[u8]| slice@)
}

/// The number of bytes in a list of blobs.
pub open spec fn total_len(parts: Seq<Seq<u8>>) -> nat
    decreases parts.len(),
{
    if parts.len() == 0 {
        0
    } else {
        total_len(parts.drop_last()) + parts.last().len()
    }
}

/// Blob `i` exists exactly when it starts before the end of the block.
proof fn lemma_blob_count(len: nat, size: nat, i: int)
    requires
        size > 0,
        i >= 0,
    ensures
        i < blob_count(len, size) <==> i * size < len,
{
    let n = len + size - 1;
    let count = n / size as int;
    lemma_fundamental_div_mod(n, size as int);
    assert(count >= 0) by (nonlinear_arith)
        requires
            n >= 0,
            size > 0,
            count == n / size as int,
    ;
    if i < count {
        lemma_mul_inequality(i + 1, count, size as int);
        lemma_mul_is_distributive_add_other_way(size as int, i, 1);
        assert(count * size == size * count) by (nonlinear_arith);
    } else {
        lemma_mul_inequality(count, i, size as int);
        assert(count * size == size * count) by (nonlinear_arith);
    }
}

/// Cuts `data` into blobs of at most `size` bytes.
pub fn split(data: &[u8], size: usize) -> (parts: Vec<&[u8]>)
    requires
        size > 0,
    ensures
        contents(parts@) == blobs(data@, size as nat),
{
    let mut parts: Vec<&[u8]> = Vec::new();
    let mut start: usize = 0;
    assert(0 * (size as nat) == 0) by (nonlinear_arith);
    while start < data.len()
        invariant
            size > 0,
            start == blob_start(data@.len(), size as nat, parts@.len() as int),
            parts@.len() <= blob_count(data@.len(), size as nat),
            forall|i: int|
                #![trigger parts@[i]]
                0 <= i < parts@.len() ==> parts@[i]@ == blobs(data@, size as nat)[i],
        decreases data.len() - start,
    {
        let end: usize = if size < data.len() - start {
            start + size
        } else {
            data.len()
        };
        proof {
            let i = parts@.len() as int;
            lemma_blob_count(data@.len(), size as nat, i);
            lemma_mul_is_distributive_add_other_way(size as int, i, 1);
        }
        parts.push(slice_subrange(data, start, end));
        start = end;
    }
    proof {
        lemma_blob_count(data@.len(), size as nat, parts@.len() as int);
        assert(contents(parts@) =~= blobs(data@, size as nat));
    }
    parts
}

/// A blob starts where the one before it ends, inside the block, and is not empty.
proof fn lemma_blob_bounds(len: nat, size: nat, i: int)
    requires
        size > 0,
        0 <= i < blob_count(len, size),
    ensures
        0 <= blob_start(len, size, i) < blob_start(len, size, i + 1) <= len,
        blob_start(len, size, i) == i * size,
        blob_start(len, size, i + 1) <= i * size + size,
        i + 1 < blob_count(len, size) ==> blob_start(len, size, i + 1) == i * size + size,
{
    lemma_blob_count(len, size, i);
    lemma_blob_count(len, size, i + 1);
    lemma_mul_is_distributive_add_other_way(size as int, i, 1);
    assert(i * size >= 0) by (nonlinear_arith)
        requires
            i >= 0,
    ;
}

/// The first `k` blobs hold the start of the block.
proof fn lemma_first_blobs(data: Seq<u8>, size: nat, k: int)
    requires
        size > 0,
        0 <= k <= blob_count(data.len(), size),
    ensures
        blobs(data, size).take(k).flatten() == data.take(blob_start(data.len(), size, k)),
        total_len(blobs(data, size).take(k)) == blob_start(data.len(), size, k),
        0 <= blob_start(data.len(), size, k) <= data.len(),
    decreases k,
{
    let parts = blobs(data, size);
    if k == 0 {
        assert(0 * size == 0) by (nonlinear_arith);
        assert(parts.take(0).flatten() =~= data.take(0));
    } else {
        lemma_first_blobs(data, size, k - 1);
        lemma_blob_bounds(data.len(), size, k - 1);
        assert(parts.take(k).drop_last() =~= parts.take(k - 1));
        parts.take(k).lemma_flatten_and_flatten_alt_are_equivalent();
        parts.take(k - 1).lemma_flatten_and_flatten_alt_are_equivalent();
        assert(data.take(blob_start(data.len(), size, k)) =~= data.take(
            blob_start(data.len(), size, k - 1),
        ) + parts[k - 1]);
    }
}

/// The blobs of a block, one after the other, are the block: no byte is lost, added or moved.
pub proof fn law_blobs_rebuild_the_block(data: Seq<u8>, size: nat)
    requires
        size > 0,
    ensures
        blobs(data, size).flatten() == data,
        total_len(blobs(data, size)) == data.len(),
{
    let parts = blobs(data, size);
    let count = blob_count(data.len(), size) as int;
    lemma_blob_count(data.len(), size, count);
    lemma_first_blobs(data, size, count);
    assert(parts.take(count) =~= parts);
    assert(data.take(data.len() as int) =~= data);
}

/// No blob is empty or larger than is allowed, and only the last can be smaller.
pub proof fn law_blob_sizes(data: Seq<u8>, size: nat, i: int)
    requires
        size > 0,
        0 <= i < blobs(data, size).len(),
    ensures
        0 < blobs(data, size)[i].len() <= size,
        i + 1 < blobs(data, size).len() ==> blobs(data, size)[i].len() == size,
{
    lemma_blob_bounds(data.len(), size, i);
}

/// A block that is a whole number of blobs long is cut into that many blobs, all of them full.
pub proof fn law_whole_blobs(data: Seq<u8>, size: nat, count: nat)
    requires
        size > 0,
        data.len() == count * size,
    ensures
        blobs(data, size).len() == count,
        forall|i: int| 0 <= i < count ==> (#[trigger] blobs(data, size)[i]).len() == size,
{
    lemma_blob_count(data.len(), size, count as int);
    if count > 0 {
        lemma_mul_strict_inequality(count - 1, count as int, size as int);
        lemma_blob_count(data.len(), size, count - 1);
    }
    assert forall|i: int| 0 <= i < count implies (#[trigger] blobs(data, size)[i]).len()
        == size by {
        lemma_blob_bounds(data.len(), size, i);
        lemma_mul_inequality(i + 1, count as int, size as int);
        lemma_mul_is_distributive_add_other_way(size as int, i, 1);
    }
}

} // verus!
