//! The processing core: one pass over a stereo block.
//!
//! Each output sample is the scaling of the input sample at the same
//! position, and nothing else: the pass is stateless, single-threaded, and a
//! zero-length block does no work.  The scaling itself multiplies a sample by
//! the current gain — floating-point arithmetic that verified code cannot
//! hold — so the caller hands the per-sample operation in, already closed
//! over the gain it read from the store for this block, and the contract
//! pins every output position to that operation applied at the same input
//! position.  Samples cross the boundary as their 32-bit patterns.

use vstd::prelude::*;

verus! {

/// Applies `scale` to every sample of a stereo block, position by position.
pub fn process_block<F: Fn(u32) -> u32>(scale: F, left: &Vec<u32>, right: &Vec<u32>) -> (out: (
    Vec<u32>,
    Vec<u32>,
))
    requires
        left@.len() == right@.len(),
        forall|x: u32| #[trigger] scale.requires((x,)),
    ensures
        out.0@.len() == left@.len(),
        out.1@.len() == right@.len(),
        forall|i: int| 0 <= i < left@.len() ==> scale.ensures((left@[i],), out.0@[i]),
        forall|i: int| 0 <= i < right@.len() ==> scale.ensures((right@[i],), out.1@[i]),
{
    let n: usize = left.len();
    let mut out_left: Vec<u32> = Vec::new();
    let mut out_right: Vec<u32> = Vec::new();
    let mut i: usize = 0;
    while i < n
        invariant
            i <= n,
            n == left@.len(),
            n == right@.len(),
            forall|x: u32| #[trigger] scale.requires((x,)),
            out_left@.len() == i,
            out_right@.len() == i,
            forall|j: int| 0 <= j < i ==> scale.ensures((left@[j],), out_left@[j]),
            forall|j: int| 0 <= j < i ==> scale.ensures((right@[j],), out_right@[j]),
        decreases n - i,
    {
        out_left.push(scale(left[i]));
        out_right.push(scale(right[i]));
        i = i + 1;
    }
    (out_left, out_right)
}

} // verus!
