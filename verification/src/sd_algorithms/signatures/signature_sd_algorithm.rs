//! What the signature-based schemes share.

use vstd::prelude::*;

verus! {

/// Whether the position occurs among the given ones.
pub open spec fn is_listed(positions: Seq<usize>, index: usize) -> bool {
    positions.contains(index)
}

/// The positions below `len` that are not among the disclosed ones, in
/// ascending order.
pub open spec fn complement(disclosed: Seq<usize>, len: usize) -> Seq<usize> {
    Seq::new(len as nat, |i: int| i as usize).filter(|i: usize| !is_listed(disclosed, i))
}

/// What the signature-based schemes share.
pub trait SignatureSdAlgorithm {
    /// The positions below `len` that are not disclosed, in ascending order.
    fn complementary_indices(disclosed_indices: &Vec<usize>, len: usize) -> (undisclosed: Vec<
        usize,
    >)
        ensures
            undisclosed@ == complement(disclosed_indices@, len),
    {
        let mut undisclosed_indices: Vec<usize> = Vec::new();
        let ghost all = Seq::new(len as nat, |i: int| i as usize);
        let ghost hidden = |i: usize| !is_listed(disclosed_indices@, i);
        let mut index: usize = 0;
        while index < len
            invariant
                index <= len,
                all == Seq::new(len as nat, |i: int| i as usize),
                hidden == |i: usize| !is_listed(disclosed_indices@, i),
                undisclosed_indices@ == all.take(index as int).filter(hidden),
            decreases len - index,
        {
            proof {
                reveal(Seq::filter);
                assert(all.take(index + 1).drop_last() =~= all.take(index as int));
                assert(all.take(index + 1).last() == index);
            }
            if !contains_index(disclosed_indices, index) {
                undisclosed_indices.push(index);
            }
            index += 1;
        }
        proof {
            assert(all.take(index as int) =~= all);
        }
        undisclosed_indices
    }
}

/// Whether the position occurs among the given ones.
pub fn contains_index(positions: &Vec<usize>, index: usize) -> (found: bool)
    ensures
        found == is_listed(positions@, index),
{
    let mut i: usize = 0;
    while i < positions.len()
        invariant
            i <= positions.len(),
            forall|j: int| 0 <= j < i ==> positions@[j] != index,
        decreases positions.len() - i,
    {
        if positions[i] == index {
            return true;
        }
        i += 1;
    }
    false
}

} // verus!
