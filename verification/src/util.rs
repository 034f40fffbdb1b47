//! Copying of vectors, with a contract.

use vstd::prelude::*;

verus! {

/// A copy of a vector of plain values.
pub fn copy_vec<T: Copy>(source: &Vec<T>) -> (copy: Vec<T>)
    ensures
        copy@ == source@,
{
    let mut copy: Vec<T> = Vec::new();
    let mut i: usize = 0;
    while i < source.len()
        invariant
            i <= source.len(),
            copy@ == source@.take(i as int),
        decreases source.len() - i,
    {
        copy.push(source[i]);
        i = i + 1;
        assert(source@.take(i as int) =~= source@.take(i - 1).push(source@[i - 1]));
    }
    assert(source@.take(i as int) =~= source@);
    copy
}

} // verus!
