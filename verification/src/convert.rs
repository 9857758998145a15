//! Sizes of typed buffers in bytes.

use vstd::prelude::*;

verus! {

/// The number of bytes that `values_len` values of type `T` take.
pub fn to_nbytes<T: Sized>(values_len: usize) -> (nbytes: usize)
    requires
        values_len * vstd::layout::size_of::<T>() <= usize::MAX,
    ensures
        nbytes == values_len * vstd::layout::size_of::<T>(),
{
    values_len * core::mem::size_of::<T>()
}

} // verus!
