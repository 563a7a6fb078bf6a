//! Indices that have a cache line of their own.

#![allow(deprecated)]

use cache_padded::CachePadded;
use vstd::prelude::*;

verus! {

/// `cache_padded::CachePadded`: a value, padded and aligned to the length of a cache line.
#[verifier::external_type_specification]
#[verifier::external_body]
#[verifier::reject_recursive_types(T)]
pub struct ExCachePadded<T>(CachePadded<T>);

/// The index inside the padding.
pub uninterp spec fn padded_index(padded: CachePadded<usize>) -> usize;

/// `CachePadded::new`: the padding holds the given index.
#[verifier::external_body]
pub(crate) fn pad_index(index: usize) -> (padded: CachePadded<usize>)
    ensures
        padded_index(padded) == index,
{
    CachePadded::new(index)
}

/// `CachePadded::deref`: gives the index inside the padding.
#[verifier::external_body]
pub(crate) fn load_index(padded: &CachePadded<usize>) -> (index: usize)
    ensures
        index == padded_index(*padded),
{
    **padded
}

/// `CachePadded::deref_mut`: gives access to the index inside the padding, here to overwrite it.
#[verifier::external_body]
pub(crate) fn store_index(padded: &mut CachePadded<usize>, index: usize)
    ensures
        padded_index(*final(padded)) == index,
{
    **padded = index;
}

} // verus!
