//! Decoding, caching and preprocessing of background animation images.

use vstd::prelude::*;
use std::sync::Arc;

pub mod frame_queue;
pub mod image;
pub mod preload;
pub mod texture_pool;

verus! {

/// `Arc::clone` of std: a second pointer to the same value. The contract
/// says that the value behind the new pointer is the one behind the old.
#[verifier::external_body]
pub(crate) fn share<T>(value: &Arc<T>) -> (shared: Arc<T>)
    ensures
        shared == *value,
{
    Arc::clone(value)
}

} // verus!
