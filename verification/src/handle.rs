//! Handles on values that are shared by reference count.

use std::sync::Arc;
use vstd::prelude::*;

verus! {

/// Another handle on the value behind `handle`.
///
/// Calls `Arc::clone`, which makes a new pointer to the same allocation and
/// counts it; the value itself is neither copied nor touched. So what the
/// new handle points to is what the old one points to.
#[verifier::external_body]
pub(crate) fn share<T>(handle: &Arc<T>) -> (shared: Arc<T>)
    ensures
        shared == *handle,
{
    Arc::clone(handle)
}

} // verus!
