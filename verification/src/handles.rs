//! Shared read-only handles to pool records.

use std::sync::Arc;
use vstd::prelude::*;
use crate::models::pool::PoolData;

verus! {

/// Makes another handle to the same record through `Arc::clone`, which
/// copies the pointer and leaves the record where it is: both handles hold
/// the same value.
#[verifier::external_body]
pub(crate) fn share(pool: &Arc<PoolData>) -> (shared: Arc<PoolData>)
    ensures
        shared == *pool,
{
    Arc::clone(pool)
}

} // verus!
