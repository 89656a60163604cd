//! Marshaling of the runtime's per-invocation execution context.

use vstd::prelude::*;

use crate::boundary::ZFCxxContext;

verus! {

/// The runtime's per-invocation execution context: currently a single
/// execution-mode indicator. Owned by the runtime; the adapter projects a
/// fresh boundary value from it for every call and never caches one.
pub struct ZFContext {
    /// Execution-mode indicator of the current invocation.
    pub mode: usize,
}

impl ZFCxxContext {
    /// Projects the runtime context into its boundary value.
    pub fn from(context: &ZFContext) -> (r: Self)
        ensures
            r.mode == context.mode,
    {
        Self { mode: context.mode }
    }
}

} // verus!
