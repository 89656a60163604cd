//! Error model of the adapter layer.
//!
//! Failures reported to the host runtime fall into two kinds: a payload's
//! on-demand serialization failed while building a boundary value, or the
//! foreign call itself reported an error. Rich foreign diagnostics are
//! deliberately collapsed into a single generic kind before they reach the
//! runtime.

use vstd::prelude::*;

verus! {

/// Error kinds the adapter reports to the host runtime.
#[derive(Clone, Copy, Debug, PartialEq, Eq, Structural)]
pub enum ZFError {
    /// A foreign call failed, or the failure has no more precise kind.
    GenericError,
    /// A payload's on-demand serialization step failed.
    SerializationError,
}

/// Error reported by the foreign module across the boundary.
///
/// Its detail never crosses back into the runtime's error model: the adapter
/// collapses every foreign failure into [`ZFError::GenericError`].
pub struct ForeignError {
    /// Human-readable description handed over by the foreign module.
    pub message: String,
}

/// Collapses a foreign call's result into the runtime's error model: the
/// success value is passed through verbatim, every foreign error becomes
/// [`ZFError::GenericError`].
pub fn map_foreign_err<T>(r: Result<T, ForeignError>) -> (res: Result<T, ZFError>)
    ensures
        match r {
            Ok(v) => res == Ok::<T, ZFError>(v),
            Err(_) => res == Err::<T, ZFError>(ZFError::GenericError),
        },
{
    match r {
        Ok(v) => Ok(v),
        Err(_) => Err(ZFError::GenericError),
    }
}

} // verus!
