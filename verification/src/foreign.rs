//! The foreign module's call surface, and the wrapper that routes its
//! opaque state through the runtime.
//!
//! The foreign module implements a node's business logic behind the narrow
//! boundary: `initialize` hands back an opaque state value, and every later
//! call receives that state by exclusive reference. Nothing is assumed
//! about the foreign calls' results: the adapter states what holds of its
//! own work whatever they return.

use vstd::prelude::*;

use crate::boundary::ZFCxxConfigurationMap;
use crate::boundary::ZFCxxContext;
use crate::boundary::ZFCxxInput;
use crate::boundary::ZFCxxOutput;
use crate::boundary::ZFCxxToken;
use crate::errors::ForeignError;

verus! {

/// The foreign side of an operator node.
///
/// `State` is the opaque, foreign-owned state: the adapter never inspects
/// it, only routes it back into every later call.
pub trait ForeignOperator {
    /// The foreign-owned state created by `initialize`.
    type State;

    /// Creates the node's state from its boundary configuration. The call
    /// is total: the foreign module always hands back a state value.
    fn initialize(&self, configuration: &ZFCxxConfigurationMap) -> Self::State;

    /// Decides from the boundary tokens whether enough input is available
    /// to proceed to `run`.
    fn input_rule(
        &self,
        context: &mut ZFCxxContext,
        state: &mut Self::State,
        tokens: &mut Vec<ZFCxxToken>,
    ) -> Result<bool, ForeignError>;

    /// Computes this run's outputs from the boundary inputs.
    fn run(
        &self,
        context: &mut ZFCxxContext,
        state: &mut Self::State,
        inputs: Vec<ZFCxxInput>,
    ) -> Result<Vec<ZFCxxOutput>, ForeignError>;
}

/// The foreign side of a sink node: admission is gated exactly as for an
/// operator, but `run` consumes its inputs and produces nothing.
pub trait ForeignSink {
    /// The foreign-owned state created by `initialize`.
    type State;

    /// Creates the node's state from its boundary configuration.
    fn initialize(&self, configuration: &ZFCxxConfigurationMap) -> Self::State;

    /// Decides from the boundary tokens whether enough input is available
    /// to proceed to `run`.
    fn input_rule(
        &self,
        context: &mut ZFCxxContext,
        state: &mut Self::State,
        tokens: &mut Vec<ZFCxxToken>,
    ) -> Result<bool, ForeignError>;

    /// Consumes this run's boundary inputs, reporting only success or
    /// failure.
    fn run(
        &self,
        context: &mut ZFCxxContext,
        state: &mut Self::State,
        inputs: Vec<ZFCxxInput>,
    ) -> Result<(), ForeignError>;
}

/// The foreign side of a source node: no inputs to gate or consume, only
/// outputs to produce.
pub trait ForeignSource {
    /// The foreign-owned state created by `initialize`.
    type State;

    /// Creates the node's state from its boundary configuration.
    fn initialize(&self, configuration: &ZFCxxConfigurationMap) -> Self::State;

    /// Produces this run's outputs.
    fn run(
        &self,
        context: &mut ZFCxxContext,
        state: &mut Self::State,
    ) -> Result<Vec<ZFCxxOutput>, ForeignError>;
}

/// Wrapper around the foreign-owned state, created once per node instance
/// at initialization and held for the node's entire lifetime. The runtime
/// stores it in the node's state slot and hands it back, by exclusive
/// reference, into every input-rule and run call; at most one such call is
/// in flight per instance at any time.
pub struct ZFCxxStateWrapper<S> {
    /// The opaque foreign-owned state.
    pub state: S,
}

} // verus!
