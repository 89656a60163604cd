//! The operator adapter: a node with gated inputs that produces outputs.
//!
//! Each method composes the pure marshalers around one foreign call:
//! runtime values are flattened into boundary records before the call, and
//! the foreign result is folded back into the runtime's shapes after it,
//! every foreign failure collapsing into a single generic error.

use vstd::prelude::*;

use crate::boundary::ZFCxxContext;
use crate::boundary::ZFCxxData;
use crate::configuration::ConfigMap;
use crate::configuration::config_to_boundary;
use crate::context::ZFContext;
use crate::data::ZFDataMessage;
use crate::data::ZFDataTrait;
use crate::errors::ZFError;
use crate::errors::map_foreign_err;
use crate::foreign::ForeignOperator;
use crate::foreign::ZFCxxStateWrapper;
use crate::input::inputs_serializable;
use crate::input::inputs_to_boundary;
use crate::outputs::ZFComponentOutput;
use crate::outputs::collect_run_result;
use crate::outputs::default_output_rule;
use crate::strmap::StrMap;
use crate::token::Token;
use crate::token::tokens_serializable;
use crate::token::tokens_to_boundary;

verus! {

/// Adapter that plugs a foreign operator into the runtime's component
/// contract.
pub struct ZFCxxOperator;

impl ZFCxxOperator {
    /// Creates the node's state: the configuration is marshaled into a
    /// well-formed (possibly empty) boundary list and the foreign
    /// `initialize` hands back the opaque state the wrapper will route
    /// through every later call.
    pub fn initialize<F: ForeignOperator>(
        foreign: &F,
        configuration: &Option<ConfigMap>,
    ) -> ZFCxxStateWrapper<F::State> {
        let cxx_configuration = config_to_boundary(configuration);
        let state = foreign.initialize(&cxx_configuration);
        ZFCxxStateWrapper { state }
    }

    /// Tears the node down. Releasing the foreign state is the foreign
    /// module's responsibility when the wrapper is dropped, so this always
    /// succeeds.
    pub fn clean<S>(_state: &mut ZFCxxStateWrapper<S>) -> (r: Result<(), ZFError>)
        ensures
            r == Ok::<(), ZFError>(()),
    {
        Ok(())
    }

    /// Gates this invocation's inputs: every token is flattened into its
    /// boundary record (the first serialization failure aborts the call
    /// before any foreign invocation) and the foreign `input_rule` decides.
    /// Its boolean comes back verbatim; its failure comes back as the
    /// generic error.
    pub fn input_rule<F: ForeignOperator, D: ZFDataTrait>(
        foreign: &F,
        context: &ZFContext,
        state: &mut ZFCxxStateWrapper<F::State>,
        tokens: &Vec<(String, Token<D>)>,
    ) -> (r: Result<bool, ZFError>)
        ensures
            !tokens_serializable(tokens@) ==> r is Err,
            tokens_serializable(tokens@) ==> (r is Ok || r == Err::<bool, ZFError>(
                ZFError::GenericError,
            )),
    {
        let mut cxx_tokens = match tokens_to_boundary(tokens) {
            Ok(v) => v,
            Err(e) => {
                return Err(e);
            },
        };
        let mut cxx_context = ZFCxxContext::from(context);
        map_foreign_err(foreign.input_rule(&mut cxx_context, &mut state.state, &mut cxx_tokens))
    }

    /// Routes produced outputs by the default rule: every pair is kept, in
    /// order, its data wrapped unchanged as a "deliver this data" action.
    pub fn output_rule<S, D>(
        _context: &ZFContext,
        _state: &ZFCxxStateWrapper<S>,
        outputs: Vec<(String, D)>,
    ) -> (r: Result<Vec<(String, ZFComponentOutput<D>)>, ZFError>)
        ensures
            r is Ok,
            r->Ok_0@.len() == outputs@.len(),
            forall|i: int| 0 <= i < outputs@.len() ==> (#[trigger] r->Ok_0@[i]).0 == outputs@[i].0
                && r->Ok_0@[i].1 == ZFComponentOutput::Data(outputs@[i].1),
    {
        Ok(default_output_rule(outputs))
    }

    /// Runs the node: the committed inputs are marshaled into boundary
    /// records (the first serialization failure aborts the call before any
    /// foreign invocation), the foreign `run` computes, and on its success
    /// the returned outputs are collected into a well-formed per-port
    /// mapping, the last output winning on a duplicate port; on its failure
    /// the generic error is reported.
    pub fn run<F: ForeignOperator, D: ZFDataTrait>(
        foreign: &F,
        context: &ZFContext,
        state: &mut ZFCxxStateWrapper<F::State>,
        inputs: &Vec<(String, ZFDataMessage<D>)>,
    ) -> (r: Result<StrMap<ZFCxxData>, ZFError>)
        ensures
            !inputs_serializable(inputs@) ==> r is Err,
            inputs_serializable(inputs@) ==> (match r {
                Ok(m) => m.wf(),
                Err(e) => e == ZFError::GenericError,
            }),
    {
        let mut cxx_context = ZFCxxContext::from(context);
        let cxx_inputs = match inputs_to_boundary(inputs) {
            Ok(v) => v,
            Err(e) => {
                return Err(e);
            },
        };
        collect_run_result(foreign.run(&mut cxx_context, &mut state.state, cxx_inputs))
    }
}

} // verus!
