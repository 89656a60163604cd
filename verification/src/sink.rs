//! The sink adapter: a terminal node that gates and consumes inputs and
//! produces nothing downstream.

use vstd::prelude::*;

use crate::boundary::ZFCxxContext;
use crate::configuration::ConfigMap;
use crate::configuration::config_to_boundary;
use crate::context::ZFContext;
use crate::data::ZFDataMessage;
use crate::data::ZFDataTrait;
use crate::errors::ZFError;
use crate::errors::map_foreign_err;
use crate::foreign::ForeignSink;
use crate::foreign::ZFCxxStateWrapper;
use crate::input::inputs_serializable;
use crate::input::inputs_to_boundary;
use crate::token::Token;
use crate::token::tokens_serializable;
use crate::token::tokens_to_boundary;

verus! {

/// Adapter that plugs a foreign sink into the runtime's component
/// contract.
pub struct ZFCxxSink;

impl ZFCxxSink {
    /// Creates the node's state: the configuration is marshaled into a
    /// well-formed (possibly empty) boundary list and the foreign
    /// `initialize` hands back the opaque state the wrapper will route
    /// through every later call.
    pub fn initialize<F: ForeignSink>(
        foreign: &F,
        configuration: &Option<ConfigMap>,
    ) -> ZFCxxStateWrapper<F::State> {
        let cxx_configuration = config_to_boundary(configuration);
        let state = foreign.initialize(&cxx_configuration);
        ZFCxxStateWrapper { state }
    }

    /// Tears the node down; always succeeds, as for an operator.
    pub fn clean<S>(_state: &mut ZFCxxStateWrapper<S>) -> (r: Result<(), ZFError>)
        ensures
            r == Ok::<(), ZFError>(()),
    {
        Ok(())
    }

    /// Gates this invocation's inputs exactly as an operator does: the
    /// boundary tokens go to the foreign `input_rule`, whose boolean comes
    /// back verbatim and whose failure comes back as the generic error.
    pub fn input_rule<F: ForeignSink, D: ZFDataTrait>(
        foreign: &F,
        context: &ZFContext,
        state: &mut ZFCxxStateWrapper<F::State>,
        tokens: &Vec<(String, Token<D>)>,
    ) -> (r: Result<bool, ZFError>)
        ensures
            !tokens_serializable(tokens@) ==> r is Err,
            tokens_serializable(tokens@) ==> (r is Ok || r == Err::<bool, ZFError>(
                ZFError::GenericError,
            )),
    {
        let mut cxx_tokens = match tokens_to_boundary(tokens) {
            Ok(v) => v,
            Err(e) => {
                return Err(e);
            },
        };
        let mut cxx_context = ZFCxxContext::from(context);
        map_foreign_err(foreign.input_rule(&mut cxx_context, &mut state.state, &mut cxx_tokens))
    }

    /// Runs the node: the committed inputs are marshaled into boundary
    /// records (the first serialization failure aborts the call before any
    /// foreign invocation) and handed to the foreign `run`, which consumes
    /// them. No output mapping is ever constructed: the result is unit on
    /// foreign success and the generic error on foreign failure.
    pub fn run<F: ForeignSink, D: ZFDataTrait>(
        foreign: &F,
        context: &ZFContext,
        state: &mut ZFCxxStateWrapper<F::State>,
        inputs: &Vec<(String, ZFDataMessage<D>)>,
    ) -> (r: Result<(), ZFError>)
        ensures
            !inputs_serializable(inputs@) ==> r is Err,
            inputs_serializable(inputs@) ==> (r == Ok::<(), ZFError>(()) || r == Err::<
                (),
                ZFError,
            >(ZFError::GenericError)),
    {
        let mut cxx_context = ZFCxxContext::from(context);
        let cxx_inputs = match inputs_to_boundary(inputs) {
            Ok(v) => v,
            Err(e) => {
                return Err(e);
            },
        };
        map_foreign_err(foreign.run(&mut cxx_context, &mut state.state, cxx_inputs))
    }
}

} // verus!
