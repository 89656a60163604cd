//! The source adapter: a node with no inputs that produces outputs.

use vstd::prelude::*;

use crate::boundary::ZFCxxContext;
use crate::boundary::ZFCxxData;
use crate::configuration::ConfigMap;
use crate::configuration::config_to_boundary;
use crate::context::ZFContext;
use crate::errors::ZFError;
use crate::foreign::ForeignSource;
use crate::foreign::ZFCxxStateWrapper;
use crate::outputs::ZFComponentOutput;
use crate::outputs::collect_run_result;
use crate::outputs::default_output_rule;
use crate::strmap::StrMap;

verus! {

/// Adapter that plugs a foreign source into the runtime's component
/// contract.
pub struct MySource;

impl MySource {
    /// Creates the node's state: the configuration is marshaled into a
    /// well-formed (possibly empty) boundary list and the foreign
    /// `initialize` hands back the opaque state the wrapper will route
    /// through every later call.
    pub fn initialize<F: ForeignSource>(
        foreign: &F,
        configuration: &Option<ConfigMap>,
    ) -> ZFCxxStateWrapper<F::State> {
        let cxx_configuration = config_to_boundary(configuration);
        let state = foreign.initialize(&cxx_configuration);
        ZFCxxStateWrapper { state }
    }

    /// Tears the node down; always succeeds, as for the other node kinds.
    pub fn clean<S>(_state: &mut ZFCxxStateWrapper<S>) -> (r: Result<(), ZFError>)
        ensures
            r == Ok::<(), ZFError>(()),
    {
        Ok(())
    }

    /// Routes produced outputs by the default rule: every pair is kept, in
    /// order, its data wrapped unchanged as a "deliver this data" action.
    pub fn output_rule<S, D>(
        _context: &ZFContext,
        _state: &ZFCxxStateWrapper<S>,
        outputs: Vec<(String, D)>,
    ) -> (r: Result<Vec<(String, ZFComponentOutput<D>)>, ZFError>)
        ensures
            r is Ok,
            r->Ok_0@.len() == outputs@.len(),
            forall|i: int| 0 <= i < outputs@.len() ==> (#[trigger] r->Ok_0@[i]).0 == outputs@[i].0
                && r->Ok_0@[i].1 == ZFComponentOutput::Data(outputs@[i].1),
    {
        Ok(default_output_rule(outputs))
    }

    /// Runs the node: there are no inputs to marshal, so the foreign `run`
    /// is invoked directly; on its success the returned outputs are
    /// collected into a well-formed per-port mapping, the last output
    /// winning on a duplicate port, and on its failure the generic error
    /// is reported.
    pub fn run<F: ForeignSource>(
        foreign: &F,
        context: &ZFContext,
        state: &mut ZFCxxStateWrapper<F::State>,
    ) -> (r: Result<StrMap<ZFCxxData>, ZFError>)
        ensures
            match r {
                Ok(m) => m.wf(),
                Err(e) => e == ZFError::GenericError,
            },
    {
        let mut cxx_context = ZFCxxContext::from(context);
        collect_run_result(foreign.run(&mut cxx_context, &mut state.state))
    }
}

} // verus!
