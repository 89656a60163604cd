//! Marshaling of committed input data into boundary records for `run`.
//!
//! Unlike tokens, inputs carry no status or action: they are data the
//! runtime has already accepted for this run. Each (port, message) pair
//! becomes one boundary input with the serialized payload and the
//! timestamp carried through unchanged.

use vstd::prelude::*;

use crate::boundary::ZFCxxInput;
use crate::data::ZFDataMessage;
use crate::data::ZFDataTrait;
use crate::errors::ZFError;

verus! {

/// What the boundary record of a committed input must hold: the port
/// identity, the serialized payload and the unchanged timestamp.
pub open spec fn boundary_input_matches<D: ZFDataTrait>(
    b: ZFCxxInput,
    port: Seq<char>,
    dm: ZFDataMessage<D>,
) -> bool {
    b.port_id@ == port && b.data@ == dm.data.serialized() && b.timestamp == dm.timestamp
}

impl ZFCxxInput {
    /// Converts one port's data message into its boundary input, serializing
    /// the payload on demand and propagating that step's failure.
    pub fn from_data_message<D: ZFDataTrait>(port_id: &str, data_message: &ZFDataMessage<D>) -> (r:
        Result<Self, ZFError>)
        ensures
            data_message.data.serializable() ==> (r is Ok && boundary_input_matches(
                r->Ok_0,
                port_id@,
                *data_message,
            )),
            !data_message.data.serializable() ==> r is Err,
    {
        match data_message.data.serialize() {
            Ok(data) => Ok(Self {
                port_id: port_id.to_owned(),
                data,
                timestamp: data_message.timestamp,
            }),
            Err(e) => Err(e),
        }
    }
}

/// Whether marshaling a whole input set succeeds: every payload must
/// serialize.
pub open spec fn inputs_serializable<D: ZFDataTrait>(
    inputs: Seq<(String, ZFDataMessage<D>)>,
) -> bool {
    forall|i: int| 0 <= i < inputs.len() ==> (#[trigger] inputs[i].1).data.serializable()
}

/// Converts the full input set of one run — one (port, message) pair per
/// input port — into a list of boundary inputs, one per pair and in the
/// pairs' order, propagating the first conversion failure.
pub fn inputs_to_boundary<D: ZFDataTrait>(inputs: &Vec<(String, ZFDataMessage<D>)>) -> (r: Result<
    Vec<ZFCxxInput>,
    ZFError,
>)
    ensures
        inputs_serializable(inputs@) ==> (r is Ok && r->Ok_0@.len() == inputs@.len() && forall|
            i: int,
        |
            0 <= i < inputs@.len() ==> boundary_input_matches(
                #[trigger] r->Ok_0@[i],
                inputs@[i].0@,
                inputs@[i].1,
            )),
        !inputs_serializable(inputs@) ==> r is Err,
{
    let mut out: Vec<ZFCxxInput> = Vec::new();
    let n = inputs.len();
    let mut i: usize = 0;
    while i < n
        invariant
            n == inputs@.len(),
            i <= n,
            out@.len() == i,
            forall|t: int| 0 <= t < i ==> (#[trigger] inputs@[t].1).data.serializable(),
            forall|t: int| 0 <= t < i ==> boundary_input_matches(
                #[trigger] out@[t],
                inputs@[t].0@,
                inputs@[t].1,
            ),
        decreases n - i,
    {
        match ZFCxxInput::from_data_message(inputs[i].0.as_str(), &inputs[i].1) {
            Ok(b) => out.push(b),
            Err(e) => {
                proof {
                    assert(!(inputs@[i as int].1).data.serializable());
                }
                return Err(e);
            },
        }
        i += 1;
    }
    Ok(out)
}

} // verus!
