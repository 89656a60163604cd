//! The boundary representation: the narrow, primitive-typed call surface
//! separating the host runtime from the foreign module.
//!
//! Every structure here carries only strings, byte sequences, integers and
//! small enumerations, so a foreign implementation in another language can
//! consume and produce them without sharing the runtime's richer types.

use vstd::prelude::*;

verus! {

/// Boundary projection of the runtime's per-invocation execution context.
///
/// Constructed fresh for every call; the foreign side never mutates context
/// in a way the runtime observes.
pub struct ZFCxxContext {
    /// Execution-mode indicator of the current invocation.
    pub mode: usize,
}

/// Readiness status carried by a boundary token.
///
/// `DeadlineMiss` is reserved for deadline-based scheduling: no runtime token
/// variant produces it today.
#[derive(Clone, Copy, Debug, PartialEq, Eq, Structural)]
pub enum ZFCxxTokenStatus {
    /// The port has no data available yet.
    Pending,
    /// The port has data available for this invocation.
    Ready,
    /// Reserved: the port's data missed its deadline.
    DeadlineMiss,
}

/// Advisory action attached to a boundary token.
///
/// The runtime's `KeepRun` and `Keep` actions collapse into the single `Keep`
/// value here; the foreign side only reads the default action attached at
/// conversion time, it never sets this field to request an action back.
#[derive(Clone, Copy, Debug, PartialEq, Eq, Structural)]
pub enum ZFCxxTokenAction {
    /// Consume the port's data in this run.
    Consume,
    /// Discard the port's data.
    Drop,
    /// Keep the port's data for a later run.
    Keep,
    /// Reserved: defer the decision on the port's data.
    Postpone,
    /// Wait for more data before running.
    Wait,
}

/// Flattened boundary record for one port's input-readiness token.
pub struct ZFCxxToken {
    /// Whether the port has data available.
    pub status: ZFCxxTokenStatus,
    /// Suggested action for the runtime on this token.
    pub action: ZFCxxTokenAction,
    /// Identity of the port the token belongs to.
    pub port_id: String,
    /// Serialized payload bytes; empty when the port is not ready.
    pub data: Vec<u8>,
    /// Payload timestamp; zero when the port is not ready.
    pub timestamp: u64,
}

/// Committed input data for one port, exchanged only in `run`.
pub struct ZFCxxInput {
    /// Identity of the port the data arrived on.
    pub port_id: String,
    /// Serialized payload bytes.
    pub data: Vec<u8>,
    /// Payload timestamp.
    pub timestamp: u64,
}

/// Output data produced by the foreign side for one port.
pub struct ZFCxxOutput {
    /// Identity of the port the data is destined for.
    pub port_id: String,
    /// Serialized payload bytes.
    pub data: Vec<u8>,
}

/// Runtime data value built from a flat byte buffer returned by the foreign
/// side. Its serialize operation is the identity over the held bytes.
#[derive(Debug)]
pub struct ZFCxxData {
    /// The already-serialized payload bytes.
    pub bytes: Vec<u8>,
}

impl View for ZFCxxData {
    type V = Seq<u8>;

    open spec fn view(&self) -> Seq<u8> {
        self.bytes@
    }
}

impl ZFCxxData {
    /// Wraps a flat byte buffer as a runtime data value.
    pub fn new(bytes: Vec<u8>) -> (r: Self)
        ensures
            r@ == bytes@,
    {
        Self { bytes }
    }
}

/// One key/value pair of a boundary configuration list.
pub struct ZFCxxConfiguration {
    /// Configuration key.
    pub key: String,
    /// Configuration value.
    pub value: String,
}

/// Boundary representation of a configuration mapping: an ordered list of
/// key/value pairs. Pair order is arbitrary; only the key→value associations
/// matter, and every key appears exactly once.
pub struct ZFCxxConfigurationMap {
    /// The configuration pairs.
    pub map: Vec<ZFCxxConfiguration>,
}

/// The key/value associations of a boundary configuration list, as a sequence
/// of pairs of views.
pub open spec fn cfg_pairs(s: Seq<ZFCxxConfiguration>) -> Seq<(Seq<char>, Seq<char>)> {
    s.map_values(|c: ZFCxxConfiguration| (c.key@, c.value@))
}

} // verus!
