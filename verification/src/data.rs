//! Marshaling of runtime data payloads into flat byte buffers.
//!
//! A runtime payload either already holds its serialized byte form or is a
//! richer in-memory value with an on-demand serialize operation. The adapter
//! only ever needs the byte form: it returns held bytes verbatim and invokes
//! the payload's own serialization otherwise, propagating its failure.

use vstd::prelude::*;

use crate::boundary::ZFCxxData;
use crate::errors::ZFError;

verus! {

/// Contract every runtime data payload satisfies: it can be asked for its
/// serialized byte form. The host runtime hands the adapter payloads through
/// this interface; implementations outside the adapter provide the richer
/// in-memory values.
pub trait ZFDataTrait: Sized {
    /// Whether this payload's on-demand serialization succeeds.
    spec fn serializable(&self) -> bool;

    /// The bytes its serialization yields when it succeeds.
    spec fn serialized(&self) -> Seq<u8>;

    /// Serializes this payload into a flat byte buffer.
    fn try_serialize(&self) -> (r: Result<Vec<u8>, ZFError>)
        ensures
            self.serializable() ==> (r is Ok && r->Ok_0@ == self.serialized()),
            !self.serializable() ==> r is Err,
    ;
}

impl ZFDataTrait for ZFCxxData {
    open spec fn serializable(&self) -> bool {
        true
    }

    open spec fn serialized(&self) -> Seq<u8> {
        self.bytes@
    }

    fn try_serialize(&self) -> (r: Result<Vec<u8>, ZFError>) {
        let copy = self.bytes.clone();
        proof {
            assert(copy@ =~= self.bytes@);
        }
        Ok(copy)
    }
}

/// Wrapping a byte buffer yields a data value whose serialization is exactly
/// those bytes: the pass-through representation round-trips every byte
/// sequence unchanged.
pub proof fn lemma_wrap_serialize_identity(d: ZFCxxData, bytes: Seq<u8>)
    requires
        d@ == bytes,
    ensures
        d.serializable(),
        d.serialized() == bytes,
{
}

/// A runtime payload as the adapter receives it: either already serialized,
/// or still a richer in-memory value.
pub enum ZFSerDeData<D> {
    /// Payload already in serialized byte form.
    Serialized(Vec<u8>),
    /// Payload held as a richer in-memory value with an on-demand serialize
    /// operation.
    Deserialized(D),
}

impl<D: ZFDataTrait> ZFSerDeData<D> {
    /// Whether marshaling this payload into bytes succeeds.
    pub open spec fn serializable(&self) -> bool {
        match self {
            ZFSerDeData::Serialized(_) => true,
            ZFSerDeData::Deserialized(d) => d.serializable(),
        }
    }

    /// The byte form marshaling yields when it succeeds.
    pub open spec fn serialized(&self) -> Seq<u8> {
        match self {
            ZFSerDeData::Serialized(b) => b@,
            ZFSerDeData::Deserialized(d) => d.serialized(),
        }
    }

    /// Marshals this payload into a flat byte buffer: held bytes are returned
    /// verbatim, a richer value is serialized on demand and its failure
    /// propagated.
    pub fn serialize(&self) -> (r: Result<Vec<u8>, ZFError>)
        ensures
            self.serializable() ==> (r is Ok && r->Ok_0@ == self.serialized()),
            !self.serializable() ==> r is Err,
    {
        match self {
            ZFSerDeData::Serialized(ser) => {
                let copy = ser.clone();
                proof {
                    assert(copy@ =~= ser@);
                }
                Ok(copy)
            },
            ZFSerDeData::Deserialized(de) => de.try_serialize(),
        }
    }
}

/// A data payload together with its timestamp, as the runtime delivers it to
/// a node's `run`.
pub struct ZFDataMessage<D> {
    /// The payload.
    pub data: ZFSerDeData<D>,
    /// The payload's timestamp, per the runtime's clock convention.
    pub timestamp: u64,
}

} // verus!
