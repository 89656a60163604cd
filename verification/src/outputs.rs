//! Marshaling of foreign outputs back into runtime data, and the default
//! output rule.
//!
//! The foreign side returns a list of (port, bytes) outputs. The adapter
//! wraps each byte buffer as a pass-through runtime data value and collects
//! the list into a per-port mapping, the last output winning when the
//! foreign side emits the same port twice.

use vstd::prelude::*;

use crate::assoc::assoc_map;
use crate::assoc::lemma_assoc_map_push;
use crate::boundary::ZFCxxData;
use crate::boundary::ZFCxxOutput;
use crate::errors::ForeignError;
use crate::errors::ZFError;
use crate::strmap::StrMap;

verus! {

/// Delivery action the runtime takes for one produced output.
pub enum ZFComponentOutput<D> {
    /// Deliver this data downstream.
    Data(D),
}

/// The per-port associations of a foreign output list, the last output
/// winning when a port is emitted twice.
pub open spec fn outputs_map(s: Seq<ZFCxxOutput>) -> Map<Seq<char>, Seq<u8>> {
    assoc_map(s.map_values(|o: ZFCxxOutput| (o.port_id@, o.data@)))
}

/// Collects a foreign output list into a per-port mapping of runtime data
/// values, each byte buffer wrapped unchanged; when the foreign side emits
/// the same port twice, the last output wins.
pub fn collect_outputs(outputs: Vec<ZFCxxOutput>) -> (m: StrMap<ZFCxxData>)
    ensures
        m.wf(),
        m@ == outputs_map(outputs@),
{
    let ghost orig = outputs@;
    let mut outputs = outputs;
    let mut m = StrMap::<ZFCxxData>::new();
    let ghost pairs = orig.map_values(|o: ZFCxxOutput| (o.port_id@, o.data@));
    let n = outputs.len();
    proof {
        assert(orig.len() == n);
    }
    let mut k: usize = 0;
    while outputs.len() > 0
        invariant
            k <= orig.len() <= usize::MAX,
            outputs@ == orig.subrange(k as int, orig.len() as int),
            pairs == orig.map_values(|o: ZFCxxOutput| (o.port_id@, o.data@)),
            m.wf(),
            m@ == assoc_map(pairs.take(k as int)),
        decreases outputs@.len(),
    {
        let o = outputs.remove(0);
        proof {
            assert(o == orig[k as int]);
            lemma_assoc_map_push(pairs.take(k as int), o.port_id@, o.data@);
            assert(pairs.take(k as int).push((o.port_id@, o.data@)) =~= pairs.take(k + 1 as int));
            assert(outputs@ =~= orig.subrange(k + 1 as int, orig.len() as int));
        }
        m.insert(o.port_id, ZFCxxData::new(o.data));
        k += 1;
    }
    proof {
        assert(pairs.take(k as int) =~= pairs);
    }
    m
}

/// Collapses a foreign run's result into the runtime's shape: on success
/// the outputs are collected per port (last output winning on a duplicate
/// port), on failure a single generic error is reported.
pub fn collect_run_result(result: Result<Vec<ZFCxxOutput>, ForeignError>) -> (r: Result<
    StrMap<ZFCxxData>,
    ZFError,
>)
    ensures
        match result {
            Ok(outs) => r is Ok && r->Ok_0.wf() && r->Ok_0@ == outputs_map(outs@),
            Err(_) => r == Err::<StrMap<ZFCxxData>, ZFError>(ZFError::GenericError),
        },
{
    match result {
        Ok(outs) => Ok(collect_outputs(outs)),
        Err(_) => Err(ZFError::GenericError),
    }
}

/// The default output rule: the identity on keys and values. Every produced
/// output is wrapped unchanged as a "deliver this data" action, one result
/// per pair, with no pair added, removed or reordered.
pub fn default_output_rule<D>(outputs: Vec<(String, D)>) -> (r: Vec<(String, ZFComponentOutput<D>)>)
    ensures
        r@.len() == outputs@.len(),
        forall|i: int| 0 <= i < outputs@.len() ==> (#[trigger] r@[i]).0 == outputs@[i].0 && r@[i].1
            == ZFComponentOutput::Data(outputs@[i].1),
{
    let ghost orig = outputs@;
    let mut outputs = outputs;
    let mut r: Vec<(String, ZFComponentOutput<D>)> = Vec::new();
    let n = outputs.len();
    proof {
        assert(orig.len() == n);
    }
    let mut k: usize = 0;
    while outputs.len() > 0
        invariant
            k <= orig.len() <= usize::MAX,
            outputs@ == orig.subrange(k as int, orig.len() as int),
            r@.len() == k,
            forall|i: int| 0 <= i < k ==> (#[trigger] r@[i]).0 == orig[i].0 && r@[i].1
                == ZFComponentOutput::Data(orig[i].1),
        decreases outputs@.len(),
    {
        let (port_id, data) = outputs.remove(0);
        proof {
            assert((port_id, data) == orig[k as int]);
            assert(outputs@ =~= orig.subrange(k + 1 as int, orig.len() as int));
        }
        r.push((port_id, ZFComponentOutput::Data(data)));
        k += 1;
    }
    r
}

} // verus!
