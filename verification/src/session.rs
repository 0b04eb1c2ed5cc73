//! Session bookkeeping for the four operations a client issues against
//! an open connection: liveness probe, readiness probe, metadata fetch,
//! inference call. The caller performs each network exchange and hands
//! the reply in; the session only records it and moves to the next
//! step, so every decision taken here is checked while the transport
//! stays outside.

use crate::codec::{size_of_datatype, DataType, Scalar};
use crate::metadata::ModelMetadata;
use crate::response::{
    decode_outputs, decoded_outputs, output_sizes_ok, raw_views, DecodeOutputsError,
    InferResponse,
};
use vstd::prelude::*;

verus! {

/// Which reply the session waits for next. The exchanges always run in
/// the same order: live, ready, metadata, infer.
#[derive(Clone, Copy, Debug, PartialEq, Eq, Structural)]
pub enum Phase {
    AwaitingLive,
    AwaitingReady,
    AwaitingMetadata,
    AwaitingInfer,
    Complete,
}

/// One client session. It borrows no transport state and spans no
/// calls: each field records the answer of one finished exchange.
pub struct Session {
    pub phase: Phase,
    pub live: Option<bool>,
    pub ready: Option<bool>,
    pub metadata: Option<ModelMetadata>,
    pub outputs: Option<Vec<Scalar>>,
}

impl Session {
    /// A fresh session that has recorded nothing.
    pub fn new() -> (s: Session)
        ensures
            s.phase == Phase::AwaitingLive,
            s.live is None,
            s.ready is None,
            s.metadata is None,
            s.outputs is None,
    {
        Session { phase: Phase::AwaitingLive, live: None, ready: None, metadata: None, outputs: None }
    }

    /// Record the server's liveness report. A reply of `false` is a
    /// successful exchange with a negative answer, not an error, and
    /// the readiness answer is left untouched: the two booleans are
    /// independent.
    pub fn on_live(&mut self, live: bool)
        requires
            old(self).phase == Phase::AwaitingLive,
        ensures
            final(self).phase == Phase::AwaitingReady,
            final(self).live == Some(live),
            final(self).ready == old(self).ready,
            final(self).metadata == old(self).metadata,
            final(self).outputs == old(self).outputs,
    {
        self.live = Some(live);
        self.phase = Phase::AwaitingReady;
    }

    /// Record the server's readiness report, leaving the liveness
    /// answer untouched.
    pub fn on_ready(&mut self, ready: bool)
        requires
            old(self).phase == Phase::AwaitingReady,
        ensures
            final(self).phase == Phase::AwaitingMetadata,
            final(self).ready == Some(ready),
            final(self).live == old(self).live,
            final(self).metadata == old(self).metadata,
            final(self).outputs == old(self).outputs,
    {
        self.ready = Some(ready);
        self.phase = Phase::AwaitingMetadata;
    }

    /// Record the metadata the server returned, unchanged.
    pub fn on_metadata(&mut self, metadata: ModelMetadata)
        requires
            old(self).phase == Phase::AwaitingMetadata,
        ensures
            final(self).phase == Phase::AwaitingInfer,
            final(self).metadata == Some(metadata),
            final(self).live == old(self).live,
            final(self).ready == old(self).ready,
            final(self).outputs == old(self).outputs,
    {
        self.metadata = Some(metadata);
        self.phase = Phase::AwaitingInfer;
    }

    /// Decode the inference reply at the expected datatypes and record
    /// the typed outputs. Decoding is all-or-nothing: on failure the
    /// error of the offending position is returned and no outputs are
    /// recorded. Either way the session is complete.
    pub fn on_infer(
        &mut self,
        response: &InferResponse,
        expected_types: &Vec<DataType>,
    ) -> (r: Result<(), DecodeOutputsError>)
        requires
            old(self).phase == Phase::AwaitingInfer,
        ensures
            final(self).phase == Phase::Complete,
            final(self).live == old(self).live,
            final(self).ready == old(self).ready,
            final(self).metadata == old(self).metadata,
            ({
                let contents = raw_views(response.raw_output_contents@);
                let types = expected_types@;
                match r {
                    Ok(_) => {
                        &&& contents.len() == types.len()
                        &&& output_sizes_ok(contents, types)
                        &&& final(self).outputs matches Some(vals) && vals@ == decoded_outputs(
                            contents,
                            types,
                        )
                    },
                    Err(DecodeOutputsError::CountMismatch) => {
                        &&& contents.len() != types.len()
                        &&& final(self).outputs == old(self).outputs
                    },
                    Err(DecodeOutputsError::SizeMismatch { index }) => {
                        &&& contents.len() == types.len()
                        &&& 0 <= index < types.len()
                        &&& contents[index as int].len() != size_of_datatype(
                            types[index as int],
                        )
                        &&& forall|j: int|
                            0 <= j < index ==> (#[trigger] contents[j]).len()
                                == size_of_datatype(types[j])
                        &&& final(self).outputs == old(self).outputs
                    },
                }
            }),
    {
        let r = decode_outputs(response, expected_types);
        self.phase = Phase::Complete;
        match r {
            Ok(vals) => {
                self.outputs = Some(vals);
                Ok(())
            },
            Err(e) => Err(e),
        }
    }
}

} // verus!
