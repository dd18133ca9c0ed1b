//! What the sink does with one delivery: read the buffer, measure it, and
//! tell the graph how to go on.
//!
//! Each delivery is handled from what was pulled alone. Nothing is kept
//! from one delivery to the next.

use crate::buffer::{decoded, samples_of, ByteOrder, Pulled, ResourceError};
use crate::loudness::{measure, Loudness};
use vstd::prelude::*;

verus! {

/// What the sink answers to the graph after a delivery.
#[derive(Clone, Copy, Debug, PartialEq, Eq)]
pub enum FlowOutcome {
    /// The buffer was taken; send the next.
    Accepted,
    /// The stream has ended.
    EndOfStream,
    /// The buffer could not be read.
    Refused,
}

/// The result of handling one delivery.
#[derive(Clone, Copy, Debug, PartialEq, Eq)]
pub enum Delivery {
    /// The buffer was read; this is its loudness, to be emitted.
    Measured(Loudness),
    /// There was nothing to read: the stream has ended.
    Ended,
    /// The buffer could not be read; the error is to be raised on the sink.
    Failed(ResourceError),
}

impl Delivery {
    /// The answer to the graph, by variant.
    pub open spec fn flow_of(self) -> FlowOutcome {
        match self {
            Delivery::Measured(_) => FlowOutcome::Accepted,
            Delivery::Ended => FlowOutcome::EndOfStream,
            Delivery::Failed(_) => FlowOutcome::Refused,
        }
    }

    /// What to answer to the graph.
    pub fn flow(&self) -> (outcome: FlowOutcome)
        ensures
            outcome == self.flow_of(),
    {
        match self {
            Delivery::Measured(_) => FlowOutcome::Accepted,
            Delivery::Ended => FlowOutcome::EndOfStream,
            Delivery::Failed(_) => FlowOutcome::Refused,
        }
    }
}

/// `delivery` is a correct result for a buffer whose mapped memory holds
/// `bytes`: either the loudness of the samples that the bytes spell in one
/// of the two byte orders, or the refusal to reinterpret them. Empty memory
/// is always measured, and an odd number of bytes is always refused.
pub open spec fn handles_bytes(bytes: Seq<u8>, delivery: Delivery) -> bool {
    match delivery {
        Delivery::Measured(loudness) => {
            &&& bytes.len() % 2 == 0
            &&& loudness.wf()
            &&& loudness.measures(decoded(bytes, ByteOrder::LittleEndian)) || loudness.measures(
                decoded(bytes, ByteOrder::BigEndian),
            )
        },
        Delivery::Failed(error) => error == ResourceError::ReinterpretFailed && bytes.len() > 0,
        Delivery::Ended => false,
    }
}

/// Measures the samples if there is a view of them, and passes the error on
/// if there is none.
pub fn assess(view: Result<&[i16], ResourceError>) -> (delivery: Delivery)
    ensures
        match view {
            Ok(samples) => delivery matches Delivery::Measured(loudness) && loudness.measures(
                samples@,
            ) && loudness.wf(),
            Err(error) => delivery == Delivery::Failed(error),
        },
{
    match view {
        Ok(samples) => Delivery::Measured(measure(samples)),
        Err(error) => Delivery::Failed(error),
    }
}

/// Handles one delivery.
///
/// The end of the stream is passed on as such. A missing buffer and a failed
/// mapping become the matching error. Mapped memory is viewed as samples and
/// measured.
pub fn deliver(pulled: Pulled<'_>) -> (delivery: Delivery)
    ensures
        match pulled {
            Pulled::StreamEnded => delivery == Delivery::Ended,
            Pulled::NoBuffer => delivery == Delivery::Failed(ResourceError::BufferMissing),
            Pulled::Unmapped => delivery == Delivery::Failed(ResourceError::MapFailed),
            Pulled::Mapped(bytes) => handles_bytes(bytes@, delivery),
        },
{
    match pulled {
        Pulled::StreamEnded => Delivery::Ended,
        Pulled::NoBuffer => Delivery::Failed(ResourceError::BufferMissing),
        Pulled::Unmapped => Delivery::Failed(ResourceError::MapFailed),
        Pulled::Mapped(bytes) => assess(samples_of(bytes)),
    }
}

} // verus!
