use vstd::prelude::*;

use crate::failure::DecodeError;

verus! {

/// Native duration units per second.
pub const TIME_BASE: u64 = 1_000_000;

/// The number of frames expected from a container of this duration (in native
/// units) at this frame rate, rounded down.
pub open spec fn frames_in(duration: u64, fps_num: u32, fps_den: u32) -> int
    recommends
        fps_den > 0,
{
    (duration * fps_num) / (TIME_BASE as int) / (fps_den as int)
}

/// Estimates the frame count for progress reporting: `None` when the frame
/// rate has a zero denominator, or when the estimate is zero or does not fit.
pub fn estimate_frame_count(duration: u64, fps_num: u32, fps_den: u32) -> (r: Option<u64>)
    ensures
        r is Some <==> fps_den > 0 && 0 < frames_in(duration, fps_num, fps_den) <= u64::MAX,
        r is Some ==> r->Some_0 == frames_in(duration, fps_num, fps_den),
{
    if fps_den == 0 {
        return None;
    }
    let d = duration as u128;
    let n = fps_num as u128;
    proof {
        assert(d * n <= 0x1_0000_0000_0000_0000u128 * 0x1_0000_0000u128) by (nonlinear_arith)
            requires d <= 0x1_0000_0000_0000_0000u128, n <= 0x1_0000_0000u128;
    }
    let frames = d * n / (TIME_BASE as u128) / (fps_den as u128);
    if frames == 0 || frames > u64::MAX as u128 {
        None
    } else {
        Some(frames as u64)
    }
}

/// How the decoding side of an item ended.
#[derive(Clone, Copy, Debug, PartialEq, Eq, Structural)]
pub enum ProducerEnd {
    /// Every frame was decoded and handed off.
    Completed,
    /// The consumer stopped taking frames, so decoding stopped early.
    Stopped,
    /// Decoding failed.
    Failed(DecodeError),
}

/// Why an item was not converted.
#[derive(Clone, Copy, Debug, PartialEq, Eq)]
pub enum PipelineError<E> {
    /// Decoding failed.
    Decode(DecodeError),
    /// The consumer failed with this error.
    Consumer(E),
    /// The consumer stopped taking frames without reporting a failure.
    Incomplete,
}

/// The combined outcome of an item, once both sides have been joined.
pub open spec fn combined<E>(producer: ProducerEnd, consumer: Result<(), E>) -> Result<(), PipelineError<E>> {
    match (producer, consumer) {
        (ProducerEnd::Failed(d), _) => Err(PipelineError::Decode(d)),
        (_, Err(e)) => Err(PipelineError::Consumer(e)),
        (ProducerEnd::Stopped, Ok(())) => Err(PipelineError::Incomplete),
        (ProducerEnd::Completed, Ok(())) => Ok(()),
    }
}

/// Joins the outcomes of the two sides: the item succeeds only when both
/// succeeded; a decode failure comes first, then the consumer's failure.
pub fn reconcile<E>(producer: ProducerEnd, consumer: Result<(), E>) -> (r: Result<(), PipelineError<E>>)
    ensures
        r == combined(producer, consumer),
        r is Ok <==> producer is Completed && consumer is Ok,
{
    match producer {
        ProducerEnd::Failed(d) => Err(PipelineError::Decode(d)),
        _ => match consumer {
            Err(e) => Err(PipelineError::Consumer(e)),
            Ok(()) => match producer {
                ProducerEnd::Completed => Ok(()),
                _ => Err(PipelineError::Incomplete),
            },
        },
    }
}

} // verus!
