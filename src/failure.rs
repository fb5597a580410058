use vstd::prelude::*;

use crate::error::{kind_of, AVError};

verus! {

/// The operation that was under way when a failure happened.
#[derive(Clone, Copy, Debug, PartialEq, Eq, Structural)]
pub enum Stage {
    OpenInput,
    FindStreamInfo,
    FindStream,
    FindDecoder,
    AllocContext,
    CopyParameters,
    OpenCodec,
    AllocPacket,
    AllocFrame,
    ReadPacket,
    SubmitPacket,
    ReceiveFrame,
    ConvertFrame,
}

/// What went wrong, independently of where.
#[derive(Clone, Copy, Debug, PartialEq, Eq, Structural)]
pub enum Failure {
    /// The native engine reported this categorized error.
    Native(AVError),
    /// Opening succeeded but produced no container handle.
    EmptyInput,
    /// The engine has no implementation of the requested decoder.
    DecoderNotFound,
    /// The engine could not allocate a handle.
    AllocationFailed,
    /// The codec flagged a decoded frame as corrupted.
    CorruptFrame,
    /// A decoded frame carried a negative presentation timestamp.
    NegativeTimestamp,
    /// A frame's size or pixel format differs from the session's first frame.
    InconsistentFormat,
    /// A frame's size is not positive, or its raster does not fit in memory.
    InvalidDimensions,
    /// The stream's time base is not a non-negative rational with a positive denominator.
    InvalidTimeBase,
    /// The pixel conversion reported failure or filled a buffer of the wrong size.
    ConvertFailed,
}

/// A failure together with the stage it happened in; the stage is context and
/// never hides the underlying kind.
#[derive(Clone, Copy, Debug, PartialEq, Eq, Structural)]
pub struct DecodeError {
    pub stage: Stage,
    pub failure: Failure,
}

/// The error for a negative native result at a stage.
pub open spec fn native_error(stage: Stage, ret: i32) -> DecodeError {
    DecodeError { stage, failure: Failure::Native(kind_of(ret)) }
}

/// Checks the result of a native call made at `stage`.
pub fn check_native(stage: Stage, ret: i32) -> (r: Result<(), DecodeError>)
    ensures
        ret >= 0 <==> r is Ok,
        ret < 0 ==> r == Err::<(), DecodeError>(native_error(stage, ret)),
{
    if ret >= 0 {
        Ok(())
    } else {
        Err(DecodeError { stage, failure: Failure::Native(AVError::from_code(ret)) })
    }
}

/// The failure that a missing handle means at each stage.
pub open spec fn missing_handle(stage: Stage) -> Failure {
    match stage {
        Stage::OpenInput => Failure::EmptyInput,
        Stage::FindDecoder => Failure::DecoderNotFound,
        _ => Failure::AllocationFailed,
    }
}

/// Checks that a stage produced the handle it was meant to produce.
pub fn check_present(stage: Stage, present: bool) -> (r: Result<(), DecodeError>)
    ensures
        present <==> r is Ok,
        !present ==> r == Err::<(), DecodeError>(DecodeError { stage, failure: missing_handle(stage) }),
{
    if present {
        Ok(())
    } else {
        let failure = match stage {
            Stage::OpenInput => Failure::EmptyInput,
            Stage::FindDecoder => Failure::DecoderNotFound,
            _ => Failure::AllocationFailed,
        };
        Err(DecodeError { stage, failure })
    }
}

/// Checks the opening of a container: a negative result is an open failure,
/// and a success without a handle is an empty input.
pub fn check_open(ret: i32, handle_present: bool) -> (r: Result<(), DecodeError>)
    ensures
        r is Ok <==> ret >= 0 && handle_present,
        ret < 0 ==> r == Err::<(), DecodeError>(native_error(Stage::OpenInput, ret)),
        ret >= 0 && !handle_present ==> r == Err::<(), DecodeError>(
            DecodeError { stage: Stage::OpenInput, failure: Failure::EmptyInput },
        ),
{
    check_native(Stage::OpenInput, ret)?;
    check_present(Stage::OpenInput, handle_present)
}

/// Reads the engine's choice of best video stream: a non-negative result is the
/// stream's index, a negative one the reason that no stream qualifies.
pub fn check_best_stream(ret: i32) -> (r: Result<usize, DecodeError>)
    ensures
        ret >= 0 ==> r == Ok::<usize, DecodeError>(ret as usize),
        ret < 0 ==> r == Err::<usize, DecodeError>(native_error(Stage::FindStream, ret)),
{
    if ret >= 0 {
        Ok(ret as usize)
    } else {
        Err(DecodeError { stage: Stage::FindStream, failure: Failure::Native(AVError::from_code(ret)) })
    }
}

} // verus!
