//! Decoding core for turning a block-coded video container into timestamped
//! RGBA rasters: the error taxonomy of the native engine, the decode state
//! machine, pixel-format validation, the bounded producer/consumer handoff and
//! the reconciliation of both sides' outcomes.
pub mod codec;
pub mod error;
pub mod failure;
pub mod handoff;
pub mod pipeline;
pub mod raster;
pub mod session;
pub mod text;

pub use codec::VpxCodec;
pub use error::{cvt, AVError};
pub use failure::{check_best_stream, check_native, check_open, check_present, DecodeError, Failure, Stage};
pub use raster::{plan_conversion, ConvertPlan, Raster, StreamInfo, BYTES_PER_PIXEL};
pub use session::{Action, DecodeSession, DecodedFrame, Event, FrameMeta, Phase, PresentationTime, FRAME_FLAG_CORRUPT, FRAME_FLAG_DISCARD};
pub use handoff::{Handoff, RecvOutcome, SendOutcome};
pub use pipeline::{estimate_frame_count, reconcile, PipelineError, ProducerEnd, TIME_BASE};
pub use text::{left_pad, pad_to_width, widest};
