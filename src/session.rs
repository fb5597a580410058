use vstd::prelude::*;

use crate::error::{AVError, AVERROR_EOF, EAGAIN};
use crate::failure::{native_error, DecodeError, Failure, Stage};
use crate::raster::{plan_conversion, ConvertPlan, Raster, StreamInfo};

verus! {

/// Frame flag: the codec found the frame's data corrupted.
pub const FRAME_FLAG_CORRUPT: i32 = 1;

/// Frame flag: the frame is decoded for reference only and is not to be shown.
pub const FRAME_FLAG_DISCARD: i32 = 4;

/// What the decode loop reads of a frame that the codec handed out.
#[derive(Clone, Copy, Debug, PartialEq, Eq, Structural)]
pub struct FrameMeta {
    pub flags: i32,
    pub pts: i64,
    pub width: i32,
    pub height: i32,
    pub format: i32,
}

/// A presentation time as the exact rational `scaled / den` seconds.
#[derive(Clone, Copy, Debug, PartialEq, Eq, Structural)]
pub struct PresentationTime {
    pub scaled: u128,
    pub den: u32,
}

/// The time of a non-negative timestamp in a stream whose time base is `num / den`.
pub open spec fn time_of(num: u32, den: u32, pts: i64) -> PresentationTime {
    PresentationTime { scaled: (pts * num) as u128, den }
}

/// `a` is not later than `b`, compared as rationals.
pub open spec fn time_le(a: PresentationTime, b: PresentationTime) -> bool {
    a.scaled * b.den <= b.scaled * a.den
}

/// Converting timestamps to seconds keeps their order: within one stream a
/// later timestamp never maps to an earlier time.
pub proof fn lemma_time_monotone(num: u32, den: u32, p1: i64, p2: i64)
    requires
        0 <= p1 <= p2,
    ensures
        time_le(time_of(num, den, p1), time_of(num, den, p2)),
{
    assert(p1 * num <= p2 * num) by (nonlinear_arith)
        requires 0 <= p1 <= p2, num >= 0;
    assert(p2 * num <= 0x8000_0000_0000_0000u128 * 0x1_0000_0000u128) by (nonlinear_arith)
        requires p2 <= 0x8000_0000_0000_0000u128, num <= 0x1_0000_0000u128;
    let a = (p1 * num) as u128;
    let b = (p2 * num) as u128;
    assert(a * den <= b * den) by (nonlinear_arith)
        requires a <= b, den >= 0;
}

/// The size and format that a frame carries.
pub open spec fn frame_info(m: FrameMeta) -> StreamInfo {
    StreamInfo { width: m.width, height: m.height, format: m.format }
}

/// The results of the native calls, in the order the loop makes them.
#[derive(Clone, Copy, Debug, PartialEq, Eq, Structural)]
pub enum Event {
    /// A packet was read; `stream_index` is its stream when `code` is not negative.
    PacketRead { code: i32, stream_index: i32 },
    /// The packet was handed to the codec.
    PacketSubmitted { code: i32 },
    /// The codec was asked for a frame; `frame` is meaningful when `code` is not negative.
    FrameReceived { code: i32, frame: FrameMeta },
}

/// What the loop does next.
#[derive(Clone, Copy, Debug, PartialEq, Eq, Structural)]
pub enum Action {
    /// Release the current packet, if any, and read the next one.
    ReadPacket,
    /// Hand the packet just read to the codec.
    SubmitPacket,
    /// Release the current frame, if any, and ask the codec for the next one.
    ReceiveFrame,
    /// Convert the current frame by this plan and yield it with this time.
    Convert { plan: ConvertPlan, time: PresentationTime },
    /// The stream is exhausted: there are no more frames.
    Finished,
    /// The session has failed.
    Fail(DecodeError),
}

/// Where the decode loop stands.
#[derive(Clone, Copy, Debug, PartialEq, Eq, Structural)]
pub enum Phase {
    Reading,
    Submitting,
    Draining,
    Done,
    Failed(DecodeError),
}

/// Whether `ev` is the result of the call that `phase` asks for; a finished or
/// failed session takes any event and ignores it.
pub open spec fn expects(phase: Phase, ev: Event) -> bool {
    match phase {
        Phase::Reading => ev is PacketRead,
        Phase::Submitting => ev is PacketSubmitted,
        Phase::Draining => ev is FrameReceived,
        _ => true,
    }
}

/// The action that a session in `phase` asks for.
pub open spec fn pending(phase: Phase) -> Action {
    match phase {
        Phase::Reading => Action::ReadPacket,
        Phase::Submitting => Action::SubmitPacket,
        Phase::Draining => Action::ReceiveFrame,
        Phase::Done => Action::Finished,
        Phase::Failed(e) => Action::Fail(e),
    }
}

/// The codec wants more input (`again_code`), or has been drained.
pub open spec fn drain_ended(code: i32, again_code: i32) -> bool {
    code == again_code || code == AVERROR_EOF
}

/// The decoding state of one bound stream: which call comes next, and the size
/// and format fixed by the first frame.
pub struct DecodeSession {
    stream_index: i32,
    tb_num: u32,
    tb_den: u32,
    again_code: i32,
    phase: Phase,
    info: Option<StreamInfo>,
}

/// A decoded frame: its raster, and its presentation time.
pub struct DecodedFrame {
    pub raster: Raster,
    pub time: PresentationTime,
}

impl DecodeSession {
    pub closed spec fn spec_stream_index(&self) -> i32 {
        self.stream_index
    }

    pub closed spec fn spec_tb_num(&self) -> u32 {
        self.tb_num
    }

    pub closed spec fn spec_tb_den(&self) -> u32 {
        self.tb_den
    }

    /// The native code by which the codec asks for more input.
    pub closed spec fn spec_again_code(&self) -> i32 {
        self.again_code
    }

    pub closed spec fn spec_phase(&self) -> Phase {
        self.phase
    }

    /// Size and format of the session's first converted frame, once there is one.
    pub closed spec fn spec_info(&self) -> Option<StreamInfo> {
        self.info
    }

    pub closed spec fn wf(&self) -> bool {
        self.tb_den > 0 && self.again_code < 0
    }

    /// Starts a session on the stream with this index and time base, which must
    /// be a non-negative rational with a positive denominator. The codec asks
    /// for more input with `-EAGAIN`, as on Linux and Windows.
    pub fn new(stream_index: i32, tb_num: i32, tb_den: i32) -> (r: Result<DecodeSession, DecodeError>)
        ensures
            r is Ok <==> tb_num >= 0 && tb_den > 0,
            r is Ok ==> ({
                let s = r->Ok_0;
                &&& s.wf()
                &&& s.spec_stream_index() == stream_index
                &&& s.spec_tb_num() == tb_num
                &&& s.spec_tb_den() == tb_den
                &&& s.spec_again_code() == -EAGAIN
                &&& s.spec_phase() == Phase::Reading
                &&& s.spec_info() is None
            }),
            r is Err ==> r->Err_0 == (DecodeError { stage: Stage::FindStream, failure: Failure::InvalidTimeBase }),
    {
        DecodeSession::with_again_errno(stream_index, tb_num, tb_den, EAGAIN)
    }

    /// As `new`, on a platform whose `EAGAIN` errno is `again_errno`.
    pub fn with_again_errno(stream_index: i32, tb_num: i32, tb_den: i32, again_errno: i32) -> (r: Result<
        DecodeSession,
        DecodeError,
    >)
        requires
            again_errno > 0,
        ensures
            r is Ok <==> tb_num >= 0 && tb_den > 0,
            r is Ok ==> ({
                let s = r->Ok_0;
                &&& s.wf()
                &&& s.spec_stream_index() == stream_index
                &&& s.spec_tb_num() == tb_num
                &&& s.spec_tb_den() == tb_den
                &&& s.spec_again_code() == -again_errno
                &&& s.spec_phase() == Phase::Reading
                &&& s.spec_info() is None
            }),
            r is Err ==> r->Err_0 == (DecodeError { stage: Stage::FindStream, failure: Failure::InvalidTimeBase }),
    {
        if tb_num < 0 || tb_den <= 0 {
            return Err(DecodeError { stage: Stage::FindStream, failure: Failure::InvalidTimeBase });
        }
        Ok(DecodeSession {
            stream_index,
            tb_num: tb_num as u32,
            tb_den: tb_den as u32,
            again_code: -again_errno,
            phase: Phase::Reading,
            info: None,
        })
    }

    /// The action that the session asks for now.
    pub fn resume(&self) -> (r: Action)
        ensures
            r == pending(self.spec_phase()),
    {
        match self.phase {
            Phase::Reading => Action::ReadPacket,
            Phase::Submitting => Action::SubmitPacket,
            Phase::Draining => Action::ReceiveFrame,
            Phase::Done => Action::Finished,
            Phase::Failed(e) => Action::Fail(e),
        }
    }

    /// The size and format fixed by the first frame, if one was converted.
    pub fn info(&self) -> (r: Option<StreamInfo>)
        ensures
            r == self.spec_info(),
    {
        self.info
    }

    /// Advances the decode loop by the result of the call it asked for.
    ///
    /// A finished session stays finished and a failed one stays failed. Once the
    /// first frame has fixed the session's size and format, they never change:
    /// a later frame that differs fails the session.
    pub fn step(&mut self, ev: Event) -> (r: Action)
        requires
            old(self).wf(),
            expects(old(self).spec_phase(), ev),
        ensures
            final(self).wf(),
            final(self).spec_stream_index() == old(self).spec_stream_index(),
            final(self).spec_tb_num() == old(self).spec_tb_num(),
            final(self).spec_tb_den() == old(self).spec_tb_den(),
            final(self).spec_again_code() == old(self).spec_again_code(),
            r == pending(final(self).spec_phase()) || r is Convert,
            r is Convert ==> final(self).spec_phase() == Phase::Draining,
            old(self).spec_info() is Some ==> final(self).spec_info() == old(self).spec_info(),
            // a session that is over ignores the event
            old(self).spec_phase() is Done || old(self).spec_phase() is Failed ==> r == pending(old(self).spec_phase())
                && final(self).spec_phase() == old(self).spec_phase(),
            // reading a packet
            old(self).spec_phase() is Reading ==> ({
                let code = ev->PacketRead_code;
                let index = ev->PacketRead_stream_index;
                &&& code == AVERROR_EOF ==> r == Action::Finished
                &&& code < 0 && code != AVERROR_EOF ==> r == Action::Fail(native_error(Stage::ReadPacket, code))
                &&& code >= 0 && index != old(self).spec_stream_index() ==> r == Action::ReadPacket
                &&& code >= 0 && index == old(self).spec_stream_index() ==> r == Action::SubmitPacket
                &&& final(self).spec_info() == old(self).spec_info()
            }),
            // submitting it
            old(self).spec_phase() is Submitting ==> ({
                let code = ev->PacketSubmitted_code;
                &&& code < 0 ==> r == Action::Fail(native_error(Stage::SubmitPacket, code))
                &&& code >= 0 ==> r == Action::ReceiveFrame
                &&& final(self).spec_info() == old(self).spec_info()
            }),
            // draining frames
            old(self).spec_phase() is Draining ==> ({
                let code = ev->FrameReceived_code;
                let m = ev->FrameReceived_frame;
                let corrupt = m.flags & FRAME_FLAG_CORRUPT != 0;
                let discard = m.flags & FRAME_FLAG_DISCARD != 0;
                let fi = frame_info(m);
                let shown = code >= 0 && !corrupt && !discard && m.pts >= 0;
                &&& drain_ended(code, old(self).spec_again_code()) ==> r == Action::ReadPacket
                &&& code < 0 && !drain_ended(code, old(self).spec_again_code()) ==> r == Action::Fail(native_error(Stage::ReceiveFrame, code))
                &&& code >= 0 && corrupt ==> r == Action::Fail(
                    DecodeError { stage: Stage::ReceiveFrame, failure: Failure::CorruptFrame },
                )
                &&& code >= 0 && !corrupt && discard ==> r == Action::ReceiveFrame
                &&& code >= 0 && !corrupt && !discard && m.pts < 0 ==> r == Action::Fail(
                    DecodeError { stage: Stage::ReceiveFrame, failure: Failure::NegativeTimestamp },
                )
                &&& shown && old(self).spec_info() is Some && old(self).spec_info() != Some(fi)
                    ==> r == Action::Fail(
                    DecodeError { stage: Stage::ConvertFrame, failure: Failure::InconsistentFormat },
                )
                &&& shown && (old(self).spec_info() is None || old(self).spec_info() == Some(fi)) ==> {
                    ||| !(fi.width > 0 && fi.height > 0 && fi.width * fi.height * 4 <= usize::MAX)
                        && r == Action::Fail(
                        DecodeError { stage: Stage::ConvertFrame, failure: Failure::InvalidDimensions },
                    )
                    ||| fi.width > 0 && fi.height > 0 && fi.width * fi.height * 4 <= usize::MAX
                        && r is Convert && r->plan.info == fi && r->plan.wf()
                        && r->time == time_of(old(self).spec_tb_num(), old(self).spec_tb_den(), m.pts)
                        && final(self).spec_info() == Some(fi)
                }
                &&& !(r is Convert) ==> final(self).spec_info() == old(self).spec_info()
            }),
    {
        match self.phase {
            Phase::Done | Phase::Failed(_) => self.resume(),
            Phase::Reading => {
                let (code, index) = match ev {
                    Event::PacketRead { code, stream_index } => (code, stream_index),
                    _ => (0, self.stream_index),
                };
                if code < 0 {
                    if code == AVERROR_EOF {
                        self.go(Phase::Done)
                    } else {
                        self.fail(DecodeError { stage: Stage::ReadPacket, failure: Failure::Native(AVError::from_code(code)) })
                    }
                } else if index != self.stream_index {
                    self.go(Phase::Reading)
                } else {
                    self.go(Phase::Submitting)
                }
            },
            Phase::Submitting => {
                let code = match ev {
                    Event::PacketSubmitted { code } => code,
                    _ => 0,
                };
                if code < 0 {
                    self.fail(DecodeError { stage: Stage::SubmitPacket, failure: Failure::Native(AVError::from_code(code)) })
                } else {
                    self.go(Phase::Draining)
                }
            },
            Phase::Draining => {
                let (code, m) = match ev {
                    Event::FrameReceived { code, frame } => (code, frame),
                    _ => (0, FrameMeta { flags: 0, pts: 0, width: 0, height: 0, format: 0 }),
                };
                if code < 0 {
                    if code == self.again_code || code == AVERROR_EOF {
                        self.go(Phase::Reading)
                    } else {
                        self.fail(DecodeError { stage: Stage::ReceiveFrame, failure: Failure::Native(AVError::from_code(code)) })
                    }
                } else if m.flags & FRAME_FLAG_CORRUPT != 0 {
                    self.fail(DecodeError { stage: Stage::ReceiveFrame, failure: Failure::CorruptFrame })
                } else if m.flags & FRAME_FLAG_DISCARD != 0 {
                    self.go(Phase::Draining)
                } else if m.pts < 0 {
                    self.fail(DecodeError { stage: Stage::ReceiveFrame, failure: Failure::NegativeTimestamp })
                } else {
                    let fi = StreamInfo { width: m.width, height: m.height, format: m.format };
                    let consistent = match self.info {
                        Some(i) => i == fi,
                        None => true,
                    };
                    if !consistent {
                        return self.fail(DecodeError { stage: Stage::ConvertFrame, failure: Failure::InconsistentFormat });
                    }
                    match plan_conversion(fi) {
                        None => self.fail(DecodeError { stage: Stage::ConvertFrame, failure: Failure::InvalidDimensions }),
                        Some(plan) => {
                            self.info = Some(fi);
                            let time = self.time_of(m.pts);
                            Action::Convert { plan, time }
                        },
                    }
                }
            },
        }
    }

    fn time_of(&self, pts: i64) -> (r: PresentationTime)
        requires
            self.wf(),
            pts >= 0,
        ensures
            r == time_of(self.spec_tb_num(), self.spec_tb_den(), pts),
    {
        let p = pts as u128;
        let n = self.tb_num as u128;
        proof {
            assert(p * n <= 0x8000_0000_0000_0000u128 * 0x1_0000_0000u128) by (nonlinear_arith)
                requires p <= 0x8000_0000_0000_0000u128, n <= 0x1_0000_0000u128;
        }
        PresentationTime { scaled: p * n, den: self.tb_den }
    }

    /// Takes the result of converting a frame by `plan`: the raster when the
    /// conversion reported success and filled exactly the planned buffer, and a
    /// failed session otherwise.
    pub fn complete_frame(&mut self, plan: ConvertPlan, time: PresentationTime, ret: i32, pixels: Vec<u8>) -> (r: Result<DecodedFrame, DecodeError>)
        requires
            plan.wf(),
        ensures
            r is Ok <==> ret > 0 && pixels@.len() == plan.byte_len,
            r is Ok ==> ({
                let d = r->Ok_0;
                &&& d.raster.wf()
                &&& d.raster.spec_width() == plan.info.width
                &&& d.raster.spec_height() == plan.info.height
                &&& d.raster.spec_pixels() == pixels@
                &&& d.time == time
                &&& final(self).spec_phase() == old(self).spec_phase()
            }),
            r is Err ==> r->Err_0 == (DecodeError { stage: Stage::ConvertFrame, failure: Failure::ConvertFailed })
                && final(self).spec_phase() == Phase::Failed(r->Err_0),
            final(self).wf() == old(self).wf(),
            final(self).spec_info() == old(self).spec_info(),
            final(self).spec_stream_index() == old(self).spec_stream_index(),
            final(self).spec_tb_num() == old(self).spec_tb_num(),
            final(self).spec_tb_den() == old(self).spec_tb_den(),
            final(self).spec_again_code() == old(self).spec_again_code(),
    {
        let e = DecodeError { stage: Stage::ConvertFrame, failure: Failure::ConvertFailed };
        if ret <= 0 {
            self.fail(e);
            return Err(e);
        }
        match Raster::from_pixels(plan.info.width as u32, plan.info.height as u32, pixels) {
            Ok(raster) => Ok(DecodedFrame { raster, time }),
            Err(_) => {
                self.fail(e);
                Err(e)
            },
        }
    }

    fn fail(&mut self, e: DecodeError) -> (r: Action)
        ensures
            r == Action::Fail(e),
            final(self).spec_phase() == Phase::Failed(e),
            final(self).spec_info() == old(self).spec_info(),
            final(self).spec_stream_index() == old(self).spec_stream_index(),
            final(self).spec_tb_num() == old(self).spec_tb_num(),
            final(self).spec_tb_den() == old(self).spec_tb_den(),
            final(self).spec_again_code() == old(self).spec_again_code(),
    {
        self.phase = Phase::Failed(e);
        Action::Fail(e)
    }

    fn go(&mut self, phase: Phase) -> (r: Action)
        ensures
            r == pending(phase),
            final(self).spec_phase() == phase,
            final(self).spec_info() == old(self).spec_info(),
            final(self).spec_stream_index() == old(self).spec_stream_index(),
            final(self).spec_tb_num() == old(self).spec_tb_num(),
            final(self).spec_tb_den() == old(self).spec_tb_den(),
            final(self).spec_again_code() == old(self).spec_again_code(),
    {
        self.phase = phase;
        self.resume()
    }
}

} // verus!
