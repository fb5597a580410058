use webm2gif::error::{
    AVERROR_BUG, AVERROR_DECODER_NOT_FOUND, AVERROR_EOF, AVERROR_EXPERIMENTAL, AVERROR_HTTP_SERVER_ERROR,
    AVERROR_INVALIDDATA, AVERROR_STREAM_NOT_FOUND, EAGAIN,
};
use webm2gif::{
    check_best_stream, check_native, check_open, check_present, cvt, estimate_frame_count, left_pad, pad_to_width,
    plan_conversion, reconcile, widest, AVError, Action, DecodeError, DecodeSession, Event, Failure, FrameMeta, Handoff,
    PipelineError, ProducerEnd, Raster, RecvOutcome, SendOutcome, Stage, StreamInfo, VpxCodec, FRAME_FLAG_CORRUPT,
    FRAME_FLAG_DISCARD,
};

fn frame(pts: i64, width: i32, height: i32, format: i32) -> FrameMeta {
    FrameMeta { flags: 0, pts, width, height, format }
}

fn received(f: FrameMeta) -> Event {
    Event::FrameReceived { code: 0, frame: f }
}

/// A session on stream 0 with a millisecond time base, ready to receive frames.
fn draining_session() -> DecodeSession {
    let mut s = DecodeSession::new(0, 1, 1000).unwrap();
    assert_eq!(s.step(Event::PacketRead { code: 0, stream_index: 0 }), Action::SubmitPacket);
    assert_eq!(s.step(Event::PacketSubmitted { code: 0 }), Action::ReceiveFrame);
    s
}

fn seconds(a: &Action) -> f64 {
    match a {
        Action::Convert { time, .. } => time.scaled as f64 / time.den as f64,
        _ => panic!("expected a frame, got {:?}", a),
    }
}

#[test]
fn codes_map_to_their_kinds() {
    assert_eq!(AVError::from_code(AVERROR_EOF), AVError::Eof);
    assert_eq!(AVError::from_code(AVERROR_STREAM_NOT_FOUND), AVError::StreamNotFound);
    assert_eq!(AVError::from_code(AVERROR_DECODER_NOT_FOUND), AVError::DecoderNotFound);
    assert_eq!(AVError::from_code(AVERROR_INVALIDDATA), AVError::InvalidData);
    assert_eq!(AVError::from_code(AVERROR_BUG), AVError::Bug);
    assert_eq!(AVError::from_code(AVERROR_EXPERIMENTAL), AVError::Experimental);
    assert_eq!(AVError::from_code(AVERROR_HTTP_SERVER_ERROR), AVError::HttpServerError);
    assert_eq!(AVError::from_code(-EAGAIN), AVError::Other(11));
    assert_eq!(AVError::from_code(-2), AVError::Other(2));
    assert_eq!(AVError::from_code(i32::MIN), AVError::Other(i32::MIN));
}

#[test]
fn tag_codes_match_their_letters() {
    let tag = |a: u8, b: u8, c: u8, d: u8| -((a as i32) | (b as i32) << 8 | (c as i32) << 16 | (d as i32) << 24);
    assert_eq!(AVERROR_EOF, tag(b'E', b'O', b'F', b' '));
    assert_eq!(AVERROR_STREAM_NOT_FOUND, tag(0xF8, b'S', b'T', b'R'));
    assert_eq!(AVERROR_HTTP_SERVER_ERROR, tag(0xF8, b'5', b'X', b'X'));
}

#[test]
fn codes_round_trip() {
    for c in [AVERROR_EOF, AVERROR_BUG, -1, -11, -1000, 0, 7, i32::MIN, i32::MAX] {
        assert_eq!(AVError::from_code(c).code(), c);
    }
    assert_eq!(AVError::Other(11).code(), -11);
}

#[test]
fn cvt_splits_on_sign() {
    assert_eq!(cvt(0), Ok(()));
    assert_eq!(cvt(17), Ok(()));
    assert_eq!(cvt(-22), Err(AVError::Other(22)));
    assert_eq!(cvt(AVERROR_EOF), Err(AVError::Eof));
}

#[test]
fn missing_file_fails_at_open() {
    // ENOENT, as the engine reports a path that does not exist
    let r = check_open(-2, false);
    assert_eq!(r, Err(DecodeError { stage: Stage::OpenInput, failure: Failure::Native(AVError::Other(2)) }));
    assert_eq!(
        check_open(0, false),
        Err(DecodeError { stage: Stage::OpenInput, failure: Failure::EmptyInput })
    );
    assert_eq!(check_open(0, true), Ok(()));
}

#[test]
fn container_without_video_has_no_stream() {
    assert_eq!(
        check_best_stream(AVERROR_STREAM_NOT_FOUND),
        Err(DecodeError { stage: Stage::FindStream, failure: Failure::Native(AVError::StreamNotFound) })
    );
    assert_eq!(check_best_stream(2), Ok(2));
}

#[test]
fn missing_handles_are_named_by_stage() {
    assert_eq!(
        check_present(Stage::FindDecoder, false),
        Err(DecodeError { stage: Stage::FindDecoder, failure: Failure::DecoderNotFound })
    );
    assert_eq!(
        check_present(Stage::AllocFrame, false),
        Err(DecodeError { stage: Stage::AllocFrame, failure: Failure::AllocationFailed })
    );
    assert_eq!(check_present(Stage::AllocPacket, true), Ok(()));
    assert_eq!(
        check_native(Stage::OpenCodec, AVERROR_INVALIDDATA),
        Err(DecodeError { stage: Stage::OpenCodec, failure: Failure::Native(AVError::InvalidData) })
    );
    assert_eq!(check_native(Stage::OpenCodec, 0), Ok(()));
}

#[test]
fn codec_names() {
    assert_eq!(VpxCodec::VP9.decoder_name(), "libvpx-vp9");
    assert_eq!(VpxCodec::VP8.decoder_name(), "libvpx");
    assert_eq!(VpxCodec::VP8.display_name(), "libvpx-vp8");
}

#[test]
fn conversion_plan_sizes() {
    let info = StreamInfo { width: 3, height: 2, format: 0 };
    let plan = plan_conversion(info).unwrap();
    assert_eq!(plan.byte_len, 24);
    assert_eq!(plan.info, info);
    assert!(plan_conversion(StreamInfo { width: 0, height: 2, format: 0 }).is_none());
    assert!(plan_conversion(StreamInfo { width: -4, height: 2, format: 0 }).is_none());
}

#[test]
fn raster_takes_exact_buffers() {
    let r = Raster::from_pixels(2, 3, vec![7u8; 24]).ok().unwrap();
    assert_eq!((r.width(), r.height(), r.pixels().len()), (2, 3, 24));
    assert_eq!(Raster::from_pixels(2, 3, vec![0u8; 23]).err().unwrap().len(), 23);
}

#[test]
fn invalid_time_base_is_refused() {
    let e = DecodeError { stage: Stage::FindStream, failure: Failure::InvalidTimeBase };
    assert_eq!(DecodeSession::new(0, 1, 0).err(), Some(e));
    assert_eq!(DecodeSession::new(0, -1, 1000).err(), Some(e));
}

#[test]
fn frame_raster_is_width_times_height_times_four() {
    let mut s = draining_session();
    let a = s.step(received(frame(40, 4, 2, 0)));
    let (plan, time) = match a {
        Action::Convert { plan, time } => (plan, time),
        other => panic!("{:?}", other),
    };
    assert_eq!(plan.byte_len, 4 * 2 * 4);
    assert_eq!(time.scaled, 40);
    assert_eq!(time.den, 1000);
    let f = s.complete_frame(plan, time, 2, vec![0u8; plan.byte_len]).ok().unwrap();
    assert_eq!(f.raster.pixels().len(), 32);
    assert_eq!((f.raster.width(), f.raster.height()), (4, 2));
    assert_eq!(s.info(), Some(StreamInfo { width: 4, height: 2, format: 0 }));
}

#[test]
fn failed_conversion_ends_the_session() {
    let e = DecodeError { stage: Stage::ConvertFrame, failure: Failure::ConvertFailed };
    let mut s = draining_session();
    let (plan, time) = match s.step(received(frame(0, 4, 2, 0))) {
        Action::Convert { plan, time } => (plan, time),
        other => panic!("{:?}", other),
    };
    assert_eq!(s.complete_frame(plan, time, 0, vec![0u8; 32]).err(), Some(e));
    assert_eq!(s.resume(), Action::Fail(e));

    let mut s = draining_session();
    let (plan, time) = match s.step(received(frame(0, 4, 2, 0))) {
        Action::Convert { plan, time } => (plan, time),
        other => panic!("{:?}", other),
    };
    assert_eq!(s.complete_frame(plan, time, 1, vec![0u8; 31]).err(), Some(e));
}

#[test]
fn timestamps_follow_the_time_base() {
    let mut s = DecodeSession::new(0, 1, 90000).unwrap();
    s.step(Event::PacketRead { code: 0, stream_index: 0 });
    s.step(Event::PacketSubmitted { code: 0 });
    let a = s.step(received(frame(45000, 2, 2, 0)));
    assert_eq!(seconds(&a), 0.5);
}

#[test]
fn successive_timestamps_do_not_decrease() {
    let mut s = draining_session();
    let mut last = -1.0f64;
    for pts in [0i64, 40, 40, 80, 120] {
        let t = seconds(&s.step(received(frame(pts, 2, 2, 0))));
        assert!(t >= last);
        last = t;
        assert_eq!(s.resume(), Action::ReceiveFrame);
    }
}

#[test]
fn format_change_is_fatal() {
    let e = DecodeError { stage: Stage::ConvertFrame, failure: Failure::InconsistentFormat };
    let mut s = draining_session();
    assert!(matches!(s.step(received(frame(0, 4, 2, 0))), Action::Convert { .. }));
    assert_eq!(s.step(received(frame(40, 8, 2, 0))), Action::Fail(e));
    assert_eq!(s.info(), Some(StreamInfo { width: 4, height: 2, format: 0 }));
    assert_eq!(s.resume(), Action::Fail(e));

    let mut s = draining_session();
    assert!(matches!(s.step(received(frame(0, 4, 2, 0))), Action::Convert { .. }));
    assert_eq!(s.step(received(frame(40, 4, 2, 3))), Action::Fail(e));
}

#[test]
fn end_of_stream_is_reported_once_and_stays() {
    let mut s = draining_session();
    assert!(matches!(s.step(received(frame(0, 2, 2, 0))), Action::Convert { .. }));
    assert_eq!(s.step(Event::FrameReceived { code: -EAGAIN, frame: frame(0, 0, 0, 0) }), Action::ReadPacket);
    assert_eq!(s.step(Event::PacketRead { code: AVERROR_EOF, stream_index: 0 }), Action::Finished);
    assert_eq!(s.resume(), Action::Finished);
    assert_eq!(s.step(received(frame(40, 2, 2, 0))), Action::Finished);
    assert_eq!(s.step(Event::PacketRead { code: 0, stream_index: 0 }), Action::Finished);
}

#[test]
fn drained_codec_goes_back_to_reading() {
    let mut s = draining_session();
    assert_eq!(s.step(Event::FrameReceived { code: AVERROR_EOF, frame: frame(0, 0, 0, 0) }), Action::ReadPacket);
}

#[test]
fn discarded_frames_are_skipped() {
    let mut s = draining_session();
    let mut f = frame(0, 2, 2, 0);
    f.flags = FRAME_FLAG_DISCARD;
    assert_eq!(s.step(received(f)), Action::ReceiveFrame);
    assert_eq!(s.resume(), Action::ReceiveFrame);
    assert_eq!(s.info(), None);
    assert!(matches!(s.step(received(frame(40, 2, 2, 0))), Action::Convert { .. }));
}

#[test]
fn corrupted_frames_are_fatal() {
    let e = DecodeError { stage: Stage::ReceiveFrame, failure: Failure::CorruptFrame };
    let mut s = draining_session();
    let mut f = frame(0, 2, 2, 0);
    f.flags = FRAME_FLAG_CORRUPT | FRAME_FLAG_DISCARD;
    assert_eq!(s.step(received(f)), Action::Fail(e));
    assert_eq!(s.resume(), Action::Fail(e));
    assert_eq!(s.step(received(frame(40, 2, 2, 0))), Action::Fail(e));
}

#[test]
fn negative_timestamp_is_fatal() {
    let mut s = draining_session();
    assert_eq!(
        s.step(received(frame(-1, 2, 2, 0))),
        Action::Fail(DecodeError { stage: Stage::ReceiveFrame, failure: Failure::NegativeTimestamp })
    );
}

#[test]
fn invalid_frame_size_is_fatal() {
    let mut s = draining_session();
    assert_eq!(
        s.step(received(frame(0, 0, 2, 0))),
        Action::Fail(DecodeError { stage: Stage::ConvertFrame, failure: Failure::InvalidDimensions })
    );
}

#[test]
fn packets_of_other_streams_are_skipped() {
    let mut s = DecodeSession::new(1, 1, 1000).unwrap();
    assert_eq!(s.step(Event::PacketRead { code: 0, stream_index: 0 }), Action::ReadPacket);
    assert_eq!(s.step(Event::PacketRead { code: 0, stream_index: 1 }), Action::SubmitPacket);
}

#[test]
fn native_failures_carry_their_stage() {
    let mut s = DecodeSession::new(0, 1, 1000).unwrap();
    assert_eq!(
        s.step(Event::PacketRead { code: -5, stream_index: 0 }),
        Action::Fail(DecodeError { stage: Stage::ReadPacket, failure: Failure::Native(AVError::Other(5)) })
    );
    let mut s = DecodeSession::new(0, 1, 1000).unwrap();
    s.step(Event::PacketRead { code: 0, stream_index: 0 });
    assert_eq!(
        s.step(Event::PacketSubmitted { code: AVERROR_INVALIDDATA }),
        Action::Fail(DecodeError { stage: Stage::SubmitPacket, failure: Failure::Native(AVError::InvalidData) })
    );
    let mut s = draining_session();
    assert_eq!(
        s.step(Event::FrameReceived { code: AVERROR_BUG, frame: frame(0, 0, 0, 0) }),
        Action::Fail(DecodeError { stage: Stage::ReceiveFrame, failure: Failure::Native(AVError::Bug) })
    );
}

#[test]
fn ten_seconds_at_twenty_five_fps() {
    let expected = estimate_frame_count(10_000_000, 25, 1).unwrap();
    assert_eq!(expected, 250);
    let mut s = DecodeSession::new(0, 1, 1000).unwrap();
    let mut times = Vec::new();
    let mut pts = 0i64;
    let mut buffered = false;
    loop {
        let action = s.resume();
        let event = match action {
            Action::ReadPacket if pts < 10_000 => Event::PacketRead { code: 0, stream_index: 0 },
            Action::ReadPacket => Event::PacketRead { code: AVERROR_EOF, stream_index: 0 },
            Action::SubmitPacket => {
                buffered = true;
                Event::PacketSubmitted { code: 0 }
            },
            Action::ReceiveFrame if buffered => {
                buffered = false;
                received(frame(pts, 16, 8, 0))
            },
            Action::ReceiveFrame => Event::FrameReceived { code: -EAGAIN, frame: frame(0, 0, 0, 0) },
            Action::Finished => break,
            other => panic!("{:?}", other),
        };
        let next = s.step(event);
        if let Action::Convert { plan, time } = next {
            let f = s.complete_frame(plan, time, 8, vec![0u8; plan.byte_len]).ok().unwrap();
            assert_eq!(f.raster.pixels().len(), 16 * 8 * 4);
            times.push(time.scaled as f64 / time.den as f64);
            pts += 40;
        }
    }
    assert!(times.len() >= 240 && times.len() <= 260);
    assert_eq!(times[0], 0.0);
    assert!(*times.last().unwrap() < 10.0);
    assert!(times.windows(2).all(|w| w[0] <= w[1]));
    assert_eq!(s.resume(), Action::Finished);
}

#[test]
fn frame_estimates() {
    assert_eq!(estimate_frame_count(10_000_000, 30000, 1001), Some(299));
    assert_eq!(estimate_frame_count(10_000_000, 25, 0), None);
    assert_eq!(estimate_frame_count(10_000, 25, 1), None);
    assert_eq!(estimate_frame_count(u64::MAX, u32::MAX, 1), None);
}

#[test]
fn handoff_keeps_order_and_bound() {
    let mut h = Handoff::new(2);
    assert!(matches!(h.try_send(1), SendOutcome::Accepted));
    assert!(matches!(h.try_send(2), SendOutcome::Accepted));
    assert!(matches!(h.try_send(3), SendOutcome::Full(3)));
    assert_eq!(h.len(), 2);
    assert!(matches!(h.try_recv(), RecvOutcome::Item(1)));
    assert!(matches!(h.try_send(3), SendOutcome::Accepted));
    assert!(matches!(h.try_recv(), RecvOutcome::Item(2)));
    assert!(matches!(h.try_recv(), RecvOutcome::Item(3)));
    assert!(matches!(h.try_recv(), RecvOutcome::Empty));
    h.finish();
    assert!(matches!(h.try_recv(), RecvOutcome::Finished));
}

#[test]
fn consumer_failure_releases_the_producer() {
    let mut h = Handoff::new(2);
    let mut taken = 0;
    let mut produced = 0;
    let mut end = ProducerEnd::Completed;
    while produced < 100 {
        match h.try_send(produced) {
            SendOutcome::Accepted => produced += 1,
            SendOutcome::Full(_) => {
                if taken == 5 {
                    h.abandon();
                } else if let RecvOutcome::Item(i) = h.try_recv() {
                    assert_eq!(i, taken);
                    taken += 1;
                }
            },
            SendOutcome::Closed(_) => {
                end = ProducerEnd::Stopped;
                break;
            },
        }
    }
    assert_eq!(taken, 5);
    assert_eq!(end, ProducerEnd::Stopped);
    let r = reconcile(end, Err("encoder failed"));
    assert_eq!(r, Err(PipelineError::Consumer("encoder failed")));
}

#[test]
fn reconcile_prefers_failures() {
    let d = DecodeError { stage: Stage::ReadPacket, failure: Failure::Native(AVError::Other(5)) };
    assert_eq!(reconcile::<&str>(ProducerEnd::Completed, Ok(())), Ok(()));
    assert_eq!(reconcile(ProducerEnd::Failed(d), Err("x")), Err(PipelineError::Decode(d)));
    assert_eq!(reconcile::<&str>(ProducerEnd::Failed(d), Ok(())), Err(PipelineError::Decode(d)));
    assert_eq!(reconcile(ProducerEnd::Completed, Err("x")), Err(PipelineError::Consumer("x")));
    assert_eq!(reconcile::<&str>(ProducerEnd::Stopped, Ok(())), Err(PipelineError::Incomplete));
}

#[test]
fn names_are_padded_on_the_left() {
    assert_eq!(left_pad("ab", 5), "   ab");
    assert_eq!(left_pad("abcdef", 3), "abcdef");
    assert_eq!(left_pad("ab", 2), "ab");
    // wide characters take two columns each
    assert_eq!(left_pad("日本", 6), "  日本");
    assert_eq!(left_pad("", 2), "  ");
    assert_eq!(pad_to_width("x", 1, 4), "   x");
}

#[test]
fn need_more_input_follows_the_platform_errno() {
    // 35 is EAGAIN on macOS and the BSDs
    let mut s = DecodeSession::with_again_errno(0, 1, 1000, 35).unwrap();
    s.step(Event::PacketRead { code: 0, stream_index: 0 });
    s.step(Event::PacketSubmitted { code: 0 });
    assert_eq!(s.step(Event::FrameReceived { code: -35, frame: frame(0, 0, 0, 0) }), Action::ReadPacket);

    let mut s = DecodeSession::with_again_errno(0, 1, 1000, 35).unwrap();
    s.step(Event::PacketRead { code: 0, stream_index: 0 });
    s.step(Event::PacketSubmitted { code: 0 });
    assert_eq!(
        s.step(Event::FrameReceived { code: -EAGAIN, frame: frame(0, 0, 0, 0) }),
        Action::Fail(DecodeError { stage: Stage::ReceiveFrame, failure: Failure::Native(AVError::Other(EAGAIN)) })
    );
    assert!(DecodeSession::with_again_errno(0, 1, 0, 35).is_err());
}

#[test]
fn widest_name_sets_the_column() {
    assert_eq!(widest(&Vec::new()), 0);
    let names = vec!["a.webm".to_string(), "日本.webm".to_string(), "bc".to_string()];
    assert_eq!(widest(&names), 9);
    assert_eq!(widest(&vec!["abc".to_string()]), 3);
}
