use scrcpy_panel::recorder::recording_outcome;
use scrcpy_panel::recorder::{
    monotonic_pts, should_pop, AudioHead, CodecWait, PacketLoop, PacketWrite, RecPacket, Recorder,
    VideoCodecInfo, AV_NOPTS,
};

const PCM_S16LE: u32 = 65536;

fn audio(pts: i64) -> RecPacket {
    RecPacket { data: vec![0u8; 64], pts, is_key: true }
}

fn video(pts: i64) -> RecPacket {
    RecPacket { data: vec![0u8; 64], pts, is_key: true }
}

fn config() -> RecPacket {
    RecPacket { data: vec![0u8; 8], pts: AV_NOPTS, is_key: false }
}

fn a_recorder() -> Recorder {
    let mut recorder = Recorder::new();
    recorder.set_video_codec(VideoCodecInfo { codec_id: 27, width: 64, height: 48 });
    recorder.set_audio_codec(PCM_S16LE, false);
    recorder
}

/// Runs the recorder's loop over what is queued, as the recorder thread
/// does once it is stopped: every write, in order.
fn drain(recorder: &mut Recorder) -> Vec<PacketWrite> {
    let extradata = recorder.take_video_config();
    assert!(extradata.is_some(), "the first config packet is the extradata");
    assert!(matches!(recorder.take_audio_head(), AudioHead::Media));
    let mut lp = PacketLoop::new(true, true);
    let mut writes = Vec::new();
    for _ in 0..100 {
        assert!(recorder.round_ready(&lp));
        let (v, a, stopped) = recorder.take_round(&lp);
        let round = lp.step(v, a, stopped);
        writes.extend(round.writes);
        if round.finished {
            break;
        }
    }
    if let Some(last) = lp.finish() {
        writes.push(last);
    }
    writes
}

#[test]
fn a_stream_already_holding_a_packet_is_not_popped_again() {
    assert!(should_pop(false, false), "nothing held yet: take one");
    assert!(!should_pop(false, true), "one already held: leave it in the queue");
    assert!(should_pop(true, false), "origin known: everything is written");
    assert!(should_pop(true, true), "origin known: the held one is already gone");
}

#[test]
fn no_packet_is_lost_while_the_origin_is_being_found() {
    let mut recorder = a_recorder();
    recorder.push_audio(audio(0));
    recorder.push_video(config());
    recorder.push_video(config());
    recorder.push_audio(audio(20_000));
    recorder.push_video(video(0));
    recorder.push_audio(audio(40_000));
    recorder.push_video(video(33_000));
    recorder.stop();

    let writes = drain(&mut recorder);
    let audio_written = writes.iter().filter(|w| !w.video).count();
    let video_written = writes.iter().filter(|w| w.video).count();
    assert_eq!(audio_written, 3, "an audio packet went missing");
    assert_eq!(video_written, 2);
    let audio_pts: Vec<i64> = writes.iter().filter(|w| !w.video).map(|w| w.pts).collect();
    assert_eq!(audio_pts, vec![0, 20_000, 40_000]);
    let video_pts: Vec<(i64, i64)> =
        writes.iter().filter(|w| w.video).map(|w| (w.pts, w.duration)).collect();
    assert_eq!(video_pts, vec![(0, 33_000), (33_000, 100_000)]);
}

#[test]
fn a_stop_before_the_origin_is_found_still_writes_what_is_held() {
    let mut recorder = a_recorder();
    recorder.push_audio(audio(0));
    recorder.push_video(config());
    recorder.push_video(config());
    recorder.push_audio(audio(20_000));
    recorder.push_audio(audio(40_000));
    recorder.stop();

    let writes = drain(&mut recorder);
    assert_eq!(writes.iter().filter(|w| !w.video).count(), 3);
    assert_eq!(writes.iter().filter(|w| w.video).count(), 0);
}

#[test]
fn the_origin_is_the_earlier_of_the_two_first_timestamps() {
    let mut lp = PacketLoop::new(true, true);
    let first = lp.step(Some(video(50_000)), None, false);
    assert!(first.writes.is_empty() && !first.finished, "audio has not been seen yet");
    assert!(!lp.is_origin_known());
    let second = lp.step(None, Some(audio(30_000)), false);
    assert!(lp.is_origin_known());
    // The audio packet goes out at once; the video one waits for its successor.
    assert_eq!(second.writes.len(), 1);
    assert!(!second.writes[0].video);
    assert_eq!(second.writes[0].pts, 0);
    let third = lp.step(Some(video(83_000)), None, false);
    assert_eq!(third.writes.len(), 1);
    assert_eq!((third.writes[0].pts, third.writes[0].duration), (20_000, 33_000));
}

#[test]
fn a_stopped_recorder_takes_nothing_more() {
    let mut recorder = a_recorder();
    assert!(recorder.push_video(video(0)));
    recorder.stop();
    assert!(recorder.is_stopped());
    assert!(!recorder.push_video(video(1)));
    assert!(!recorder.push_audio(audio(1)));
    assert_eq!(recorder.queued(), (1, 0));
}

#[test]
fn the_recorder_waits_for_every_codec_it_records() {
    let mut recorder = Recorder::new();
    assert_eq!(recorder.codec_wait(true, true), CodecWait::Wait);
    recorder.set_video_codec(VideoCodecInfo { codec_id: 27, width: 64, height: 48 });
    assert_eq!(recorder.codec_wait(true, true), CodecWait::Wait);
    assert_eq!(
        recorder.codec_wait(true, false),
        CodecWait::Proceed(Some(VideoCodecInfo { codec_id: 27, width: 64, height: 48 }), None, false)
    );
    let mut idle = Recorder::new();
    idle.stop();
    assert_eq!(idle.codec_wait(true, true), CodecWait::Abandon);
}

#[test]
fn media_ahead_of_the_extradata_is_dropped() {
    let mut recorder = a_recorder();
    recorder.push_video(video(0));
    recorder.push_video(config());
    recorder.push_video(video(33_000));
    let found = recorder.take_video_config().expect("a config packet");
    assert_eq!(found.pts, AV_NOPTS);
    assert_eq!(recorder.queued(), (1, 0));

    let mut empty = a_recorder();
    empty.push_video(video(0));
    assert!(empty.take_video_config().is_none());
    assert_eq!(empty.queued(), (0, 0));
}

#[test]
fn the_audio_head_is_taken_only_when_it_is_extradata() {
    let mut recorder = a_recorder();
    assert!(matches!(recorder.take_audio_head(), AudioHead::Wait));
    recorder.push_audio(RecPacket { data: vec![], pts: AV_NOPTS, is_key: false });
    assert!(matches!(recorder.take_audio_head(), AudioHead::Empty));
    recorder.push_audio(config());
    assert!(matches!(recorder.take_audio_head(), AudioHead::Config(_)));
    recorder.push_audio(audio(0));
    assert!(matches!(recorder.take_audio_head(), AudioHead::Media));
    assert_eq!(recorder.queued(), (0, 1));
    let mut stopped = a_recorder();
    stopped.stop();
    assert!(matches!(stopped.take_audio_head(), AudioHead::Nothing));
}

#[test]
fn a_timestamp_never_goes_backwards_on_the_way_out() {
    assert_eq!(monotonic_pts(10, 5), 10);
    assert_eq!(monotonic_pts(5, 5), 6);
    assert_eq!(monotonic_pts(3, 5), 6);
    assert_eq!(monotonic_pts(3, AV_NOPTS), 3);
}

/// The same recording, written out in one go by the library's own loop.
fn write_out_all(recorder: &mut Recorder) -> Vec<PacketWrite> {
    let extradata = recorder.take_video_config();
    assert!(extradata.is_some(), "the first config packet is the extradata");
    assert!(matches!(recorder.take_audio_head(), AudioHead::Media));
    let mut lp = PacketLoop::new(true, true);
    let (writes, done) = recorder.write_out(&mut lp);
    assert!(done, "every round computes");
    writes
}

#[test]
fn a_stopped_recorder_writes_out_every_packet_in_order() {
    let mut recorder = a_recorder();
    recorder.push_audio(audio(0));
    recorder.push_video(config());
    recorder.push_video(config());
    recorder.push_audio(audio(20_000));
    recorder.push_video(video(0));
    recorder.push_audio(audio(40_000));
    recorder.push_video(video(33_000));
    recorder.stop();

    let writes = write_out_all(&mut recorder);
    let audio_pts: Vec<i64> = writes.iter().filter(|w| !w.video).map(|w| w.pts).collect();
    assert_eq!(audio_pts, vec![0, 20_000, 40_000]);
    let video_pts: Vec<(i64, i64)> =
        writes.iter().filter(|w| w.video).map(|w| (w.pts, w.duration)).collect();
    assert_eq!(video_pts, vec![(0, 33_000), (33_000, 100_000)]);
    assert_eq!(recorder.queued(), (0, 0));
}

#[test]
fn any_packet_is_queued_until_the_stop() {
    let mut recorder = Recorder::new();
    assert!(recorder.push_video(video(-5)));
    assert!(recorder.push_audio(audio(i64::MAX)));
    assert_eq!(recorder.queued(), (1, 1));
    recorder.stop();
    assert!(!recorder.push_video(video(0)));
    assert!(!recorder.push_audio(audio(-1)));
    assert_eq!(recorder.queued(), (1, 1));
}

#[test]
fn a_negative_timestamp_is_written_measured_from_the_origin() {
    let mut lp = PacketLoop::new(true, true);
    assert!(lp.can_step(Some(-5), Some(0), false));
    let first = lp.step(Some(video(-5)), Some(audio(0)), false);
    let audio_pts: Vec<i64> = first.writes.iter().filter(|w| !w.video).map(|w| w.pts).collect();
    assert_eq!(audio_pts, vec![5], "the origin is the earlier timestamp, -5");
    let second = lp.step(Some(video(1 << 62)), None, false);
    let video_writes: Vec<(i64, i64)> =
        second.writes.iter().filter(|w| w.video).map(|w| (w.pts, w.duration)).collect();
    assert_eq!(video_writes, vec![(0, (1 << 62) + 5)]);

    let mut recorder = a_recorder();
    recorder.push_video(config());
    recorder.push_video(video(0));
    recorder.push_video(video(-3));
    recorder.push_video(video(40_000));
    recorder.push_audio(audio(10_000));
    recorder.stop();
    let writes = write_out_all(&mut recorder);
    let video_pts: Vec<i64> = writes.iter().filter(|w| w.video).map(|w| w.pts).collect();
    assert_eq!(video_pts, vec![0, -3, 40_000]);
    let audio_pts: Vec<i64> = writes.iter().filter(|w| !w.video).map(|w| w.pts).collect();
    assert_eq!(audio_pts, vec![10_000]);
}

#[test]
fn a_round_that_would_overflow_is_not_taken() {
    let lp = PacketLoop::new(true, true);
    assert!(!lp.can_step(Some(i64::MAX), Some(-10), false));
    assert!(lp.can_step(Some(i64::MAX), None, false), "nothing is measured until both streams are in");

    let mut recorder = a_recorder();
    recorder.push_video(config());
    recorder.push_video(video(i64::MAX));
    recorder.push_audio(audio(-10));
    recorder.stop();
    assert!(recorder.take_video_config().is_some());
    let mut lp = PacketLoop::new(true, true);
    let (writes, done) = recorder.write_out(&mut lp);
    assert!(!done);
    assert!(writes.is_empty());
}

#[test]
fn the_first_refused_packet_is_reported_before_the_trailer() {
    assert_eq!(recording_outcome::<i32>(None, Ok(())), Ok(()));
    assert_eq!(recording_outcome(None, Err(-5)), Err(-5));
    assert_eq!(recording_outcome(Some(-28), Err(-5)), Err(-28));
    assert_eq!(recording_outcome(Some(-28), Ok(())), Err(-28));
}
