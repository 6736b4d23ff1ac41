use voice_capture::config::Config;
use voice_capture::session::{CaptureSession, VoiceEvent};
use voice_capture::tick::VoiceTick;

fn tick_with(timestamp_ms: u64, speaker_id: u64, samples: Vec<i16>) -> VoiceTick {
    let mut t = VoiceTick::new(timestamp_ms);
    t.add_speaker(speaker_id, Some(samples));
    t
}

#[test]
fn idle_tick_changes_nothing() {
    let mut s = CaptureSession::new(Config::new(48000), 0);
    let t = tick_with(20, 1, vec![1, 2, 3]);
    s.process_tick(&t);
    assert_eq!(s.buffer, vec![1, 2, 3]);
    assert_eq!(s.last_tick_ms, 20);

    // An idle tick leaves both the buffer and the gap clock untouched,
    // even though its timestamp is far in the future.
    let idle = VoiceTick::new(5000);
    s.process_tick(&idle);
    assert_eq!(s.buffer, vec![1, 2, 3]);
    assert_eq!(s.last_tick_ms, 20);
}

#[test]
fn speaker_without_decoded_audio_is_skipped() {
    let mut s = CaptureSession::new(Config::new(48000), 0);
    let mut t = VoiceTick::new(20);
    t.add_speaker(1, None);
    t.add_speaker(2, Some(vec![9, 8]));
    t.add_speaker(3, None);
    s.process_tick(&t);
    assert_eq!(s.buffer, vec![9, 8]);
    // A tick with speakers advances the clock even when none of them
    // carried decoded audio this interval.
    assert_eq!(s.last_tick_ms, 20);
}

#[test]
fn order_is_preserved_across_ticks() {
    let mut s = CaptureSession::new(Config::new(48000), 0);
    s.process_tick(&tick_with(20, 1, vec![1, 1, 1]));
    s.process_tick(&tick_with(40, 2, vec![2, 2]));
    assert_eq!(s.buffer, vec![1, 1, 1, 2, 2]);
}

#[test]
fn speakers_within_a_tick_keep_iteration_order() {
    let mut s = CaptureSession::new(Config::new(48000), 0);
    let mut t = VoiceTick::new(20);
    t.add_speaker(7, Some(vec![1, 2]));
    t.add_speaker(8, Some(vec![3]));
    s.process_tick(&t);
    assert_eq!(s.buffer, vec![1, 2, 3]);
}

#[test]
fn gap_above_threshold_is_filled_with_silence() {
    let mut s = CaptureSession::new(Config::new(48000), 0);
    s.process_tick(&tick_with(20, 1, vec![5]));
    // 250 ms after the last audio tick: 12000 silence samples first.
    s.process_tick(&tick_with(270, 1, vec![6]));
    assert_eq!(s.buffer.len(), 1 + 12000 + 1);
    assert_eq!(s.buffer[0], 5);
    assert!(s.buffer[1..12001].iter().all(|&x| x == 0));
    assert_eq!(s.buffer[12001], 6);
}

#[test]
fn first_tick_measures_from_session_start() {
    // The gap clock is seeded with the capture-start time, so a first
    // tick 200 ms later is padded like any other gap.
    let mut s = CaptureSession::new(Config::new(1000), 1000);
    s.process_tick(&tick_with(1200, 1, vec![3]));
    assert_eq!(s.buffer.len(), 200 + 1);
    assert!(s.buffer[..200].iter().all(|&x| x == 0));
    assert_eq!(s.buffer[200], 3);
}

#[test]
fn out_of_order_tick_counts_as_no_gap() {
    let mut s = CaptureSession::new(Config::new(48000), 500);
    s.process_tick(&tick_with(200, 1, vec![4]));
    assert_eq!(s.buffer, vec![4]);
    assert_eq!(s.last_tick_ms, 200);
}

#[test]
fn take_buffer_closes_the_capture() {
    let mut s = CaptureSession::new(Config::new(48000), 0);
    s.process_tick(&tick_with(20, 1, vec![1, 2]));
    let taken = s.take_buffer();
    assert_eq!(taken, vec![1, 2]);
    assert_eq!(s.buffer, Vec::<i16>::new());
}

#[test]
fn no_loss_when_teardown_follows_last_tick() {
    // The last tick's ingestion completes before the buffer is taken,
    // so its samples are part of what the encoder receives.
    let mut s = CaptureSession::new(Config::new(48000), 0);
    s.process_tick(&tick_with(20, 1, vec![1, 1]));
    s.process_tick(&tick_with(40, 1, vec![2, 2]));
    let taken = match s.handle_event(&VoiceEvent::DriverDisconnect) {
        Some(buf) => buf,
        None => panic!("teardown must yield the buffer"),
    };
    assert_eq!(taken, vec![1, 1, 2, 2]);
    assert_eq!(s.buffer.len(), 0);
}

#[test]
fn handle_event_dispatches_by_kind() {
    let mut s = CaptureSession::new(Config::new(48000), 0);

    let r = s.handle_event(&VoiceEvent::Tick(tick_with(20, 1, vec![7])));
    assert!(r.is_none());
    assert_eq!(s.buffer, vec![7]);

    let r = s.handle_event(&VoiceEvent::Other);
    assert!(r.is_none());
    assert_eq!(s.buffer, vec![7]);
    assert_eq!(s.last_tick_ms, 20);

    let r = s.handle_event(&VoiceEvent::DriverDisconnect);
    assert_eq!(r, Some(vec![7]));
    assert_eq!(s.buffer.len(), 0);
}
