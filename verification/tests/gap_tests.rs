use voice_capture::gap::{append_silence, silence_count, GAP_THRESHOLD_MS};

#[test]
fn no_silence_at_or_below_threshold() {
    assert_eq!(GAP_THRESHOLD_MS, 100);
    assert_eq!(silence_count(0, 48000), 0);
    assert_eq!(silence_count(50, 48000), 0);
    assert_eq!(silence_count(100, 48000), 0);
}

#[test]
fn exact_count_above_threshold() {
    // 101 ms at 48000 Hz: floor(101 * 48000 / 1000)
    assert_eq!(silence_count(101, 48000), 4848);
    // a non-integral product still rounds down
    assert_eq!(silence_count(125, 44100), 5512);
}

#[test]
fn gap_of_250ms_at_48khz_inserts_12000_samples() {
    assert_eq!(silence_count(250, 48000), 12000);
}

#[test]
fn append_silence_appends_zeros() {
    let mut buffer: Vec<i16> = vec![5, -5];
    append_silence(&mut buffer, 3);
    assert_eq!(buffer, vec![5, -5, 0, 0, 0]);
}
