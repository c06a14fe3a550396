use st7789_platform::audio::{AudioRecorder, append_chunk, recording_byte_budget, wav_header,
    wav_file_bytes};
use st7789_platform::runloop::LoopState;
use st7789_platform::wifi::{connection_timed_out, WifiNetwork};

#[test]
fn test_wifi_network() {
    let network = WifiNetwork {
        ssid: "TestNetwork".to_string(),
    };
    assert_eq!(network.ssid, "TestNetwork");
}

#[test]
fn test_connection_timeout_bound() {
    assert!(!connection_timed_out(0, 10000));
    assert!(connection_timed_out(0, 10001));
    assert!(!connection_timed_out(500, 10500));
    assert!(connection_timed_out(500, 10501));
}

#[test]
fn test_idle_iteration_sleeps() {
    let mut state = LoopState::enter(0);
    let actions = state.loop_step(10, false);
    assert!(!actions.do_yield);
    assert!(actions.sleep_ms >= 20);
}

#[test]
fn test_animated_iteration_does_not_sleep() {
    let mut state = LoopState::enter(0);
    let actions = state.loop_step(10, true);
    assert_eq!(actions.sleep_ms, 0);
}

#[test]
fn test_yield_cadence_under_animation() {
    // checks every 30 ms, as under continuous animation; the time without a
    // yield must never exceed 100 ms plus one iteration
    let mut state = LoopState::enter(0);
    let mut last_yield: u64 = 0;
    let mut yields: u32 = 0;
    let mut now: u64 = 0;
    while now <= 1200 {
        assert!(now - last_yield <= 130);
        let actions = state.loop_step(now, true);
        assert_eq!(actions.do_yield, now - last_yield > 100);
        if actions.do_yield {
            last_yield = now;
            yields += 1;
        }
        assert!(now - last_yield <= 100);
        now += 30;
    }
    assert_eq!(yields, 10);
}

#[test]
fn test_recorder_ready_only_with_both_devices() {
    assert!(AudioRecorder::new(true, true).recording_enabled());
    assert!(!AudioRecorder::new(true, false).recording_enabled());
    assert!(!AudioRecorder::new(false, true).recording_enabled());
    assert!(!AudioRecorder::new(false, false).recording_enabled());
}

#[test]
fn test_recording_byte_budget() {
    assert_eq!(recording_byte_budget(16000, 10, 2), 320000);
}

#[test]
fn test_append_chunk_keeps_within_budget() {
    let mut audio: Vec<u8> = vec![1, 2, 3];
    let chunk: Vec<u8> = vec![4, 5, 6, 7, 8, 9];
    // room for all five read bytes
    append_chunk(&mut audio, &chunk, 5, 10);
    assert_eq!(audio, vec![1, 2, 3, 4, 5, 6, 7, 8]);
    // only two bytes of room left: the chunk is truncated
    append_chunk(&mut audio, &chunk, 5, 10);
    assert_eq!(audio, vec![1, 2, 3, 4, 5, 6, 7, 8, 4, 5]);
    // budget full: nothing is appended
    append_chunk(&mut audio, &chunk, 5, 10);
    assert_eq!(audio, vec![1, 2, 3, 4, 5, 6, 7, 8, 4, 5]);
}

#[test]
fn test_wav_header_layout() {
    let header = wav_header(320000, 16000);
    assert_eq!(header.len(), 44);
    // RIFF chunk with the total file size minus eight
    assert_eq!(&header[0..4], b"RIFF");
    assert_eq!(&header[4..8], &320036u32.to_le_bytes());
    assert_eq!(&header[8..12], b"WAVE");
    // format chunk: PCM, mono, 16 kHz, 32000 bytes per second, block align
    // two, 16 bits per sample
    assert_eq!(&header[12..16], b"fmt ");
    assert_eq!(&header[16..20], &16u32.to_le_bytes());
    assert_eq!(&header[20..22], &1u16.to_le_bytes());
    assert_eq!(&header[22..24], &1u16.to_le_bytes());
    assert_eq!(&header[24..28], &16000u32.to_le_bytes());
    assert_eq!(&header[28..32], &32000u32.to_le_bytes());
    assert_eq!(&header[32..34], &2u16.to_le_bytes());
    assert_eq!(&header[34..36], &16u16.to_le_bytes());
    // data chunk header with the data size
    assert_eq!(&header[36..40], b"data");
    assert_eq!(&header[40..44], &320000u32.to_le_bytes());
}

#[test]
fn test_wav_file_bytes_appends_samples() {
    let samples: Vec<u8> = vec![0x01, 0x02, 0x03];
    let file = wav_file_bytes(&samples, 16000);
    assert_eq!(file.len(), 47);
    assert_eq!(&file[0..44], &wav_header(3, 16000)[..]);
    assert_eq!(&file[44..], &[0x01, 0x02, 0x03]);
}
