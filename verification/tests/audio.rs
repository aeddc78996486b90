//! The WAV byte-generation utility: container format invariants of the
//! three generated sound effects.
use pong::wav::{create_wav_file, generate_paddle_hit_sound, generate_score_sound,
    generate_wall_hit_sound};

#[test]
fn generate_paddle_hit_sound_creates_wav_data() {
    let sound_data = generate_paddle_hit_sound();

    // Should have WAV header (44 bytes) plus audio data
    assert!(sound_data.len() > 44);

    // Check WAV header signature
    assert_eq!(&sound_data[0..4], b"RIFF");
    assert_eq!(&sound_data[8..12], b"WAVE");
    assert_eq!(&sound_data[12..16], b"fmt ");
}

#[test]
fn generate_wall_hit_sound_creates_wav_data() {
    let sound_data = generate_wall_hit_sound();

    // Should have WAV header plus audio data
    assert!(sound_data.len() > 44);

    // Check WAV header signature
    assert_eq!(&sound_data[0..4], b"RIFF");
    assert_eq!(&sound_data[8..12], b"WAVE");
}

#[test]
fn generate_score_sound_creates_wav_data() {
    let sound_data = generate_score_sound();

    // Should have WAV header plus audio data
    assert!(sound_data.len() > 44);

    // Check WAV header signature
    assert_eq!(&sound_data[0..4], b"RIFF");
    assert_eq!(&sound_data[8..12], b"WAVE");
}

#[test]
fn wav_header_has_correct_format() {
    let sound_data = generate_paddle_hit_sound();

    // PCM format (16-bit, mono, 44100 Hz)
    let format = u16::from_le_bytes([sound_data[20], sound_data[21]]);
    assert_eq!(format, 1); // PCM format

    let channels = u16::from_le_bytes([sound_data[22], sound_data[23]]);
    assert_eq!(channels, 1); // Mono

    let sample_rate =
        u32::from_le_bytes([sound_data[24], sound_data[25], sound_data[26], sound_data[27]]);
    assert_eq!(sample_rate, 44100); // 44.1 kHz
}

#[test]
fn wav_container_encodes_lengths_exactly() {
    // 100 ms of mono 16-bit samples at 44100 Hz: 4410 samples, 8820 data
    // bytes, 8864 bytes in all; the RIFF size field holds 36 + data.
    let sound_data = generate_paddle_hit_sound();
    assert_eq!(sound_data.len(), 44 + 2 * 4410);
    let riff_size = u32::from_le_bytes([sound_data[4], sound_data[5], sound_data[6],
        sound_data[7]]);
    assert_eq!(riff_size, 36 + 8820);
    let data_size = u32::from_le_bytes([sound_data[40], sound_data[41], sound_data[42],
        sound_data[43]]);
    assert_eq!(data_size, 8820);
    // Byte rate and block align for mono 16-bit.
    let byte_rate =
        u32::from_le_bytes([sound_data[28], sound_data[29], sound_data[30], sound_data[31]]);
    assert_eq!(byte_rate, 2 * 44100);
    let block_align = u16::from_le_bytes([sound_data[32], sound_data[33]]);
    assert_eq!(block_align, 2);
    let bits = u16::from_le_bytes([sound_data[34], sound_data[35]]);
    assert_eq!(bits, 16);
}

#[test]
fn wav_container_round_trips_payload() {
    // The container is exactly a 44-byte header followed by the payload.
    let payload: Vec<u8> = vec![1, 2, 3, 4, 5, 6];
    let wav = create_wav_file(&payload, 8000);
    assert_eq!(wav.len(), 50);
    assert_eq!(&wav[0..4], b"RIFF");
    assert_eq!(&wav[44..], &payload[..]);
    let rate = u32::from_le_bytes([wav[24], wav[25], wav[26], wav[27]]);
    assert_eq!(rate, 8000);
    let data_size = u32::from_le_bytes([wav[40], wav[41], wav[42], wav[43]]);
    assert_eq!(data_size, 6);
}

#[test]
fn generated_sounds_have_nonsilent_samples() {
    // The synthesis produces an actual tone: some sample bytes are nonzero.
    let sound_data = generate_wall_hit_sound();
    assert!(sound_data[44..].iter().any(|&b| b != 0));
    assert_eq!(sound_data.len(), 44 + 2 * 3528);
    let score = generate_score_sound();
    assert_eq!(score.len(), 44 + 2 * 17640);
}
