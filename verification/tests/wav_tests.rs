use citywalk_meetings::wav::{pcm16_to_wav, CLOUD_SAMPLE_RATE, MIN_CLOUD_SAMPLES, WAV_HEADER_LEN};

fn header_for(data_len: u32, rate: u32) -> Vec<u8> {
    let mut h = Vec::new();
    h.extend_from_slice(b"RIFF");
    h.extend_from_slice(&(36 + data_len).to_le_bytes());
    h.extend_from_slice(b"WAVE");
    h.extend_from_slice(b"fmt ");
    h.extend_from_slice(&16u32.to_le_bytes());
    h.extend_from_slice(&1u16.to_le_bytes());
    h.extend_from_slice(&1u16.to_le_bytes());
    h.extend_from_slice(&rate.to_le_bytes());
    h.extend_from_slice(&(rate * 2).to_le_bytes());
    h.extend_from_slice(&2u16.to_le_bytes());
    h.extend_from_slice(&16u16.to_le_bytes());
    h.extend_from_slice(b"data");
    h.extend_from_slice(&data_len.to_le_bytes());
    h
}

#[test]
fn min_cloud_samples_is_100ms_at_16k() {
    assert_eq!(MIN_CLOUD_SAMPLES, 1600);
    assert_eq!(CLOUD_SAMPLE_RATE, 16_000);
    assert_eq!(WAV_HEADER_LEN, 44);
}

#[test]
fn empty_audio_is_a_bare_header() {
    let wav = pcm16_to_wav(&[], 16_000);
    assert_eq!(wav.len(), 44);
    assert_eq!(wav, header_for(0, 16_000));
    assert_eq!(
        wav,
        vec![
            0x52, 0x49, 0x46, 0x46, 36, 0, 0, 0, 0x57, 0x41, 0x56, 0x45, 0x66, 0x6d, 0x74, 0x20, 16,
            0, 0, 0, 1, 0, 1, 0, 0x80, 0x3e, 0, 0, 0x00, 0x7d, 0, 0, 2, 0, 16, 0, 0x64, 0x61, 0x74,
            0x61, 0, 0, 0, 0
        ]
    );
}

#[test]
fn samples_are_little_endian_twos_complement() {
    let wav = pcm16_to_wav(&[1, -1, i16::MAX, i16::MIN, 0x1234], 16_000);
    assert_eq!(wav.len(), 44 + 10);
    assert_eq!(&wav[..44], &header_for(10, 16_000)[..]);
    assert_eq!(&wav[44..], &[0x01, 0x00, 0xff, 0xff, 0xff, 0x7f, 0x00, 0x80, 0x34, 0x12]);
}

#[test]
fn header_fields_follow_the_sample_rate() {
    let wav = pcm16_to_wav(&[7, 8], 44_100);
    assert_eq!(u32::from_le_bytes([wav[24], wav[25], wav[26], wav[27]]), 44_100);
    assert_eq!(u32::from_le_bytes([wav[28], wav[29], wav[30], wav[31]]), 88_200);
    assert_eq!(u32::from_le_bytes([wav[4], wav[5], wav[6], wav[7]]), 40);
    assert_eq!(u32::from_le_bytes([wav[40], wav[41], wav[42], wav[43]]), 4);
}

#[test]
fn written_samples_read_back() {
    let samples: Vec<i16> = (0..2000).map(|i| ((i * 37) % 65536 - 32768) as i16).collect();
    let wav = pcm16_to_wav(&samples, 16_000);
    assert_eq!(wav.len(), 44 + 2 * samples.len());
    let back: Vec<i16> = wav[44..]
        .chunks(2)
        .map(|c| i16::from_le_bytes([c[0], c[1]]))
        .collect();
    assert_eq!(back, samples);
}
