use std::io::Cursor;

use limbo_voice::errors::DictationError;
use limbo_voice::wav::{decode_wav_f32, decode_wav_pcm16, encode_wav_f32, encode_wav_pcm16};

fn float_samples() -> Vec<f32> {
    vec![0.0, 0.5, -0.5, 1.0, -1.0, 0.25, -0.125, 3.14159e-3]
}

#[test]
fn f32_round_trip_is_exact() {
    let samples: Vec<u32> = float_samples().iter().map(|s| s.to_bits()).collect();
    let bytes = encode_wav_f32(&samples);
    let back = decode_wav_f32(&bytes).unwrap();
    assert_eq!(back, samples);
    let floats: Vec<f32> = back.iter().map(|b| f32::from_bits(*b)).collect();
    assert_eq!(floats, float_samples());
}

#[test]
fn pcm16_round_trip_is_exact() {
    let values: Vec<i16> = vec![0, 1, -1, i16::MAX, i16::MIN, 12345, -12345];
    let samples: Vec<u16> = values.iter().map(|v| *v as u16).collect();
    let bytes = encode_wav_pcm16(&samples);
    let back = decode_wav_pcm16(&bytes).unwrap();
    assert_eq!(back, samples);
    let ints: Vec<i16> = back.iter().map(|b| *b as i16).collect();
    assert_eq!(ints, values);
}

#[test]
fn empty_payloads_round_trip() {
    let bytes = encode_wav_f32(&Vec::new());
    assert_eq!(bytes.len(), 44);
    assert_eq!(decode_wav_f32(&bytes).unwrap(), Vec::<u32>::new());
    let bytes = encode_wav_pcm16(&Vec::new());
    assert_eq!(decode_wav_pcm16(&bytes).unwrap(), Vec::<u16>::new());
}

// The exact bytes of a one-sample float payload: RIFF/WAVE, a 16-byte fmt
// chunk for mono IEEE-float at 16 kHz, and one little-endian sample.
#[test]
fn f32_payload_bytes_are_canonical() {
    let bytes = encode_wav_f32(&vec![0x3f80_0000]); // 1.0f32
    let expected: Vec<u8> = vec![
        b'R', b'I', b'F', b'F', 40, 0, 0, 0, //
        b'W', b'A', b'V', b'E', b'f', b'm', b't', b' ', //
        16, 0, 0, 0, // fmt chunk size
        3, 0, // IEEE float
        1, 0, // mono
        0x80, 0x3e, 0, 0, // 16000 Hz
        0x00, 0xfa, 0, 0, // 64000 bytes per second
        4, 0, // block align
        32, 0, // bits per sample
        b'd', b'a', b't', b'a', 4, 0, 0, 0, //
        0x00, 0x00, 0x80, 0x3f, // 1.0f32, little endian
    ];
    assert_eq!(bytes, expected);
}

#[test]
fn pcm16_payload_bytes_are_canonical() {
    let bytes = encode_wav_pcm16(&vec![0x0102]);
    let expected: Vec<u8> = vec![
        b'R', b'I', b'F', b'F', 38, 0, 0, 0, //
        b'W', b'A', b'V', b'E', b'f', b'm', b't', b' ', //
        16, 0, 0, 0, // fmt chunk size
        1, 0, // integer PCM
        1, 0, // mono
        0x80, 0x3e, 0, 0, // 16000 Hz
        0x00, 0x7d, 0, 0, // 32000 bytes per second
        2, 0, // block align
        16, 0, // bits per sample
        b'd', b'a', b't', b'a', 2, 0, 0, 0, //
        0x02, 0x01, // the sample, little endian
    ];
    assert_eq!(bytes, expected);
}

fn is_malformed(r: Result<Vec<u32>, DictationError>) -> bool {
    matches!(r, Err(DictationError::Storage(m)) if m == "malformed WAV payload")
}

#[test]
fn decode_rejects_corrupt_payloads() {
    assert!(is_malformed(decode_wav_f32(&Vec::new())));
    assert!(is_malformed(decode_wav_f32(&vec![0u8; 43])));

    let good = encode_wav_f32(&vec![1, 2, 3]);

    let mut truncated = good.clone();
    truncated.pop();
    assert!(is_malformed(decode_wav_f32(&truncated)));

    let mut bad_magic = good.clone();
    bad_magic[0] = b'X';
    assert!(is_malformed(decode_wav_f32(&bad_magic)));

    let mut bad_rate = good.clone();
    bad_rate[24] = 0x44; // 17476 Hz instead of 16000
    bad_rate[25] = 0x44;
    assert!(is_malformed(decode_wav_f32(&bad_rate)));

    let mut extra = good.clone();
    extra.push(0);
    assert!(is_malformed(decode_wav_f32(&extra)));

    // A 16-bit payload is not a float payload.
    let pcm = encode_wav_pcm16(&vec![5, 6]);
    assert!(is_malformed(decode_wav_f32(&pcm)));
}

#[test]
fn hound_reads_our_float_payloads() {
    let floats = float_samples();
    let samples: Vec<u32> = floats.iter().map(|s| s.to_bits()).collect();
    let bytes = encode_wav_f32(&samples);
    let mut reader = hound::WavReader::new(Cursor::new(bytes)).unwrap();
    let spec = reader.spec();
    assert_eq!(spec.channels, 1);
    assert_eq!(spec.sample_rate, 16000);
    assert_eq!(spec.bits_per_sample, 32);
    assert_eq!(spec.sample_format, hound::SampleFormat::Float);
    let read: Vec<f32> = reader.samples::<f32>().map(|s| s.unwrap()).collect();
    assert_eq!(read, floats);
}

#[test]
fn hound_reads_our_pcm16_payloads() {
    let values: Vec<i16> = vec![0, 100, -100, 32767, -32768];
    let samples: Vec<u16> = values.iter().map(|v| *v as u16).collect();
    let bytes = encode_wav_pcm16(&samples);
    let mut reader = hound::WavReader::new(Cursor::new(bytes)).unwrap();
    let spec = reader.spec();
    assert_eq!(spec.channels, 1);
    assert_eq!(spec.sample_rate, 16000);
    assert_eq!(spec.bits_per_sample, 16);
    assert_eq!(spec.sample_format, hound::SampleFormat::Int);
    let read: Vec<i16> = reader.samples::<i16>().map(|s| s.unwrap()).collect();
    assert_eq!(read, values);
}

#[test]
fn we_decode_hound_written_pcm16_payloads() {
    let spec = hound::WavSpec {
        channels: 1,
        sample_rate: 16000,
        bits_per_sample: 16,
        sample_format: hound::SampleFormat::Int,
    };
    let mut cursor = Cursor::new(Vec::new());
    {
        let mut writer = hound::WavWriter::new(&mut cursor, spec).unwrap();
        for v in [0i16, 42, -42, 31000, -31000] {
            writer.write_sample(v).unwrap();
        }
        writer.finalize().unwrap();
    }
    let bytes = cursor.into_inner();
    let decoded = decode_wav_pcm16(&bytes).unwrap();
    let values: Vec<i16> = decoded.iter().map(|b| *b as i16).collect();
    assert_eq!(values, vec![0, 42, -42, 31000, -31000]);
}
