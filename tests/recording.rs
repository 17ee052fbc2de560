use std::io::Cursor;

use groqbara::recorder::{wav_file_name, CaptureFormat, RecordingError, RecordingSession};
use groqbara::sample::Gain;

/// 2024-01-02 03:04:05 UTC.
const SAVED_AT: i64 = 1_704_164_645;

#[test]
fn start_rejects_a_stream_without_channels() {
    let r = RecordingSession::start(CaptureFormat { sample_rate: 48000, channels: 0 }, Gain::unity());
    assert!(matches!(r, Err(RecordingError::UnsupportedConfig)));
    assert_eq!(RecordingError::UnsupportedConfig.message(), "Unsupported input stream configuration");
}

#[test]
fn start_rejects_a_zero_or_oversized_rate() {
    let zero = CaptureFormat { sample_rate: 0, channels: 1 };
    assert!(matches!(RecordingSession::start(zero, Gain::unity()), Err(RecordingError::UnsupportedConfig)));
    let huge = CaptureFormat { sample_rate: u32::MAX / 2, channels: 2 };
    assert!(matches!(RecordingSession::start(huge, Gain::unity()), Err(RecordingError::UnsupportedConfig)));
    let edge = CaptureFormat { sample_rate: u32::MAX / 4, channels: 2 };
    let session = RecordingSession::start(edge, Gain::unity()).unwrap();
    let wav = session.stop_and_save_wav(SAVED_AT).unwrap();
    let reader = hound::WavReader::new(Cursor::new(wav.bytes)).unwrap();
    assert_eq!(reader.spec().sample_rate, u32::MAX / 4);
}

#[test]
fn full_cycle_writes_negotiated_format_and_all_samples() {
    let format = CaptureFormat { sample_rate: 44100, channels: 2 };
    let mut session = RecordingSession::start(format, Gain::unity()).unwrap();
    let block: Vec<i16> = (0..10).map(|i| i * 100 - 500).collect();
    session.capture(&block[..4]);
    session.capture(&block[4..]);
    assert_eq!(session.sample_count(), 10);
    assert_eq!(session.format(), format);
    let wav = session.stop_and_save_wav(SAVED_AT).unwrap();
    let mut reader = hound::WavReader::new(Cursor::new(wav.bytes)).unwrap();
    let spec = reader.spec();
    assert_eq!(spec.channels, 2);
    assert_eq!(spec.sample_rate, 44100);
    assert_eq!(spec.bits_per_sample, 16);
    assert_eq!(spec.sample_format, hound::SampleFormat::Int);
    assert_eq!(reader.len(), 10);
    let read: Vec<i16> = reader.samples::<i16>().map(|s| s.unwrap()).collect();
    assert_eq!(read, block);
}

#[test]
fn recorded_samples_carry_the_gain() {
    let format = CaptureFormat { sample_rate: 16000, channels: 1 };
    let mut session = RecordingSession::start(format, Gain::from_thousandths(2000)).unwrap();
    session.capture(&[32768u16, 33768, 60000, 0]);
    let wav = session.stop_and_save_wav(SAVED_AT).unwrap();
    let mut reader = hound::WavReader::new(Cursor::new(wav.bytes)).unwrap();
    assert_eq!(reader.spec().channels, 1);
    assert_eq!(reader.spec().sample_rate, 16000);
    let read: Vec<i16> = reader.samples::<i16>().map(|s| s.unwrap()).collect();
    assert_eq!(read, vec![0, 2000, 32767, -32768]);
}

#[test]
fn empty_recording_still_saves() {
    let session = RecordingSession::start(CaptureFormat { sample_rate: 8000, channels: 1 }, Gain::unity()).unwrap();
    let wav = session.stop_and_save_wav(SAVED_AT).unwrap();
    let reader = hound::WavReader::new(Cursor::new(wav.bytes)).unwrap();
    assert_eq!(reader.len(), 0);
    assert_eq!(reader.spec().sample_rate, 8000);
}

#[test]
fn file_name_carries_the_utc_time_of_saving() {
    let session = RecordingSession::start(CaptureFormat { sample_rate: 8000, channels: 1 }, Gain::unity()).unwrap();
    let wav = session.stop_and_save_wav(SAVED_AT).unwrap();
    assert_eq!(wav.file_name, "groqtranscriber-20240102-030405.wav");
    let session = RecordingSession::start(CaptureFormat { sample_rate: 8000, channels: 1 }, Gain::unity()).unwrap();
    assert_eq!(session.stop_and_save_wav(0).unwrap().file_name, "groqtranscriber-19700101-000000.wav");
}

#[test]
fn unrepresentable_time_is_an_error() {
    let session = RecordingSession::start(CaptureFormat { sample_rate: 8000, channels: 1 }, Gain::unity()).unwrap();
    let r = session.stop_and_save_wav(i64::MAX);
    assert!(matches!(r, Err(RecordingError::ClockOutOfRange)));
    assert_eq!(RecordingError::ClockOutOfRange.message(), "The system clock is out of range");
}

#[test]
fn header_fields_sit_where_the_layout_says() {
    let format = CaptureFormat { sample_rate: 48000, channels: 2 };
    let mut session = RecordingSession::start(format, Gain::unity()).unwrap();
    session.capture(&[1i16, -2, 3, -4]);
    let b = session.stop_and_save_wav(SAVED_AT).unwrap().bytes;
    let le16 = |i: usize| u16::from_le_bytes([b[i], b[i + 1]]);
    let le32 = |i: usize| u32::from_le_bytes([b[i], b[i + 1], b[i + 2], b[i + 3]]);
    assert_eq!(b.len(), 44 + 8);
    assert_eq!(le16(20), 1);
    assert_eq!(le16(22), 2);
    assert_eq!(le32(24), 48000);
    assert_eq!(le16(34), 16);
    assert_eq!(le32(40), 8);
    assert_eq!(le16(46) as i16, -2);

    let mut session = RecordingSession::start(CaptureFormat { sample_rate: 16000, channels: 3 }, Gain::unity()).unwrap();
    session.capture(&[5i16, 6, 7]);
    let b = session.stop_and_save_wav(SAVED_AT).unwrap().bytes;
    let le16 = |i: usize| u16::from_le_bytes([b[i], b[i + 1]]);
    assert_eq!(b.len(), 68 + 6);
    assert_eq!(le16(20), 0xFFFE);
    assert_eq!(le16(22), 3);
    assert_eq!(le16(68), 5);
}

#[test]
fn unfinished_frame_fails_to_finalize() {
    let format = CaptureFormat { sample_rate: 48000, channels: 2 };
    let mut session = RecordingSession::start(format, Gain::unity()).unwrap();
    session.capture(&[1i16, 2, 3]);
    let r = session.stop_and_save_wav(SAVED_AT);
    assert!(matches!(r, Err(RecordingError::Encoding)));
    assert_eq!(RecordingError::Encoding.message(), "Failed to finalize the WAV file");
}

#[test]
fn eight_bit_capture_is_widened() {
    let format = CaptureFormat { sample_rate: 22050, channels: 1 };
    let mut session = RecordingSession::start(format, Gain::unity()).unwrap();
    session.capture(&[128u8, 255, 0]);
    session.capture(&[-1i8]);
    let wav = session.stop_and_save_wav(SAVED_AT).unwrap();
    let mut reader = hound::WavReader::new(Cursor::new(wav.bytes)).unwrap();
    let read: Vec<i16> = reader.samples::<i16>().map(|s| s.unwrap()).collect();
    assert_eq!(read, vec![0, 32512, -32768, -256]);
}

#[test]
fn file_name_wraps_the_stamp() {
    assert_eq!(wav_file_name("20240102-030405"), "groqtranscriber-20240102-030405.wav");
    assert_eq!(wav_file_name(""), "groqtranscriber-.wav");
    assert!(!RecordingError::TooLong.message().is_empty());
}
