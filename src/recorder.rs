//! One recording: the negotiated stream format, the gain, the samples captured
//! so far, and the PCM container written when it stops.
use vstd::prelude::*;
use crate::sample::{Gain, NativeSample, amplified, convert_sample};

verus! {

#[verifier::external_type_specification]
#[verifier::external_body]
pub struct ExHoundError(hound::Error);

/// Most samples that one WAV file written here may hold: the container keeps
/// its data length in 32 bits.
pub const MAX_WAV_SAMPLES: usize = 0x7FFF_0000;

/// The bytes of the WAV file that hound writes for 16-bit integer samples with
/// the given channel count and sample rate.
pub uninterp spec fn wav_encoding(channels: u16, sample_rate: u32, samples: Seq<i16>) -> Seq<u8>;

/// Whether hound can write a 16-bit header for this stream: it divides by the
/// sample rate and by the channel count, and keeps the byte rate
/// (rate x 2 x channels) in 32 bits.
pub open spec fn wav_format_ok(channels: u16, sample_rate: u32) -> bool {
    &&& channels > 0
    &&& sample_rate > 0
    &&& sample_rate as int * 2 * channels as int <= u32::MAX as int
}

/// The little-endian 16-bit field at `i`.
pub open spec fn le16(b: Seq<u8>, i: int) -> int {
    b[i] as int + 256 * (b[i + 1] as int)
}

/// The little-endian 32-bit field at `i`.
pub open spec fn le32(b: Seq<u8>, i: int) -> int {
    le16(b, i) + 65536 * le16(b, i + 2)
}

/// Length of the header that hound writes for 16-bit samples: the plain PCM
/// format up to two channels, the extensible format beyond.
pub open spec fn wav_header_len(channels: u16) -> int {
    if channels > 2 {
        68
    } else {
        44
    }
}

/// The fields of a 16-bit integer WAV file as hound lays it out: format tag,
/// channel count, sample rate, bits per sample, data length, then the samples
/// in little-endian order.
pub open spec fn wav_layout(b: Seq<u8>, channels: u16, sample_rate: u32, samples: Seq<i16>) -> bool {
    let h = wav_header_len(channels);
    &&& b.len() == h + 2 * samples.len()
    &&& le16(b, 20) == (if channels > 2 {
        0xFFFEint
    } else {
        1int
    })
    &&& le16(b, 22) == channels as int
    &&& le32(b, 24) == sample_rate as int
    &&& le16(b, 34) == 16
    &&& le32(b, h - 4) == 2 * samples.len()
    &&& forall|i: int|
        0 <= i < samples.len() ==> le16(b, h + 2 * i) == (#[trigger] samples[i] as u16) as int
}

/// Relies on hound's `WavWriter::new`, `write_sample` and `finalize`, writing
/// into an in-memory cursor (whose writes and seeks do not fail), to produce
/// the WAV encoding of the samples. `finalize` fails with `UnfinishedSample`
/// exactly when the sample count is not a multiple of the channel count. The
/// layout is that of `write_headers`, `write_pcmwaveformat`,
/// `write_waveformatextensible` and `update_header` in hound's write.rs.
#[verifier::external_body]
fn encode_wav(channels: u16, sample_rate: u32, samples: &Vec<i16>) -> (r: Result<
    Vec<u8>,
    hound::Error,
>)
    requires
        wav_format_ok(channels, sample_rate),
        samples@.len() <= MAX_WAV_SAMPLES,
    ensures
        r is Ok <==> (samples@.len() as int) % (channels as int) == 0,
        r is Ok ==> r->Ok_0@ == wav_encoding(channels, sample_rate, samples@),
        r is Ok ==> wav_layout(r->Ok_0@, channels, sample_rate, samples@),
{
    let spec = hound::WavSpec {
        channels,
        sample_rate,
        bits_per_sample: 16,
        sample_format: hound::SampleFormat::Int,
    };
    let mut bytes = std::io::Cursor::new(Vec::new());
    let mut writer = hound::WavWriter::new(&mut bytes, spec)?;
    for &s in samples.iter() {
        let _ = writer.write_sample(s);
    }
    writer.finalize()?;
    Ok(bytes.into_inner())
}

/// A UTC time to the second as `%Y%m%d-%H%M%S`: eight digits, a dash, six digits.
pub open spec fn is_utc_stamp(s: Seq<char>) -> bool {
    &&& s.len() == 15
    &&& s[8] == '-'
    &&& forall|i: int| 0 <= i < 15 && i != 8 ==> '0' <= #[trigger] s[i] <= '9'
}

/// The last second of the year 9999, in seconds since 1970-01-01 UTC.
pub const MAX_STAMP_SECS: i64 = 253_402_300_799;

/// The `%Y%m%d-%H%M%S` form of a UNIX time, as chrono formats it.
pub uninterp spec fn utc_stamp_of(unix_secs: i64) -> Seq<char>;

/// Relies on chrono's `DateTime::from_timestamp`, which returns `None` for a
/// time it cannot represent instead of panicking, and on its
/// `%Y%m%d-%H%M%S` formatting, which writes a zero-padded four-digit year for
/// the years 0 to 9999 and two digits for each other field.
#[verifier::external_body]
fn utc_stamp(unix_secs: i64) -> (r: Option<String>)
    ensures
        r is Some ==> r->Some_0@ == utc_stamp_of(unix_secs),
        0 <= unix_secs <= MAX_STAMP_SECS ==> r is Some && is_utc_stamp(r->Some_0@),
{
    chrono::DateTime::from_timestamp(unix_secs, 0).map(|t| t.format("%Y%m%d-%H%M%S").to_string())
}

/// The name of the file that a recording stamped `stamp` is saved under.
pub open spec fn capture_file_name(stamp: Seq<char>) -> Seq<char> {
    "groqtranscriber-"@ + stamp + ".wav"@
}

/// The file name of a recording stamped with the given time.
pub fn wav_file_name(stamp: &str) -> (r: String)
    ensures
        r@ == capture_file_name(stamp@),
{
    let mut name = String::from_str("groqtranscriber-");
    name.append(stamp);
    name.append(".wav");
    name
}

/// The stream configuration that the input device negotiated.
#[derive(Clone, Copy, Debug, PartialEq, Eq, Structural)]
pub struct CaptureFormat {
    pub sample_rate: u32,
    pub channels: u16,
}

/// Why a recording could not start or be saved.
#[derive(Clone, Copy, Debug, PartialEq, Eq, Structural)]
pub enum RecordingError {
    /// The device negotiated a stream that no WAV header can describe: no
    /// channels, a sample rate of zero, or a byte rate beyond 32 bits.
    UnsupportedConfig,
    /// More samples were captured than one WAV file can hold.
    TooLong,
    /// The WAV container could not be finalized.
    Encoding,
    /// The time given for the file name cannot be written as a date.
    ClockOutOfRange,
}

pub open spec fn recording_error_text(e: RecordingError) -> Seq<char> {
    match e {
        RecordingError::UnsupportedConfig => "Unsupported input stream configuration"@,
        RecordingError::TooLong => "The recording is too long to save"@,
        RecordingError::Encoding => "Failed to finalize the WAV file"@,
        RecordingError::ClockOutOfRange => "The system clock is out of range"@,
    }
}

impl RecordingError {
    pub fn message(&self) -> (r: String)
        ensures
            r@ == recording_error_text(*self),
    {
        match self {
            RecordingError::UnsupportedConfig => String::from_str(
                "Unsupported input stream configuration",
            ),
            RecordingError::TooLong => String::from_str("The recording is too long to save"),
            RecordingError::Encoding => String::from_str("Failed to finalize the WAV file"),
            RecordingError::ClockOutOfRange => String::from_str("The system clock is out of range"),
        }
    }
}

/// A finished recording: its file name and the bytes of its WAV container.
pub struct WavFile {
    pub file_name: String,
    pub bytes: Vec<u8>,
}

/// The 16-bit samples that a block of device samples becomes under `gain`.
pub open spec fn converted<T: NativeSample>(data: Seq<T>, gain: Gain) -> Seq<i16> {
    Seq::new(data.len(), |i: int| amplified(data[i].scaled_value(), gain.thousandths as int) as i16)
}

/// Capturing a stream in blocks of any sizes keeps every sample: the samples
/// saved are those of the whole stream, converted one by one.
pub proof fn lemma_blocks_concatenate<T: NativeSample>(a: Seq<T>, b: Seq<T>, gain: Gain)
    ensures
        converted(a + b, gain) == converted(a, gain) + converted(b, gain),
        converted(a, gain).len() == a.len(),
{
    assert(converted(a + b, gain) =~= converted(a, gain) + converted(b, gain));
}

/// One recording in progress.
pub struct RecordingSession {
    format: CaptureFormat,
    gain: Gain,
    samples: Vec<i16>,
}

impl RecordingSession {
    pub closed spec fn spec_format(&self) -> CaptureFormat {
        self.format
    }

    pub closed spec fn spec_gain(&self) -> Gain {
        self.gain
    }

    /// The samples captured so far, converted and amplified.
    pub closed spec fn captured(&self) -> Seq<i16> {
        self.samples@
    }

    /// Starts an empty recording for the format that the device negotiated.
    pub fn start(format: CaptureFormat, gain: Gain) -> (r: Result<RecordingSession, RecordingError>)
        ensures
            r is Ok <==> wav_format_ok(format.channels, format.sample_rate),
            r is Err ==> r == Err::<RecordingSession, RecordingError>(
                RecordingError::UnsupportedConfig,
            ),
            r is Ok ==> ({
                let s = r->Ok_0;
                &&& s.spec_format() == format
                &&& s.spec_gain() == gain
                &&& s.captured() == Seq::<i16>::empty()
            }),
    {
        proof {
            assert(format.sample_rate as int * 2 * format.channels as int <= 0xFFFF_FFFF * 2 * 0xFFFF)
                by (nonlinear_arith)
                requires
                    format.sample_rate <= 0xFFFF_FFFF,
                    format.channels <= 0xFFFF,
            ;
        }
        if format.channels == 0 || format.sample_rate == 0 || (format.sample_rate as u64) * 2
            * (format.channels as u64) > u32::MAX as u64 {
            Err(RecordingError::UnsupportedConfig)
        } else {
            Ok(RecordingSession { format, gain, samples: Vec::new() })
        }
    }

    pub fn format(&self) -> (r: CaptureFormat)
        ensures
            r == self.spec_format(),
    {
        self.format
    }

    pub fn gain(&self) -> (r: Gain)
        ensures
            r == self.spec_gain(),
    {
        self.gain
    }

    pub fn sample_count(&self) -> (r: usize)
        ensures
            r == self.captured().len(),
    {
        self.samples.len()
    }

    /// Appends a block of device samples, each converted to 16 bits and
    /// multiplied by the gain with clamping.
    pub fn capture<T: NativeSample>(&mut self, data: &[T])
        ensures
            final(self).captured() == old(self).captured() + converted(data@, old(self).spec_gain()),
            final(self).spec_format() == old(self).spec_format(),
            final(self).spec_gain() == old(self).spec_gain(),
    {
        let gain = self.gain;
        let ghost start = self.samples@;
        let mut i: usize = 0;
        while i < data.len()
            invariant
                i <= data@.len(),
                self.format == old(self).format,
                self.gain == gain,
                gain == old(self).gain,
                start == old(self).samples@,
                self.samples@ == start + converted(data@.take(i as int), gain),
            decreases data@.len() - i,
        {
            let v = convert_sample(&data[i], gain);
            proof {
                assert(converted(data@.take(i + 1), gain) == converted(data@.take(i as int), gain).push(
                    v,
                ));
            }
            self.samples.push(v);
            i = i + 1;
        }
        proof {
            assert(data@.take(data@.len() as int) == data@);
        }
    }

    /// Stops the recording and renders it as a WAV file of 16-bit integer
    /// samples with the negotiated channel count and sample rate, named after
    /// `unix_secs`, the time of saving in seconds since 1970-01-01 UTC. It
    /// succeeds whenever the samples fit in one file, form whole frames, and
    /// the time falls in the years 1970 to 9999; a container that cannot be
    /// finalized is an error.
    pub fn stop_and_save_wav(self, unix_secs: i64) -> (r: Result<WavFile, RecordingError>)
        requires
            wav_format_ok(self.spec_format().channels, self.spec_format().sample_rate),
        ensures
            self.captured().len() > MAX_WAV_SAMPLES <==> r == Err::<WavFile, RecordingError>(
                RecordingError::TooLong,
            ),
            self.captured().len() <= MAX_WAV_SAMPLES && (self.captured().len() as int) % (
            self.spec_format().channels as int) != 0 <==> r == Err::<WavFile, RecordingError>(
                RecordingError::Encoding,
            ),
            r == Err::<WavFile, RecordingError>(RecordingError::ClockOutOfRange) ==> !(0 <= unix_secs
                <= MAX_STAMP_SECS),
            r is Err ==> r == Err::<WavFile, RecordingError>(RecordingError::TooLong) || r == Err::<
                WavFile,
                RecordingError,
            >(RecordingError::Encoding) || r == Err::<WavFile, RecordingError>(
                RecordingError::ClockOutOfRange,
            ),
            self.captured().len() <= MAX_WAV_SAMPLES && (self.captured().len() as int) % (
            self.spec_format().channels as int) == 0 && 0 <= unix_secs <= MAX_STAMP_SECS ==> r is Ok,
            r is Ok ==> r->Ok_0.bytes@ == wav_encoding(
                self.spec_format().channels,
                self.spec_format().sample_rate,
                self.captured(),
            ),
            r is Ok ==> wav_layout(
                r->Ok_0.bytes@,
                self.spec_format().channels,
                self.spec_format().sample_rate,
                self.captured(),
            ),
            r is Ok ==> r->Ok_0.file_name@ == capture_file_name(utc_stamp_of(unix_secs)),
            r is Ok && 0 <= unix_secs <= MAX_STAMP_SECS ==> is_utc_stamp(utc_stamp_of(unix_secs)),
    {
        if self.samples.len() > MAX_WAV_SAMPLES {
            return Err(RecordingError::TooLong);
        }
        let bytes = match encode_wav(self.format.channels, self.format.sample_rate, &self.samples) {
            Err(_) => {
                return Err(RecordingError::Encoding);
            },
            Ok(b) => b,
        };
        match utc_stamp(unix_secs) {
            None => Err(RecordingError::ClockOutOfRange),
            Some(stamp) => {
                let file_name = wav_file_name(stamp.as_str());
                Ok(WavFile { file_name, bytes })
            },
        }
    }
}

} // verus!
