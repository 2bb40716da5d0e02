//! The audio loader: from the bytes of a WAV file to its 16-bit samples.
//!
//! The container is parsed by the `hound` crate. What this module decides is
//! which files are accepted (16-bit integer PCM only) and that decoding is
//! all-or-nothing: one sample that cannot be read fails the whole file.

use vstd::prelude::*;
use crate::error::TranscribeError;

verus! {

/// How a file stores one sample.
#[derive(Clone, Copy, Debug, PartialEq, Eq, Structural)]
pub enum SampleFormat {
    /// IEEE floating point.
    Float,
    /// Signed integer.
    Int,
}

/// What the `fmt` chunk of a WAV file says of its samples.
#[derive(Clone, Copy, Debug, PartialEq, Eq, Structural)]
pub struct WavHeader {
    pub channels: u16,
    pub sample_rate: u32,
    pub bits_per_sample: u16,
    pub format: SampleFormat,
}

/// The value by which a 16-bit sample is divided to give an amplitude.
pub const SAMPLE_SCALE: i16 = 32767;

impl WavHeader {
    /// The one encoding that is accepted: 16-bit signed integer PCM.
    pub open spec fn is_pcm16_spec(self) -> bool {
        self.bits_per_sample == 16 && self.format == SampleFormat::Int
    }

    /// Whether the samples are 16-bit signed integer PCM.
    pub fn is_pcm16(&self) -> (accepted: bool)
        ensures
            accepted == self.is_pcm16_spec(),
    {
        self.bits_per_sample == 16 && self.format == SampleFormat::Int
    }
}

/// `hound::WavReader`, opaque to the verifier.
#[verifier::external_type_specification]
#[verifier::external_body]
#[verifier::reject_recursive_types(R)]
pub struct ExWavReader<R>(hound::WavReader<R>);

/// `hound::Error`, opaque to the verifier.
#[verifier::external_type_specification]
#[verifier::external_body]
pub struct ExWavError(hound::Error);

/// What `hound::WavReader::new` makes of a file's bytes: `None` where it
/// refuses them, else the channels, the sample rate, the bits per sample,
/// whether the samples are integers, and the outcomes of the reads to come.
pub uninterp spec fn wav_parse(bytes: Seq<u8>) -> Option<(u16, u32, u16, bool, Seq<Option<i16>>)>;

/// What `hound::WavReader::spec` reports of a reader: the channels, the sample
/// rate, the bits per sample, and whether the samples are integers.
pub uninterp spec fn reader_format(reader: hound::WavReader<&[u8]>) -> (u16, u32, u16, bool);

/// The outcomes of the reads that a reader has still to give, in order: a
/// sample, or `None` for a read that fails.
pub uninterp spec fn reader_pending(reader: hound::WavReader<&[u8]>) -> Seq<Option<i16>>;

/// The header that stands for a format as `hound` reports it.
pub open spec fn header_of(format: (u16, u32, u16, bool)) -> WavHeader {
    WavHeader {
        channels: format.0,
        sample_rate: format.1,
        bits_per_sample: format.2,
        format: if format.3 { SampleFormat::Int } else { SampleFormat::Float },
    }
}

/// Calls `hound::WavReader::new` on the bytes of a file. It reads the RIFF
/// header and the chunks up to the start of the data, and fails where they are
/// no WAV container. The contract only names the outcome.
#[verifier::external_body]
fn open_reader(bytes: &[u8]) -> (opened: Result<hound::WavReader<&[u8]>, hound::Error>)
    ensures
        match opened {
            Ok(reader) => wav_parse(bytes@) == Some(
                (
                    reader_format(reader).0,
                    reader_format(reader).1,
                    reader_format(reader).2,
                    reader_format(reader).3,
                    reader_pending(reader),
                ),
            ),
            Err(_) => wav_parse(bytes@) is None,
        },
{
    hound::WavReader::new(bytes)
}

/// Calls `hound::WavReader::spec`, which copies out the format that the reader
/// found in the `fmt` chunk.
#[verifier::external_body]
fn reader_header(reader: &hound::WavReader<&[u8]>) -> (header: WavHeader)
    ensures
        header == header_of(reader_format(*reader)),
{
    let spec = reader.spec();
    WavHeader {
        channels: spec.channels,
        sample_rate: spec.sample_rate,
        bits_per_sample: spec.bits_per_sample,
        format: match spec.sample_format {
            hound::SampleFormat::Float => SampleFormat::Float,
            hound::SampleFormat::Int => SampleFormat::Int,
        },
    }
}

/// Calls `next` on `hound::WavReader::samples`, for 16-bit samples. The reader
/// counts the reads: once it has given as many as the data chunk holds it
/// returns `None` and stays as it is; before that each call gives the next
/// outcome, a sample or a failure, and the format is untouched.
#[verifier::external_body]
fn next_sample(reader: &mut hound::WavReader<&[u8]>) -> (read: Option<Result<i16, hound::Error>>)
    ensures
        reader_format(*final(reader)) == reader_format(*old(reader)),
        reader_pending(*old(reader)).len() == 0 ==> read is None && reader_pending(*final(reader))
            == reader_pending(*old(reader)),
        reader_pending(*old(reader)).len() > 0 ==> read is Some && reader_pending(*final(reader))
            == reader_pending(*old(reader)).skip(1) && match read->Some_0 {
            Ok(sample) => reader_pending(*old(reader))[0] == Some(sample),
            Err(_) => reader_pending(*old(reader))[0] is None,
        },
{
    reader.samples::<i16>().next()
}

/// True where every read gives a sample.
pub open spec fn all_read(outcomes: Seq<Option<i16>>) -> bool {
    forall|i: int| 0 <= i < outcomes.len() ==> (#[trigger] outcomes[i]) is Some
}

/// The samples of reads that all succeeded.
pub open spec fn samples_of(outcomes: Seq<Option<i16>>) -> Seq<i16> {
    Seq::new(outcomes.len(), |i: int| outcomes[i]->Some_0)
}

/// What a file with this header and these reads decodes to: its samples, if
/// the encoding is accepted and no read fails.
pub open spec fn decoded(header: WavHeader, outcomes: Seq<Option<i16>>) -> Result<
    Seq<i16>,
    TranscribeError,
> {
    if header.is_pcm16_spec() && all_read(outcomes) {
        Ok(samples_of(outcomes))
    } else {
        Err(TranscribeError::AudioDecodeError)
    }
}

/// What the bytes of a file decode to.
pub open spec fn audio_of(bytes: Seq<u8>) -> Result<Seq<i16>, TranscribeError> {
    match wav_parse(bytes) {
        None => Err(TranscribeError::AudioOpenError),
        Some(parsed) => decoded(
            header_of((parsed.0, parsed.1, parsed.2, parsed.3)),
            parsed.4,
        ),
    }
}

/// Accepts a header of 16-bit signed integer PCM and rejects every other.
pub fn check_format(header: &WavHeader) -> (checked: Result<(), TranscribeError>)
    ensures
        checked == if header.is_pcm16_spec() {
            Ok::<(), TranscribeError>(())
        } else {
            Err::<(), TranscribeError>(TranscribeError::AudioDecodeError)
        },
{
    if header.is_pcm16() {
        Ok(())
    } else {
        Err(TranscribeError::AudioDecodeError)
    }
}

/// Reads every sample that the reader has left, or fails at the first read
/// that does.
fn read_samples(reader: &mut hound::WavReader<&[u8]>) -> (read: Result<Vec<i16>, TranscribeError>)
    ensures
        match read {
            Ok(samples) => all_read(reader_pending(*old(reader))) && samples@ == samples_of(
                reader_pending(*old(reader)),
            ),
            Err(e) => !all_read(reader_pending(*old(reader))) && e
                == TranscribeError::AudioDecodeError,
        },
{
    let ghost outcomes = reader_pending(*reader);
    let mut samples: Vec<i16> = Vec::new();
    loop
        invariant
            outcomes == reader_pending(*old(reader)),
            samples@.len() <= outcomes.len(),
            reader_pending(*reader) == outcomes.skip(samples@.len() as int),
            forall|i: int| 0 <= i < samples@.len() ==> outcomes[i] == Some(#[trigger] samples@[i]),
        ensures
            samples@.len() == outcomes.len(),
        decreases outcomes.len() - samples@.len(),
    {
        match next_sample(reader) {
            None => {
                break ;
            },
            Some(Ok(sample)) => {
                assert(outcomes.skip(samples@.len() as int)[0] == outcomes[samples@.len() as int]);
                assert(outcomes.skip(samples@.len() as int).skip(1) == outcomes.skip(
                    samples@.len() as int + 1,
                ));
                samples.push(sample);
            },
            Some(Err(_)) => {
                assert(outcomes.skip(samples@.len() as int)[0] == outcomes[samples@.len() as int]);
                assert(outcomes[samples@.len() as int] is None);
                return Err(TranscribeError::AudioDecodeError);
            },
        }
    }
    assert(all_read(outcomes)) by {
        assert forall|i: int| 0 <= i < outcomes.len() implies (#[trigger] outcomes[i]) is Some by {
            assert(outcomes[i] == Some(samples@[i]));
        }
    }
    assert(samples@ =~= samples_of(outcomes));
    Ok(samples)
}

/// Decodes the bytes of a WAV file into its samples, the channels interleaved
/// as the file has them.
///
/// Bytes that are no WAV container give `AudioOpenError`. A container whose
/// samples are not 16-bit integer PCM, or in which a sample cannot be read,
/// gives `AudioDecodeError`: no part of the samples is returned then.
pub fn load_audio(bytes: &[u8]) -> (loaded: Result<Vec<i16>, TranscribeError>)
    ensures
        match loaded {
            Ok(samples) => audio_of(bytes@) == Ok::<Seq<i16>, TranscribeError>(samples@),
            Err(e) => audio_of(bytes@) == Err::<Seq<i16>, TranscribeError>(e),
        },
{
    let mut reader = match open_reader(bytes) {
        Ok(reader) => reader,
        Err(_) => {
            return Err(TranscribeError::AudioOpenError);
        },
    };
    let header = reader_header(&reader);
    match check_format(&header) {
        Ok(()) => read_samples(&mut reader),
        Err(e) => Err(e),
    }
}

/// Every sample but the most negative one is at most the scale in magnitude,
/// so that its quotient by the scale lies between -1 and 1.
pub proof fn lemma_sample_within_scale(sample: i16)
    requires
        sample != i16::MIN,
    ensures
        -(SAMPLE_SCALE as int) <= sample as int <= SAMPLE_SCALE as int,
{
}

} // verus!
