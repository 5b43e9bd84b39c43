//! Decoding WAV bytes into 16-bit samples.
use vstd::prelude::*;

verus! {

/// Whether a WAV file stores its samples as integers or as floating point
/// values.
#[derive(Clone, Copy, Debug, PartialEq, Eq, Structural)]
pub enum SampleFormat {
    Float,
    Int,
}

/// What a WAV header says of its audio data.
#[derive(Clone, Copy, Debug, PartialEq, Eq, Structural)]
pub struct AudioSpec {
    /// Number of interleaved channels.
    pub channels: u16,
    /// Samples per second of each channel.
    pub sample_rate: u32,
    /// Bits of each stored sample.
    pub bits_per_sample: u16,
    /// Integer or floating point samples.
    pub sample_format: SampleFormat,
}

/// What hound makes of the bytes of a WAV file when asked for 16-bit samples:
/// `None` when the header is refused or any sample cannot be read as an `i16`,
/// else all samples, channels interleaved, and the header's description.
pub uninterp spec fn wav_decoding(bytes: Seq<u8>) -> Option<(Seq<i16>, AudioSpec)>;

/// Reads `bytes` with `hound::WavReader::new`, takes its `spec()` and collects
/// `samples::<i16>()`. Trusted: the result, with the samples taken by their
/// view, is `wav_decoding` of the bytes; hound's reader depends on the bytes
/// alone.
#[verifier::external_body]
fn decode_wav(bytes: &[u8]) -> (r: Option<(Vec<i16>, AudioSpec)>)
    ensures
        r is Some <==> wav_decoding(bytes@) is Some,
        r matches Some((samples, spec)) ==> wav_decoding(bytes@) == Some((samples@, spec)),
{
    let mut reader = hound::WavReader::new(bytes).ok()?;
    let spec = reader.spec();
    let samples = reader.samples::<i16>().collect::<Result<Vec<i16>, hound::Error>>().ok()?;
    let sample_format = match spec.sample_format {
        hound::SampleFormat::Float => SampleFormat::Float,
        hound::SampleFormat::Int => SampleFormat::Int,
    };
    let (channels, sample_rate, bits_per_sample): (u16, u32, u16) = (spec.channels, spec.sample_rate, spec.bits_per_sample);
    Some((samples, AudioSpec { channels, sample_rate, bits_per_sample, sample_format }))
}

/// The 16-bit samples and the header of the WAV file whose bytes are given;
/// `None` where the file cannot be read so.
pub fn load_wav(bytes: &[u8]) -> (r: Option<(Vec<i16>, AudioSpec)>)
    ensures
        r is Some <==> wav_decoding(bytes@) is Some,
        r matches Some((samples, spec)) ==> wav_decoding(bytes@) == Some((samples@, spec)),
{
    decode_wav(bytes)
}

} // verus!
