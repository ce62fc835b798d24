//! Output: the WAV format written, the file name, the overwrite answer, and
//! encoding of integer samples.
use vstd::prelude::*;
use crate::text::{trim_str, trimmed};
use crate::wav_input::{accepted_int_input, has_wav_signature, hound_header, hound_int_samples, supported_rate};

verus! {

/// The format of the WAV data written.
#[derive(Clone, Copy, PartialEq, Eq, Structural)]
pub struct OutputSpec {
    pub channels: u16,
    pub sample_rate: u32,
    pub bits_per_sample: u16,
    pub is_float: bool,
}

/// Why encoding failed.
pub enum OutputError {
    /// The WAV encoder refused the format or a sample.
    Encode(hound::Error),
}

/// Bits per sample written for `out_bit` bytes per sample: 2, 3 and 4 bytes
/// give 16, 24 and 32 bits; anything else 16 bits.
pub open spec fn output_bits(out_bit: u16) -> u16 {
    if out_bit == 3 {
        24
    } else if out_bit == 4 {
        32
    } else {
        16
    }
}

/// The largest integer sample value at `bits` bits per sample (16, 24 or 32),
/// and that of 16 bits for any other width.
pub open spec fn full_scale(bits: u16) -> u32 {
    if bits == 24 {
        8388607
    } else if bits == 32 {
        2147483647
    } else {
        32767
    }
}

/// The format written: the given channels and rate; floats only where 4 bytes
/// per sample are asked for and the input held floats, integers otherwise.
pub fn output_spec(n_channels: u16, out_freq: u32, out_bit: u16, input_is_float: bool) -> (s:
    OutputSpec)
    ensures
        s.channels == n_channels,
        s.sample_rate == out_freq,
        s.bits_per_sample == output_bits(out_bit),
        2 <= out_bit <= 4 ==> s.bits_per_sample == 8 * out_bit,
        s.is_float == (out_bit == 4 && input_is_float),
{
    let bits_per_sample = if out_bit == 2 {
        16
    } else if out_bit == 3 {
        24
    } else if out_bit == 4 {
        32
    } else {
        16
    };
    OutputSpec {
        channels: n_channels,
        sample_rate: out_freq,
        bits_per_sample,
        is_float: out_bit == 4 && input_is_float,
    }
}

/// The value that a full-scale sample of 1.0 is written as.
pub fn int_full_scale(bits: u16) -> (m: u32)
    ensures
        m == full_scale(bits),
        bits == 16 ==> m + 1 == 0x8000,
        bits == 24 ==> m + 1 == 0x80_0000,
        bits == 32 ==> m + 1 == 0x8000_0000,
{
    if bits == 16 {
        32767
    } else if bits == 24 {
        8388607
    } else if bits == 32 {
        2147483647
    } else {
        32767
    }
}

/// The name of the processed file: the input's stem (or `output`) followed by
/// `_Processed.wav`.
pub open spec fn processed_name(stem: Option<Seq<char>>) -> Seq<char> {
    let base = match stem {
        Some(s) => s,
        None => seq!['o', 'u', 't', 'p', 'u', 't'],
    };
    base + seq!['_', 'P', 'r', 'o', 'c', 'e', 's', 's', 'e', 'd', '.', 'w', 'a', 'v']
}

/// The file name for the output, from the stem of the input's name (`None`
/// where it has none or it is not valid Unicode).
pub fn processed_file_name(stem: Option<&str>) -> (r: String)
    ensures
        r@ == processed_name(stem.deep_view()),
{
    proof {
        reveal_strlit("output");
        reveal_strlit("_Processed.wav");
    }
    let mut r = match stem {
        Some(s) => String::from_str(s),
        None => String::from_str("output"),
    };
    r.append("_Processed.wav");
    assert(r@ =~= processed_name(stem.deep_view()));
    r
}

/// The user refuses to overwrite an existing file only by answering `n` (in
/// either case); anything else overwrites.
pub open spec fn declines_overwrite(answer: Seq<char>) -> bool {
    trimmed(answer) == seq!['n'] || trimmed(answer) == seq!['N']
}

/// Whether the answer to the overwrite question refuses it.
pub fn overwrite_declined(answer: &str) -> (r: bool)
    ensures
        r == declines_overwrite(answer@),
{
    let t = trim_str(answer);
    if t.unicode_len() == 1 {
        let c = t.get_char(0);
        assert(t@ =~= seq![c]);
        c == 'n' || c == 'N'
    } else {
        false
    }
}

/// The bytes of a WAV file that `hound::WavWriter` writes for integer samples
/// with this channel count, sample rate and bits per sample, or `None` where
/// it reports an error.
pub uninterp spec fn hound_int_wav(
    channels: u16,
    sample_rate: u32,
    bits_per_sample: u16,
    samples: Seq<i32>,
) -> Option<Seq<u8>>;

/// Writes the samples with `hound::WavWriter::new` into memory, with
/// `write_sample` for each and `finalize`. The contract claims that the
/// outcome is a function of the arguments, and that for 16, 24 or 32 bits a
/// `hound::WavReader` on the bytes written reports the same format and gives
/// back the same samples (the writer stores the header it reads, and
/// `finalize` fails where the sample count is not a multiple of the channel
/// count). The writer divides by the channel count, the sample rate and the
/// bytes per sample (also when a refused writer is dropped) and sums header
/// and data sizes in `u32`; the `requires` keeps those in range.
#[verifier::external_body]
fn write_int_wav(channels: u16, sample_rate: u32, bits_per_sample: u16, samples: &[i32]) -> (r:
    Result<Vec<u8>, hound::Error>)
    requires
        channels > 0,
        sample_rate > 0,
        bits_per_sample == 8 || bits_per_sample == 16 || bits_per_sample == 24
            || bits_per_sample == 32,
        sample_rate * 4 * channels <= u32::MAX,
        samples@.len() * 4 + 68 <= u32::MAX,
    ensures
        r is Ok <==> hound_int_wav(channels, sample_rate, bits_per_sample, samples@) is Some,
        r matches Ok(v) ==> hound_int_wav(channels, sample_rate, bits_per_sample, samples@)
            == Some(v@),
        (bits_per_sample == 16 || bits_per_sample == 24 || bits_per_sample == 32) && channels * 4
            <= 0xFFFF ==> (r matches Ok(v) ==> {
            &&& has_wav_signature(v@)
            &&& hound_header(v@) == Some((channels, sample_rate, bits_per_sample, false))
            &&& hound_int_samples(v@) == Some(samples@)
        }),
{
    let spec = hound::WavSpec {
        channels,
        sample_rate,
        bits_per_sample,
        sample_format: hound::SampleFormat::Int,
    };
    let mut cursor = std::io::Cursor::new(Vec::new());
    let mut writer = hound::WavWriter::new(&mut cursor, spec)?;
    for s in samples {
        writer.write_sample(*s)?;
    }
    writer.finalize()?;
    Ok(cursor.into_inner())
}

/// Encodes integer samples as a WAV file of format `spec`. What it writes
/// starts with a WAV signature and reads back with the same format and the
/// same samples; in stereo at a supported rate it is accepted as input and
/// decodes to the same samples.
pub fn encode_int_wav(spec: OutputSpec, samples: &[i32]) -> (r: Result<Vec<u8>, OutputError>)
    requires
        !spec.is_float,
        spec.bits_per_sample == 16 || spec.bits_per_sample == 24 || spec.bits_per_sample == 32,
        spec.channels > 0,
        spec.sample_rate > 0,
        spec.sample_rate * 4 * spec.channels <= u32::MAX,
        samples@.len() * 4 + 68 <= u32::MAX,
    ensures
        match r {
            Ok(v) => hound_int_wav(
                spec.channels,
                spec.sample_rate,
                spec.bits_per_sample,
                samples@,
            ) == Some(v@),
            Err(_) => hound_int_wav(
                spec.channels,
                spec.sample_rate,
                spec.bits_per_sample,
                samples@,
            ) is None,
        },
        spec.channels * 4 <= 0xFFFF ==> (r matches Ok(v) ==> {
            &&& has_wav_signature(v@)
            &&& hound_header(v@) == Some(
                (spec.channels, spec.sample_rate, spec.bits_per_sample, false),
            )
            &&& hound_int_samples(v@) == Some(samples@)
        }),
        spec.channels == 2 && supported_rate(spec.sample_rate) ==> (r matches Ok(v)
            ==> accepted_int_input(v@, samples@)),
{
    match write_int_wav(spec.channels, spec.sample_rate, spec.bits_per_sample, samples) {
        Ok(v) => Ok(v),
        Err(e) => Err(OutputError::Encode(e)),
    }
}

} // verus!
