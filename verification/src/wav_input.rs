//! Input checks and WAV decoding: which sources are accepted, and which WAV
//! formats the filters can work on.
use vstd::prelude::*;
use crate::text::{ascii_lower_char, ascii_lowercase, lowercase_equals, text_equals};

verus! {

#[verifier::external_type_specification]
#[verifier::external_body]
pub struct ExWavError(hound::Error);

/// Why an input is not processed.
pub enum InputError {
    /// Piped input whose name does not end in `.wav`, `.vgm` or `.vgz`.
    UnsupportedPipeExtension,
    /// Piped input together with a `.wav` file named on the command line.
    AmbiguousInput,
    /// A file whose name does not end in `.wav`.
    UnsupportedExtension,
    /// The data does not start with a RIFF/WAVE signature.
    InvalidSignature,
    /// The WAV decoder does not accept the data.
    OpenFailed(hound::Error),
    /// Samples of other than 8, 16, 24 or 32 bits.
    UnsupportedBitsPerSample,
    /// Other than two channels.
    NotStereo,
    /// A sample rate other than 22.05, 32, 44.1, 48, 88.2 or 96 kHz.
    UnsupportedSampleRate,
    /// Integer samples of 8 bits.
    UnsupportedIntegerDepth,
    /// A sample could not be decoded.
    SampleRead(hound::Error),
}

/// The samples of a WAV file, channels interleaved.
pub enum WavSamples {
    /// Integer samples.
    Int(Vec<i32>),
    /// IEEE float samples, which the caller decodes itself.
    Float,
}

/// A WAV input that the filters can work on.
pub struct DecodedWav {
    pub channels: u16,
    pub sample_rate: u32,
    pub bits_per_sample: u16,
    pub is_float: bool,
    /// Bytes per sample.
    pub sampwidth: u16,
    pub samples: WavSamples,
}

/// What `hound::WavReader::new` followed by `spec()` reports of a WAV file:
/// channels, sample rate, bits per sample, and whether samples are floats;
/// `None` where the reader refuses the data.
pub uninterp spec fn hound_header(bytes: Seq<u8>) -> Option<(u16, u32, u16, bool)>;

/// All samples that a `hound::WavReader` on the data yields as `i32`, or
/// `None` where opening the reader or decoding a sample fails.
pub uninterp spec fn hound_int_samples(bytes: Seq<u8>) -> Option<Seq<i32>>;

/// Opens `hound::WavReader::new` on the bytes and reads its `spec()`. The
/// contract claims only that the outcome is a function of the bytes.
#[verifier::external_body]
fn read_wav_header(bytes: &[u8]) -> (r: Result<(u16, u32, u16, bool), hound::Error>)
    ensures
        r is Ok <==> hound_header(bytes@) is Some,
        r matches Ok(h) ==> hound_header(bytes@) == Some(h),
{
    let reader = hound::WavReader::new(std::io::Cursor::new(bytes))?;
    let spec = reader.spec();
    let is_float = match spec.sample_format {
        hound::SampleFormat::Int => false,
        hound::SampleFormat::Float => true,
    };
    Ok((spec.channels, spec.sample_rate, spec.bits_per_sample, is_float))
}

/// Opens `hound::WavReader::new` on the bytes and collects
/// `samples::<i32>()`, stopping at the first error. The contract claims only
/// that the outcome is a function of the bytes.
#[verifier::external_body]
fn read_int_samples(bytes: &[u8]) -> (r: Result<Vec<i32>, hound::Error>)
    ensures
        r is Ok <==> hound_int_samples(bytes@) is Some,
        r matches Ok(v) ==> hound_int_samples(bytes@) == Some(v@),
{
    let mut reader = hound::WavReader::new(std::io::Cursor::new(bytes))?;
    reader.samples::<i32>().collect()
}

/// The lower-cased file extension, empty when there is none.
pub open spec fn lower_extension(extension: Option<Seq<char>>) -> Seq<char> {
    match extension {
        Some(e) => ascii_lowercase(e),
        None => Seq::empty(),
    }
}

/// The name under which piped data travels when no file is named.
pub open spec fn pipe_dummy_name() -> Seq<char> {
    seq!['P', 'i', 'p', 'e', '_', 's', 'o', 'u', 'n', 'd', '.', 'w', 'a', 'v']
}

/// Whether the input was given without asking: named on the command line or
/// piped in. Such a run asks no questions where the mode is known.
pub fn input_given(arg_input_path: &Option<String>, has_piped_data: bool) -> (r: bool)
    ensures
        r == (arg_input_path is Some || has_piped_data),
{
    arg_input_path.is_some() || has_piped_data
}

/// The path of the input: the file named on the command line, else the
/// placeholder name of piped data, else `None` (the user picks a file).
pub fn resolve_input_path(arg_input_path: Option<String>, has_piped_data: bool) -> (r: Option<
    String,
>)
    ensures
        r.deep_view() == match arg_input_path.deep_view() {
            Some(p) => Some(p),
            None => if has_piped_data {
                Some(pipe_dummy_name())
            } else {
                None
            },
        },
{
    match arg_input_path {
        Some(p) => Some(p),
        None => if has_piped_data {
            proof {
                reveal_strlit("Pipe_sound.wav");
            }
            let r = String::from_str("Pipe_sound.wav");
            assert(r@ =~= pipe_dummy_name());
            Some(r)
        } else {
            None
        },
    }
}

/// The decision on an input's name: piped data may carry a `.wav`, `.vgm` or
/// `.vgz` name, and a `.wav` name only when it is the placeholder for piped
/// data (otherwise both a file and a pipe were given); a file must be `.wav`.
pub open spec fn input_name_verdict(
    is_pipe: bool,
    extension: Option<Seq<char>>,
    file_name: Option<Seq<char>>,
) -> Option<InputError> {
    let ext = lower_extension(extension);
    if is_pipe {
        if !(ext == seq!['w', 'a', 'v'] || ext == seq!['v', 'g', 'm'] || ext == seq!['v', 'g', 'z']) {
            Some(InputError::UnsupportedPipeExtension)
        } else if ext == seq!['w', 'a', 'v'] && file_name != Some(pipe_dummy_name()) {
            Some(InputError::AmbiguousInput)
        } else {
            None
        }
    } else if ext != seq!['w', 'a', 'v'] {
        Some(InputError::UnsupportedExtension)
    } else {
        None
    }
}

/// Whether `e` reads `wav` in any mix of upper and lower case.
pub open spec fn reads_wav(e: Seq<char>) -> bool {
    &&& e.len() == 3
    &&& e[0] == 'w' || e[0] == 'W'
    &&& e[1] == 'a' || e[1] == 'A'
    &&& e[2] == 'v' || e[2] == 'V'
}

/// Whether `e` reads `vgm` or `vgz` in any mix of upper and lower case.
pub open spec fn reads_vgm_or_vgz(e: Seq<char>) -> bool {
    &&& e.len() == 3
    &&& e[0] == 'v' || e[0] == 'V'
    &&& e[1] == 'g' || e[1] == 'G'
    &&& e[2] == 'm' || e[2] == 'M' || e[2] == 'z' || e[2] == 'Z'
}

proof fn lemma_lowercase_vgm_vgz(e: Seq<char>)
    ensures
        (ascii_lowercase(e) == seq!['v', 'g', 'm'] || ascii_lowercase(e) == seq!['v', 'g', 'z'])
            == reads_vgm_or_vgz(e),
        reads_vgm_or_vgz(e) ==> ascii_lowercase(e) != seq!['w', 'a', 'v'],
{
    let l = ascii_lowercase(e);
    assert(l.len() == e.len());
    if e.len() == 3 {
        lemma_lower_letter(e[0], 'v', 'V');
        lemma_lower_letter(e[0], 'w', 'W');
        lemma_lower_letter(e[1], 'g', 'G');
        lemma_lower_letter(e[2], 'm', 'M');
        lemma_lower_letter(e[2], 'z', 'Z');
        assert(l[0] == ascii_lower_char(e[0]));
        assert(l[1] == ascii_lower_char(e[1]));
        assert(l[2] == ascii_lower_char(e[2]));
        if reads_vgm_or_vgz(e) {
            if e[2] == 'm' || e[2] == 'M' {
                assert(l =~= seq!['v', 'g', 'm']);
            } else {
                assert(l =~= seq!['v', 'g', 'z']);
            }
            assert(l[0] != seq!['w', 'a', 'v'][0]);
        }
        if l == seq!['v', 'g', 'm'] {
            assert(l[0] == 'v' && l[1] == 'g' && l[2] == 'm');
        }
        if l == seq!['v', 'g', 'z'] {
            assert(l[0] == 'v' && l[1] == 'g' && l[2] == 'z');
        }
    } else {
        assert(l.len() != seq!['v', 'g', 'm'].len());
        assert(l.len() != seq!['v', 'g', 'z'].len());
    }
}

proof fn lemma_lower_letter(c: char, lower: char, upper: char)
    requires
        lower as u32 == upper as u32 + 32,
        65 <= upper as u32 <= 90,
    ensures
        (ascii_lower_char(c) == lower) == (c == lower || c == upper),
{
    let u = c as u32;
    if 65 <= u <= 90 {
        assert((((u + 32) as char) as u32) == u + 32);
    }
}

proof fn lemma_lowercase_wav(e: Seq<char>)
    ensures
        (ascii_lowercase(e) == seq!['w', 'a', 'v']) == reads_wav(e),
{
    let l = ascii_lowercase(e);
    assert(l.len() == e.len());
    if e.len() == 3 {
        lemma_lower_letter(e[0], 'w', 'W');
        lemma_lower_letter(e[1], 'a', 'A');
        lemma_lower_letter(e[2], 'v', 'V');
        assert(l[0] == ascii_lower_char(e[0]));
        assert(l[1] == ascii_lower_char(e[1]));
        assert(l[2] == ascii_lower_char(e[2]));
        if reads_wav(e) {
            assert(l =~= seq!['w', 'a', 'v']);
        }
        if l == seq!['w', 'a', 'v'] {
            assert(l[0] == 'w' && l[1] == 'a' && l[2] == 'v');
        }
    } else {
        assert(l.len() != seq!['w', 'a', 'v'].len());
    }
}

/// A file named on the command line (not piped data) is accepted exactly when
/// its extension reads `wav` in any mix of upper and lower case; any other
/// extension, and a name without one, is refused as unsupported, whatever
/// the file is called.
pub proof fn lemma_file_extension(extension: Option<Seq<char>>, file_name: Option<Seq<char>>)
    ensures
        input_name_verdict(false, extension, file_name) is None <==> (extension matches Some(e)
            && reads_wav(e)),
        input_name_verdict(false, extension, file_name) is None || input_name_verdict(
            false,
            extension,
            file_name,
        ) matches Some(InputError::UnsupportedExtension),
{
    match extension {
        Some(e) => lemma_lowercase_wav(e),
        None => {
            assert(Seq::<char>::empty().len() != seq!['w', 'a', 'v'].len());
        },
    }
}

/// Piped data is accepted under the placeholder name with a `wav` extension,
/// and under any name with a `vgm` or `vgz` extension, in any case; a `wav`
/// extension under another name means a file was named as well, and any
/// other extension, or none, is refused.
pub proof fn lemma_pipe_extension(extension: Option<Seq<char>>, file_name: Option<Seq<char>>)
    ensures
        (extension matches Some(e) && reads_wav(e)) ==> input_name_verdict(
            true,
            extension,
            file_name,
        ) == if file_name == Some(pipe_dummy_name()) {
            None
        } else {
            Some(InputError::AmbiguousInput)
        },
        (extension matches Some(e) && reads_vgm_or_vgz(e)) ==> input_name_verdict(
            true,
            extension,
            file_name,
        ) is None,
        (extension matches Some(e) && !reads_wav(e) && !reads_vgm_or_vgz(e)) ==> input_name_verdict(
            true,
            extension,
            file_name,
        ) matches Some(InputError::UnsupportedPipeExtension),
        extension is None ==> input_name_verdict(true, extension, file_name) matches Some(
            InputError::UnsupportedPipeExtension,
        ),
{
    match extension {
        Some(e) => {
            lemma_lowercase_wav(e);
            lemma_lowercase_vgm_vgz(e);
        },
        None => {
            assert(Seq::<char>::empty().len() != seq!['w', 'a', 'v'].len());
            assert(Seq::<char>::empty().len() != seq!['v', 'g', 'm'].len());
            assert(Seq::<char>::empty().len() != seq!['v', 'g', 'z'].len());
        },
    }
}

/// Checks the name of the input: `extension` and `file_name` are those of the
/// input path (`None` where it has none or they are not valid Unicode).
pub fn check_input_name(is_pipe: bool, extension: Option<&str>, file_name: Option<&str>) -> (r:
    Result<(), InputError>)
    ensures
        match r {
            Ok(()) => input_name_verdict(is_pipe, extension.deep_view(), file_name.deep_view())
                is None,
            Err(e) => input_name_verdict(is_pipe, extension.deep_view(), file_name.deep_view())
                == Some(e),
        },
{
    let wav: [char; 3] = ['w', 'a', 'v'];
    let vgm: [char; 3] = ['v', 'g', 'm'];
    let vgz: [char; 3] = ['v', 'g', 'z'];
    assert(wav@ =~= seq!['w', 'a', 'v']);
    assert(vgm@ =~= seq!['v', 'g', 'm']);
    assert(vgz@ =~= seq!['v', 'g', 'z']);
    let (is_wav, is_vgm, is_vgz) = match extension {
        Some(e) => {
            let w = lowercase_equals(e, wav.as_slice());
            let m = lowercase_equals(e, vgm.as_slice());
            let z = lowercase_equals(e, vgz.as_slice());
            assert(extension.deep_view() == Some(e@));
            assert(w == (ascii_lowercase(e@) == seq!['w', 'a', 'v']));
            (w, m, z)
        },
        None => {
            assert(Seq::<char>::empty().len() != seq!['w', 'a', 'v'].len());
            (false, false, false)
        },
    };
    proof {
        let ext = lower_extension(extension.deep_view());
        assert(is_wav == (ext == seq!['w', 'a', 'v']));
        assert(is_vgm == (ext == seq!['v', 'g', 'm']));
        assert(is_vgz == (ext == seq!['v', 'g', 'z']));
    }
    if is_pipe {
        if !(is_wav || is_vgm || is_vgz) {
            return Err(InputError::UnsupportedPipeExtension);
        }
        let dummy: [char; 14] = ['P', 'i', 'p', 'e', '_', 's', 'o', 'u', 'n', 'd', '.', 'w', 'a', 'v'];
        assert(dummy@ =~= pipe_dummy_name());
        let named_dummy = match file_name {
            Some(f) => text_equals(f, dummy.as_slice()),
            None => false,
        };
        assert(named_dummy == (file_name.deep_view() == Some(pipe_dummy_name())));
        if is_wav && !named_dummy {
            return Err(InputError::AmbiguousInput);
        }
        Ok(())
    } else if !is_wav {
        Err(InputError::UnsupportedExtension)
    } else {
        Ok(())
    }
}

/// The data starts with `RIFF`, and `WAVE` follows at offset 8.
pub open spec fn has_wav_signature(b: Seq<u8>) -> bool {
    &&& b.len() >= 12
    &&& b[0] == 0x52 && b[1] == 0x49 && b[2] == 0x46 && b[3] == 0x46
    &&& b[8] == 0x57 && b[9] == 0x41 && b[10] == 0x56 && b[11] == 0x45
}

/// The sample rates the filters are tuned for.
pub open spec fn supported_rate(rate: u32) -> bool {
    rate == 22050 || rate == 32000 || rate == 44100 || rate == 48000 || rate == 88200 || rate
        == 96000
}

/// The first thing wrong with a header `(channels, sample rate, bits per
/// sample, float)`, in the order checked: sample size, channel count,
/// sample rate, integer bit depth.
pub open spec fn header_problem(h: (u16, u32, u16, bool)) -> Option<InputError> {
    let (channels, rate, bits, is_float) = h;
    if !(bits == 8 || bits == 16 || bits == 24 || bits == 32) {
        Some(InputError::UnsupportedBitsPerSample)
    } else if channels != 2 {
        Some(InputError::NotStereo)
    } else if !supported_rate(rate) {
        Some(InputError::UnsupportedSampleRate)
    } else if !is_float && bits == 8 {
        Some(InputError::UnsupportedIntegerDepth)
    } else {
        None
    }
}

/// A header is accepted exactly when it is stereo, at 22.05, 32, 44.1, 48,
/// 88.2 or 96 kHz, with 16, 24 or 32 bit samples, or 8 bit float samples.
/// Otherwise the first failed check is reported: the sample size, then the
/// channel count, then the sample rate.
pub proof fn lemma_accepted_headers(channels: u16, rate: u32, bits: u16, is_float: bool)
    ensures
        header_problem((channels, rate, bits, is_float)) is None <==> ({
            &&& channels == 2
            &&& rate == 22050 || rate == 32000 || rate == 44100 || rate == 48000 || rate == 88200
                || rate == 96000
            &&& bits == 16 || bits == 24 || bits == 32 || (is_float && bits == 8)
        }),
        !(bits == 8 || bits == 16 || bits == 24 || bits == 32) ==> header_problem(
            (channels, rate, bits, is_float),
        ) matches Some(InputError::UnsupportedBitsPerSample),
        (bits == 8 || bits == 16 || bits == 24 || bits == 32) && channels != 2 ==> header_problem(
            (channels, rate, bits, is_float),
        ) matches Some(InputError::NotStereo),
        (bits == 8 || bits == 16 || bits == 24 || bits == 32) && channels == 2 && !(rate == 22050
            || rate == 32000 || rate == 44100 || rate == 48000 || rate == 88200 || rate == 96000)
            ==> header_problem((channels, rate, bits, is_float)) matches Some(
            InputError::UnsupportedSampleRate,
        ),
        channels == 2 && supported_rate(rate) && bits == 8 && !is_float ==> header_problem(
            (channels, rate, bits, is_float),
        ) matches Some(InputError::UnsupportedIntegerDepth),
{
}

/// `d` describes a file with header `h`.
pub open spec fn describes(d: DecodedWav, h: (u16, u32, u16, bool)) -> bool {
    &&& d.channels == h.0
    &&& d.sample_rate == h.1
    &&& d.bits_per_sample == h.2
    &&& d.is_float == h.3
    &&& d.sampwidth == h.2 / 8
}

/// The data is an accepted integer WAV input whose samples are `samples`.
pub open spec fn accepted_int_input(b: Seq<u8>, samples: Seq<i32>) -> bool {
    &&& has_wav_signature(b)
    &&& hound_header(b) matches Some(h)
    &&& header_problem(h) is None
    &&& !h.3
    &&& hound_int_samples(b) == Some(samples)
}

/// Whether the data starts with a RIFF/WAVE signature.
pub fn check_wav_signature(bytes: &[u8]) -> (r: bool)
    ensures
        r == has_wav_signature(bytes@),
{
    bytes.len() >= 12 && bytes[0] == 0x52 && bytes[1] == 0x49 && bytes[2] == 0x46 && bytes[3]
        == 0x46 && bytes[8] == 0x57 && bytes[9] == 0x41 && bytes[10] == 0x56 && bytes[11] == 0x45
}

/// The first thing wrong with a WAV header `(channels, sample rate, bits per
/// sample, float)`, if any.
pub fn check_header(h: (u16, u32, u16, bool)) -> (r: Option<InputError>)
    ensures
        r == header_problem(h),
{
    let (channels, sample_rate, bits_per_sample, is_float) = h;
    if !(bits_per_sample == 8 || bits_per_sample == 16 || bits_per_sample == 24
        || bits_per_sample == 32) {
        Some(InputError::UnsupportedBitsPerSample)
    } else if channels != 2 {
        Some(InputError::NotStereo)
    } else if !(sample_rate == 22050 || sample_rate == 32000 || sample_rate == 44100
        || sample_rate == 48000 || sample_rate == 88200 || sample_rate == 96000) {
        Some(InputError::UnsupportedSampleRate)
    } else if !is_float && bits_per_sample == 8 {
        Some(InputError::UnsupportedIntegerDepth)
    } else {
        None
    }
}

/// Decodes WAV data and checks that the filters can work on it: stereo, a
/// supported sample rate, 16, 24 or 32 bit integer or float samples.
/// Integer samples are decoded; float samples are left to the caller.
pub fn decode_wav_input(bytes: &[u8]) -> (r: Result<DecodedWav, InputError>)
    ensures
        !has_wav_signature(bytes@) ==> r matches Err(InputError::InvalidSignature),
        has_wav_signature(bytes@) && hound_header(bytes@) is None ==> r matches Err(
            InputError::OpenFailed(_),
        ),
        has_wav_signature(bytes@) && hound_header(bytes@) is Some ==> ({
            let h = hound_header(bytes@)->0;
            match header_problem(h) {
                Some(p) => r matches Err(e) && e == p,
                None => if h.3 {
                    r matches Ok(d) && describes(d, h) && d.samples is Float
                } else {
                    match hound_int_samples(bytes@) {
                        None => r matches Err(InputError::SampleRead(_)),
                        Some(v) => r matches Ok(d) && describes(d, h) && (d.samples matches WavSamples::Int(w) && w@ == v),
                    }
                },
            }
        }),
        forall|s: Seq<i32>| #[trigger] accepted_int_input(bytes@, s) ==> (r matches Ok(d) && (
        d.samples matches WavSamples::Int(w) && w@ == s)),
        r matches Ok(d) ==> {
            &&& d.channels == 2
            &&& supported_rate(d.sample_rate)
            &&& d.sampwidth * 8 == d.bits_per_sample
            &&& !d.is_float ==> (d.bits_per_sample == 16 || d.bits_per_sample == 24
                || d.bits_per_sample == 32)
            &&& d.is_float == d.samples is Float
        },
{
    if !check_wav_signature(bytes) {
        return Err(InputError::InvalidSignature);
    }
    let (channels, sample_rate, bits_per_sample, is_float) = match read_wav_header(bytes) {
        Ok(h) => h,
        Err(e) => return Err(InputError::OpenFailed(e)),
    };
    if let Some(problem) = check_header((channels, sample_rate, bits_per_sample, is_float)) {
        return Err(problem);
    }
    let samples = if is_float {
        WavSamples::Float
    } else {
        match read_int_samples(bytes) {
            Ok(v) => WavSamples::Int(v),
            Err(e) => return Err(InputError::SampleRead(e)),
        }
    };
    Ok(
        DecodedWav {
            channels,
            sample_rate,
            bits_per_sample,
            is_float,
            sampwidth: bits_per_sample / 8,
            samples,
        },
    )
}

} // verus!
