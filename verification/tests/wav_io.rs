use retro_wav::wav_input::{
    check_header, check_input_name, input_given, check_wav_signature, decode_wav_input, resolve_input_path, InputError,
    WavSamples,
};
use retro_wav::wav_output::{
    encode_int_wav, int_full_scale, output_spec, overwrite_declined, processed_file_name,
    OutputSpec,
};

fn stereo16(rate: u32) -> OutputSpec {
    output_spec(2, rate, 2, false)
}

/// A canonical PCM WAV file built by hand.
fn pcm_file(format_tag: u16, channels: u16, rate: u32, bits: u16, data: &[u8]) -> Vec<u8> {
    let block = channels * ((bits + 7) / 8);
    let mut b = Vec::new();
    b.extend_from_slice(b"RIFF");
    b.extend_from_slice(&(36 + data.len() as u32).to_le_bytes());
    b.extend_from_slice(b"WAVEfmt ");
    b.extend_from_slice(&16u32.to_le_bytes());
    b.extend_from_slice(&format_tag.to_le_bytes());
    b.extend_from_slice(&channels.to_le_bytes());
    b.extend_from_slice(&rate.to_le_bytes());
    b.extend_from_slice(&(rate * block as u32).to_le_bytes());
    b.extend_from_slice(&block.to_le_bytes());
    b.extend_from_slice(&bits.to_le_bytes());
    b.extend_from_slice(b"data");
    b.extend_from_slice(&(data.len() as u32).to_le_bytes());
    b.extend_from_slice(data);
    b
}

#[test]
fn input_names() {
    assert!(check_input_name(false, Some("WAV"), Some("a.WAV")).is_ok());
    assert!(matches!(
        check_input_name(false, Some("mp3"), Some("a.mp3")),
        Err(InputError::UnsupportedExtension)
    ));
    assert!(matches!(check_input_name(false, None, Some("a")), Err(InputError::UnsupportedExtension)));
    assert!(check_input_name(true, Some("wav"), Some("Pipe_sound.wav")).is_ok());
    assert!(check_input_name(true, Some("vgz"), Some("tune.vgz")).is_ok());
    assert!(check_input_name(true, Some("VGM"), Some("tune.VGM")).is_ok());
    assert!(matches!(
        check_input_name(true, Some("wav"), Some("song.wav")),
        Err(InputError::AmbiguousInput)
    ));
    assert!(matches!(
        check_input_name(true, Some("flac"), Some("song.flac")),
        Err(InputError::UnsupportedPipeExtension)
    ));
}

#[test]
fn input_path_precedence() {
    assert_eq!(resolve_input_path(Some("x.wav".to_string()), true).as_deref(), Some("x.wav"));
    assert_eq!(resolve_input_path(None, true).as_deref(), Some("Pipe_sound.wav"));
    assert_eq!(resolve_input_path(None, false), None);
}

#[test]
fn signature() {
    let good = pcm_file(1, 2, 44100, 16, &[0, 0, 0, 0]);
    assert!(check_wav_signature(&good));
    assert!(!check_wav_signature(b"RIFF\0\0\0\0WAV"));
    assert!(!check_wav_signature(b"RIFX\0\0\0\0WAVEfmt "));
    assert!(matches!(decode_wav_input(b"short"), Err(InputError::InvalidSignature)));
}

#[test]
fn written_output_reads_back() {
    let samples = vec![0, 1, -1, 32767, -32768, 1234];
    let bytes = encode_int_wav(stereo16(44100), &samples).ok().unwrap();
    match decode_wav_input(&bytes) {
        Ok(d) => {
            assert_eq!((d.channels, d.sample_rate, d.bits_per_sample, d.sampwidth), (2, 44100, 16, 2));
            assert!(!d.is_float);
            match d.samples {
                WavSamples::Int(v) => assert_eq!(v, samples),
                WavSamples::Float => panic!("integer samples expected"),
            }
        }
        Err(_) => panic!("written file not accepted"),
    }
}

#[test]
fn written_24_bit_output_reads_back() {
    let samples = vec![8388607, -8388608, 5, -5];
    let spec = output_spec(2, 96000, 3, true);
    assert!(!spec.is_float);
    let bytes = encode_int_wav(spec, &samples).ok().unwrap();
    let d = decode_wav_input(&bytes).ok().unwrap();
    assert_eq!(d.sampwidth, 3);
    assert!(matches!(d.samples, WavSamples::Int(ref v) if *v == samples));
}

#[test]
fn encoding_refuses_too_wide_samples() {
    assert!(encode_int_wav(stereo16(48000), &[40000, 0]).is_err());
}

#[test]
fn encoding_refuses_unfinished_frames() {
    assert!(encode_int_wav(stereo16(48000), &[1, 2, 3]).is_err());
}

#[test]
fn mono_is_refused() {
    let bytes = encode_int_wav(output_spec(1, 44100, 2, false), &[1, 2]).ok().unwrap();
    assert!(matches!(decode_wav_input(&bytes), Err(InputError::NotStereo)));
}

#[test]
fn unsupported_rate_is_refused() {
    let bytes = encode_int_wav(stereo16(8000), &[1, 2]).ok().unwrap();
    assert!(matches!(decode_wav_input(&bytes), Err(InputError::UnsupportedSampleRate)));
}

#[test]
fn eight_bit_integer_is_refused() {
    let bytes = pcm_file(1, 2, 44100, 8, &[128, 128]);
    assert!(matches!(decode_wav_input(&bytes), Err(InputError::UnsupportedIntegerDepth)));
}

#[test]
fn odd_bit_depth_is_refused() {
    // WAVE_FORMAT_EXTENSIBLE with 20 valid bits in 24-bit containers.
    let mut b = Vec::new();
    b.extend_from_slice(b"RIFF");
    b.extend_from_slice(&(60u32 + 6).to_le_bytes());
    b.extend_from_slice(b"WAVEfmt ");
    b.extend_from_slice(&40u32.to_le_bytes());
    b.extend_from_slice(&0xfffeu16.to_le_bytes());
    b.extend_from_slice(&2u16.to_le_bytes());
    b.extend_from_slice(&44100u32.to_le_bytes());
    b.extend_from_slice(&(44100u32 * 6).to_le_bytes());
    b.extend_from_slice(&6u16.to_le_bytes());
    b.extend_from_slice(&24u16.to_le_bytes());
    b.extend_from_slice(&22u16.to_le_bytes());
    b.extend_from_slice(&20u16.to_le_bytes());
    b.extend_from_slice(&3u32.to_le_bytes());
    b.extend_from_slice(&[
        0x01, 0x00, 0x00, 0x00, 0x00, 0x00, 0x10, 0x00, 0x80, 0x00, 0x00, 0xaa, 0x00, 0x38, 0x9b,
        0x71,
    ]);
    b.extend_from_slice(b"data");
    b.extend_from_slice(&6u32.to_le_bytes());
    b.extend_from_slice(&[0, 0, 0, 0, 0, 0]);
    assert!(matches!(decode_wav_input(&b), Err(InputError::UnsupportedBitsPerSample)));
}

#[test]
fn garbage_after_signature_is_refused_by_the_decoder() {
    let b = b"RIFF\x04\0\0\0WAVEjunkjunk".to_vec();
    assert!(matches!(decode_wav_input(&b), Err(InputError::OpenFailed(_))));
}

#[test]
fn truncated_samples_fail_to_read() {
    let mut b = pcm_file(1, 2, 44100, 16, &[1, 0, 2, 0, 3, 0, 4, 0]);
    b.truncate(b.len() - 3);
    assert!(matches!(decode_wav_input(&b), Err(InputError::SampleRead(_))));
}

#[test]
fn float_input_is_left_to_the_caller() {
    let b = pcm_file(3, 2, 48000, 32, &[0u8; 8]);
    let d = decode_wav_input(&b).ok().unwrap();
    assert!(d.is_float);
    assert_eq!(d.sampwidth, 4);
    assert!(matches!(d.samples, WavSamples::Float));
}

#[test]
fn output_format_rules() {
    let s = output_spec(2, 48000, 4, true);
    assert_eq!((s.bits_per_sample, s.is_float), (32, true));
    let s = output_spec(2, 48000, 4, false);
    assert_eq!((s.bits_per_sample, s.is_float), (32, false));
    let s = output_spec(2, 48000, 1, true);
    assert_eq!((s.bits_per_sample, s.is_float), (16, false));
    assert_eq!(output_spec(2, 96000, 3, false).bits_per_sample, 24);
    assert_eq!(int_full_scale(16), 32767);
    assert_eq!(int_full_scale(24), 8388607);
    assert_eq!(int_full_scale(32), 2147483647);
    assert_eq!(int_full_scale(8), 32767);
}

#[test]
fn output_names_and_overwrite_answers() {
    assert_eq!(processed_file_name(Some("take1")), "take1_Processed.wav");
    assert_eq!(processed_file_name(None), "output_Processed.wav");
    assert!(overwrite_declined("n\n"));
    assert!(overwrite_declined(" N "));
    assert!(!overwrite_declined(""));
    assert!(!overwrite_declined("no"));
    assert!(!overwrite_declined("y"));
}

#[test]
fn header_rules_in_order() {
    assert!(check_header((2, 44100, 16, false)).is_none());
    assert!(check_header((2, 96000, 32, true)).is_none());
    assert!(matches!(check_header((1, 8000, 12, false)), Some(InputError::UnsupportedBitsPerSample)));
    assert!(matches!(check_header((1, 8000, 16, false)), Some(InputError::NotStereo)));
    assert!(matches!(check_header((2, 8000, 16, false)), Some(InputError::UnsupportedSampleRate)));
    assert!(matches!(check_header((2, 22050, 8, false)), Some(InputError::UnsupportedIntegerDepth)));
    assert!(check_header((2, 88200, 8, true)).is_none());
}

#[test]
fn input_given_by_name_or_pipe() {
    assert!(input_given(&Some("a.wav".to_string()), false));
    assert!(input_given(&None, true));
    assert!(!input_given(&None, false));
}
