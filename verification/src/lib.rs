//! Decision logic of a retro sound filter for stereo WAV audio: command-line
//! and pipe start-up handling, the interactive selection dialogue, input
//! validation and WAV decoding, filter presets, output format selection and
//! WAV encoding, and progress bookkeeping.
pub mod text;
pub mod progress;
pub mod startup;
pub mod usrsel;
pub mod wav_input;
pub mod wav_output;
pub mod filters;
pub mod pipeline;
