# retro_wav

A retro sound filter for stereo WAV audio: it oversamples the input and runs
it through a playback character filter, a cassette tape stage, record noise,
an analog stage and a speaker model, then writes a normalised WAV file (or a
WAV stream to standard output).

- `src/` is the library, written in Verus: start-up argument handling, the
  selection dialogue as a state machine, input name and format checks, WAV
  decoding and encoding of integer samples (through `hound`), output format
  and file naming rules, filter presets and progress bookkeeping, each with
  its contract, and the laws of the dialogue and the argument rules as proof
  functions.
- `app/` is the command-line program: terminal and file I/O, the file dialog,
  and the filter stages themselves, which work on floating-point samples.
- `tests/` exercises the library on concrete inputs.
