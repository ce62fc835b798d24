use retro_wav::startup::{startup_args, strip_quotes, StartupOutcome};

fn args(v: &[&str]) -> Vec<String> {
    v.iter().map(|s| s.to_string()).collect()
}

fn run(v: &[&str], stdin: Option<Vec<u8>>, stdout_is_terminal: bool) -> StartupOutcome {
    startup_args(&args(v), stdin, stdout_is_terminal)
}

#[test]
fn file_argument_defaults_to_mode_one() {
    match run(&["song.wav"], None, true) {
        StartupOutcome::Run(s) => {
            assert_eq!(s.arg_input_path.as_deref(), Some("song.wav"));
            assert_eq!(s.cl_mode.as_deref(), Some("1"));
            assert!(s.piped_data.is_none());
            assert!(!s.is_output_pipe);
        }
        _ => panic!("expected a run"),
    }
}

#[test]
fn no_arguments_leave_everything_open() {
    match run(&[], None, true) {
        StartupOutcome::Run(s) => {
            assert!(s.arg_input_path.is_none());
            assert!(s.cl_mode.is_none());
            assert!(s.piped_data.is_none());
        }
        _ => panic!("expected a run"),
    }
}

#[test]
fn mode_options_last_one_wins() {
    match run(&["-1", "-2"], None, true) {
        StartupOutcome::Run(s) => assert_eq!(s.cl_mode.as_deref(), Some("2")),
        _ => panic!("expected a run"),
    }
    match run(&[" -2 ", "'-1'", "a.wav"], None, true) {
        StartupOutcome::Run(s) => {
            assert_eq!(s.cl_mode.as_deref(), Some("1"));
            assert_eq!(s.arg_input_path.as_deref(), Some("a.wav"));
        }
        _ => panic!("expected a run"),
    }
}

#[test]
fn quotes_are_stripped_from_paths() {
    match run(&["\"my song.wav\""], None, true) {
        StartupOutcome::Run(s) => assert_eq!(s.arg_input_path.as_deref(), Some("my song.wav")),
        _ => panic!("expected a run"),
    }
    assert_eq!(strip_quotes("'x'"), "x");
    assert_eq!(strip_quotes("'x\""), "'x\"");
    assert_eq!(strip_quotes("'"), "'");
    assert_eq!(strip_quotes("''"), "");
}

#[test]
fn paths_keep_inner_spaces_untrimmed() {
    match run(&[" a.wav "], None, true) {
        StartupOutcome::Run(s) => assert_eq!(s.arg_input_path.as_deref(), Some(" a.wav ")),
        _ => panic!("expected a run"),
    }
}

#[test]
fn second_file_argument_is_refused() {
    match run(&["a.wav", "-", "'b.wav'", "c.wav"], None, false) {
        StartupOutcome::InvalidArgument(a) => assert_eq!(a, "b.wav"),
        _ => panic!("expected a refusal"),
    }
}

#[test]
fn pipe_output_needs_a_pipe() {
    assert!(matches!(run(&["-", "a.wav"], None, true), StartupOutcome::PipeNotConnected));
    match run(&["-", "a.wav"], None, false) {
        StartupOutcome::Run(s) => assert!(s.is_output_pipe),
        _ => panic!("expected a run"),
    }
}

#[test]
fn piped_data_sets_mode_one() {
    match run(&[], Some(vec![1, 2, 3]), true) {
        StartupOutcome::Run(s) => {
            assert_eq!(s.piped_data, Some(vec![1, 2, 3]));
            assert_eq!(s.cl_mode.as_deref(), Some("1"));
        }
        _ => panic!("expected a run"),
    }
}

#[test]
fn empty_piped_data_is_dropped() {
    match run(&[], Some(vec![]), true) {
        StartupOutcome::Run(s) => {
            assert!(s.piped_data.is_none());
            assert!(s.cl_mode.is_none());
        }
        _ => panic!("expected a run"),
    }
}
