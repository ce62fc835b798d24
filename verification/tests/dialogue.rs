use retro_wav::usrsel::{
    parse_menu_choice, parse_yes_no, Phase, UsrAction, UsrInput, UsrSession, YesNoQuestion,
};

/// Runs the dialogue, answering questions from `answers`; returns the actions
/// seen and the settings.
fn drive(mut s: UsrSession, answers: &[&str]) -> (Vec<UsrAction>, UsrInput) {
    let mut seen = Vec::new();
    let mut next = answers.iter();
    for _ in 0..200 {
        let a = s.next_action();
        seen.push(a);
        match a {
            UsrAction::Done => return (seen, s.finish()),
            UsrAction::AskModeChoice
            | UsrAction::AskPlaybackChoice
            | UsrAction::AskYesNo { .. }
            | UsrAction::AskFormatChoice
            | UsrAction::AskClipAnswer => {
                let line = next.next().expect("dialogue asked more than scripted");
                s.give_answer(line);
            }
            _ => {}
        }
    }
    panic!("dialogue did not finish");
}

fn is_question(a: &UsrAction) -> bool {
    matches!(
        a,
        UsrAction::AskModeChoice
            | UsrAction::AskPlaybackChoice
            | UsrAction::AskYesNo { .. }
            | UsrAction::AskFormatChoice
            | UsrAction::AskClipAnswer
    )
}

#[test]
fn menu_answers() {
    assert_eq!(parse_menu_choice("\n", 3), Some(1));
    assert_eq!(parse_menu_choice(" 2 \n", 3), Some(2));
    assert_eq!(parse_menu_choice("3", 3), Some(3));
    assert_eq!(parse_menu_choice("4", 3), None);
    assert_eq!(parse_menu_choice("5", 5), Some(5));
    assert_eq!(parse_menu_choice("0", 5), None);
    assert_eq!(parse_menu_choice("12", 5), None);
}

#[test]
fn yes_no_answers() {
    assert_eq!(parse_yes_no("\n", true), Some(true));
    assert_eq!(parse_yes_no("", false), Some(false));
    assert_eq!(parse_yes_no("Y", false), Some(true));
    assert_eq!(parse_yes_no(" 1 ", false), Some(true));
    assert_eq!(parse_yes_no("N\n", true), Some(false));
    assert_eq!(parse_yes_no("2", true), Some(false));
    assert_eq!(parse_yes_no("yes", true), None);
}

#[test]
fn unattended_mode_one_asks_nothing() {
    let s = UsrSession::new(true, Some("1".to_string()), 44100, 2, 2);
    let (seen, u) = drive(s, &[]);
    assert_eq!(seen.len(), 5);
    assert!(!seen.iter().any(is_question));
    assert!(u.do_playbackf && u.do_tapefilter && u.do_analogfilter && u.do_speakerfilter);
    assert!(!u.do_record_noise);
    assert_eq!(u.do_playback_sel_01, "1");
    assert_eq!((u.out_freq, u.out_bit), (44100, 2));
    assert!(u.clip_protect);
}

#[test]
fn unattended_mode_two_adds_record_noise() {
    let s = UsrSession::new(true, Some("2".to_string()), 96000, 3, 2);
    let (seen, u) = drive(s, &[]);
    assert!(!seen.iter().any(is_question));
    assert!(u.do_record_noise);
    assert_eq!((u.out_freq, u.out_bit), (96000, 3));
}

#[test]
fn interactive_standard_run() {
    let s = UsrSession::new(false, None, 48000, 2, 2);
    let (seen, u) = drive(s, &["", "2", "3", "", "y"]);
    assert!(matches!(seen[0], UsrAction::RoundStart { show_menu: true }));
    assert!(seen.contains(&UsrAction::ModeSelected { mode: 1, show: true }));
    assert_eq!(u.do_playback_sel_01, "2");
    assert_eq!((u.out_freq, u.out_bit), (48000, 2));
    assert!(u.clip_protect);
    assert!(!u.do_record_noise);
}

#[test]
fn unclear_answers_are_asked_again() {
    let s = UsrSession::new(false, None, 48000, 2, 2);
    let (seen, u) = drive(s, &["x", "9", "2", "7", "4", "zz", "2", "maybe", "n", "1"]);
    let asks = seen.iter().filter(|a| **a == UsrAction::AskModeChoice).count();
    assert_eq!(asks, 3);
    assert_eq!(u.do_playback_sel_01, "4");
    assert_eq!((u.out_freq, u.out_bit), (96000, 3));
    assert!(!u.clip_protect);
    assert!(u.do_record_noise);
}

#[test]
fn advanced_settings_follow_the_answers() {
    let s = UsrSession::new(false, None, 44100, 2, 2);
    let (seen, u) = drive(s, &["3", "y", "5", "n", "", "n", "n", "3", ""]);
    assert!(seen.contains(&UsrAction::AdvancedNote));
    assert!(seen.contains(&UsrAction::AskYesNo {
        question: YesNoQuestion::RecordNoise,
        default_yes: false
    }));
    assert!(u.do_playbackf);
    assert_eq!(u.do_playback_sel_01, "5");
    assert!(!u.do_tapefilter);
    assert!(!u.do_record_noise);
    assert!(!u.do_analogfilter);
    assert!(!u.do_speakerfilter);
    assert!(!u.clip_protect);
    assert!(!seen.contains(&UsrAction::ClipQuestion));
    assert_eq!((u.out_freq, u.out_bit), (48000, 2));
}

#[test]
fn declining_to_start_begins_again() {
    let s = UsrSession::new(false, None, 44100, 2, 2);
    let (seen, u) = drive(s, &["1", "1", "1", "y", "n", "2", "3", "1", "", ""]);
    assert!(seen.contains(&UsrAction::Restart));
    let rounds = seen.iter().filter(|a| matches!(a, UsrAction::RoundStart { .. })).count();
    assert_eq!(rounds, 2);
    assert_eq!(u.do_playback_sel_01, "3");
    assert!(u.do_record_noise);
}

#[test]
fn playback_preset_survives_an_advanced_round_without_it() {
    let s = UsrSession::new(false, None, 44100, 2, 2);
    let (_, u) = drive(
        s,
        &["1", "4", "1", "", "n", "3", "n", "", "", "", "", "1", "", ""],
    );
    assert!(!u.do_playbackf);
    assert_eq!(u.do_playback_sel_01, "4");
}

#[test]
fn answers_outside_questions_are_ignored() {
    let mut s = UsrSession::new(false, None, 44100, 2, 2);
    s.give_answer("3");
    assert!(s.phase == Phase::RoundStart);
}

#[test]
fn declined_round_leaves_no_trace() {
    let round = ["3", "n", "n", "y", "n", "n", "2", "n"];
    let rest = ["2", "", "", "", ""];
    let mut with_decline: Vec<&str> = round.to_vec();
    with_decline.extend_from_slice(&rest);
    let (seen_a, a) = drive(UsrSession::new(false, None, 44100, 2, 2), &with_decline);
    let (seen_b, b) = drive(UsrSession::new(false, None, 44100, 2, 2), &rest);
    assert!(seen_a.contains(&UsrAction::Restart));
    assert!(seen_a[seen_a.len() - seen_b.len()..] == seen_b[..]);
    assert_eq!(
        (a.do_playbackf, a.do_tapefilter, a.do_record_noise, a.do_analogfilter, a.do_speakerfilter),
        (b.do_playbackf, b.do_tapefilter, b.do_record_noise, b.do_analogfilter, b.do_speakerfilter)
    );
    assert_eq!((a.out_freq, a.out_bit, a.clip_protect), (b.out_freq, b.out_bit, b.clip_protect));
    assert_eq!(a.do_playback_sel_01, b.do_playback_sel_01);
}

#[test]
fn interactive_mode_one_keeps_its_filter_set() {
    let (_, u) = drive(UsrSession::new(false, None, 32000, 2, 2), &["1", "3", "2", "n", "y"]);
    assert!(u.do_playbackf && u.do_tapefilter && u.do_analogfilter && u.do_speakerfilter);
    assert!(!u.do_record_noise);
    assert!(!u.clip_protect);
    assert_eq!((u.out_freq, u.out_bit), (96000, 3));
}
