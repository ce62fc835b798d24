//! The selection dialogue: which filters run, with which playback character,
//! in which output format, and whether the speaker stage guards against
//! clipping. The dialogue is a state machine; the caller prints what each
//! action shows and feeds back each line the user types.
use vstd::prelude::*;
use crate::text::{trim_str, trimmed};

verus! {

/// The processing settings that the dialogue settles on.
pub struct UsrInput {
    pub do_playbackf: bool,
    pub do_tapefilter: bool,
    pub do_record_noise: bool,
    pub do_analogfilter: bool,
    pub do_speakerfilter: bool,
    /// The playback character preset, `"1"` to `"5"`.
    pub do_playback_sel_01: String,
    pub out_freq: u32,
    /// Output bytes per sample.
    pub out_bit: u16,
    pub clip_protect: bool,
}

/// The yes/no questions of the dialogue.
#[derive(Clone, Copy, PartialEq, Eq, Structural)]
pub enum YesNoQuestion {
    Playback,
    Tape,
    RecordNoise,
    Analog,
    Speaker,
    Start,
}

/// Where the dialogue stands.
#[derive(Clone, Copy, PartialEq, Eq, Structural)]
pub enum Phase {
    RoundStart,
    AskMode,
    ModeSelected,
    PlaybackMenu,
    AskPlayback,
    PlaybackSelected,
    AdvancedNote,
    AskYesNo(YesNoQuestion),
    YesNoSelected(YesNoQuestion, bool),
    FormatMenu,
    AskFormat,
    FormatSelected,
    ClipQuestion,
    AskClip,
    ClipSelected,
    ConfirmStart,
    Restart,
    Done,
}

/// What the caller does next. `Ask..` actions read one line of input and hand
/// it to [`UsrSession::give_answer`]; the others only show something.
#[derive(Clone, Copy, PartialEq, Eq, Structural)]
pub enum UsrAction {
    /// A new round: the cursor is shown, and the mode menu when `show_menu`.
    RoundStart { show_menu: bool },
    AskModeChoice,
    /// The mode, echoed when `show`.
    ModeSelected { mode: u8, show: bool },
    PlaybackMenu,
    AskPlaybackChoice,
    PlaybackSelected { choice: u8 },
    AdvancedNote,
    AskYesNo { question: YesNoQuestion, default_yes: bool },
    YesNoSelected { answer: bool },
    /// The output format menu, shown when `show`.
    FormatMenu { show: bool, framerate: u32, sampwidth: u16 },
    AskFormatChoice,
    FormatSelected { active: bool, out_freq: u32, out_bit: u16, n_channels: u16 },
    ClipQuestion,
    AskClipAnswer,
    ClipSelected { answer: bool },
    /// The user declined to start; the dialogue begins again.
    Restart,
    /// The settings are complete: see [`UsrSession::finish`].
    Done,
}

/// The state of the selection dialogue.
#[derive(Clone, Copy)]
pub struct UsrSession {
    pub phase: Phase,
    /// Input came from the command line or a pipe: no questions are asked
    /// where the mode is known.
    pub arg_in_active: bool,
    /// The mode given on the command line, 1 to 3.
    pub arg_mode: Option<u8>,
    pub framerate: u32,
    pub sampwidth: u16,
    pub n_channels: u16,
    /// The chosen mode: 1 standard, 2 all filters, 3 advanced.
    pub mode: u8,
    pub do_playbackf: bool,
    pub do_tapefilter: bool,
    pub do_record_noise: bool,
    pub do_analogfilter: bool,
    pub do_speakerfilter: bool,
    /// The playback character preset, 1 to 5.
    pub playback_sel: u8,
    pub out_freq: u32,
    pub out_bit: u16,
    pub clip_protect: bool,
}

/// A numbered menu answer with `count` entries: an empty line picks entry 1,
/// a single digit from 1 to `count` picks that entry, anything else is
/// asked again.
pub open spec fn menu_choice(line: Seq<char>, count: u8) -> Option<u8> {
    let t = trimmed(line);
    if t.len() == 0 {
        Some(1u8)
    } else if t.len() == 1 {
        match digit_value(t[0]) {
            Some(d) => if d <= count {
                Some(d)
            } else {
                None
            },
            None => None,
        }
    } else {
        None
    }
}

/// The value of a digit from `1` to `9`.
pub open spec fn digit_value(c: char) -> Option<u8> {
    if c == '1' {
        Some(1u8)
    } else if c == '2' {
        Some(2u8)
    } else if c == '3' {
        Some(3u8)
    } else if c == '4' {
        Some(4u8)
    } else if c == '5' {
        Some(5u8)
    } else if c == '6' {
        Some(6u8)
    } else if c == '7' {
        Some(7u8)
    } else if c == '8' {
        Some(8u8)
    } else if c == '9' {
        Some(9u8)
    } else {
        None
    }
}

/// A yes/no answer: an empty line takes the default, `y`, `Y` or `1` is yes,
/// `n`, `N` or `2` is no, anything else is asked again.
pub open spec fn yes_no_choice(line: Seq<char>, default_yes: bool) -> Option<bool> {
    let t = trimmed(line);
    if t.len() == 0 {
        Some(default_yes)
    } else if t == seq!['y'] || t == seq!['Y'] || t == seq!['1'] {
        Some(true)
    } else if t == seq!['n'] || t == seq!['N'] || t == seq!['2'] {
        Some(false)
    } else {
        None
    }
}

/// The default answer of each yes/no question: only record noise defaults
/// to no.
pub open spec fn default_answer(q: YesNoQuestion) -> bool {
    q != YesNoQuestion::RecordNoise
}

/// Output sample rate and bytes per sample of a format choice: 1 keeps the
/// input's, 2 is 96 kHz / 24 bit, any other is 48 kHz / 16 bit.
pub open spec fn output_format(choice: u8, framerate: u32, sampwidth: u16) -> (u32, u16) {
    if choice == 1 {
        (framerate, sampwidth)
    } else if choice == 2 {
        (96000u32, 3u16)
    } else {
        (48000u32, 2u16)
    }
}

/// The filter set of mode 1 (standard: no record noise) or 2 (all filters).
pub open spec fn with_preset(s: UsrSession) -> UsrSession {
    UsrSession {
        do_playbackf: true,
        do_tapefilter: true,
        do_record_noise: s.mode == 2,
        do_analogfilter: true,
        do_speakerfilter: true,
        ..s
    }
}

/// `s` with the output format of `choice`.
pub open spec fn with_format(s: UsrSession, choice: u8) -> UsrSession {
    UsrSession {
        out_freq: output_format(choice, s.framerate, s.sampwidth).0,
        out_bit: output_format(choice, s.framerate, s.sampwidth).1,
        ..s
    }
}

/// `s` with the answer `b` to question `q` recorded.
pub open spec fn with_answer(s: UsrSession, q: YesNoQuestion, b: bool) -> UsrSession {
    match q {
        YesNoQuestion::Playback => UsrSession { do_playbackf: b, ..s },
        YesNoQuestion::Tape => UsrSession { do_tapefilter: b, ..s },
        YesNoQuestion::RecordNoise => UsrSession { do_record_noise: b, ..s },
        YesNoQuestion::Analog => UsrSession { do_analogfilter: b, ..s },
        YesNoQuestion::Speaker => UsrSession { do_speakerfilter: b, ..s },
        YesNoQuestion::Start => s,
    }
}

/// The phase after yes/no question `q` was answered `b`.
pub open spec fn after_answer(q: YesNoQuestion, b: bool) -> Phase {
    match q {
        YesNoQuestion::Playback => if b {
            Phase::PlaybackMenu
        } else {
            Phase::AskYesNo(YesNoQuestion::Tape)
        },
        YesNoQuestion::Tape => Phase::AskYesNo(YesNoQuestion::RecordNoise),
        YesNoQuestion::RecordNoise => Phase::AskYesNo(YesNoQuestion::Analog),
        YesNoQuestion::Analog => Phase::AskYesNo(YesNoQuestion::Speaker),
        YesNoQuestion::Speaker => Phase::FormatMenu,
        YesNoQuestion::Start => if b {
            Phase::Done
        } else {
            Phase::Restart
        },
    }
}

/// One step of the dialogue that needs no input: the next state and the
/// action the caller performs.
pub open spec fn advance(s: UsrSession) -> (UsrSession, UsrAction) {
    let active = s.arg_in_active;
    match s.phase {
        Phase::RoundStart => {
            let a = UsrAction::RoundStart { show_menu: !active };
            match s.arg_mode {
                Some(m) => (UsrSession { phase: Phase::ModeSelected, mode: m, ..s }, a),
                None => (UsrSession { phase: Phase::AskMode, ..s }, a),
            }
        },
        Phase::AskMode => (s, UsrAction::AskModeChoice),
        Phase::ModeSelected => {
            let a = UsrAction::ModeSelected { mode: s.mode, show: !active };
            if s.mode == 3 {
                (UsrSession { phase: Phase::AdvancedNote, ..s }, a)
            } else if active {
                (with_preset(UsrSession { phase: Phase::FormatMenu, playback_sel: 1, ..s }), a)
            } else {
                (UsrSession { phase: Phase::PlaybackMenu, ..s }, a)
            }
        },
        Phase::PlaybackMenu => (UsrSession { phase: Phase::AskPlayback, ..s }, UsrAction::PlaybackMenu),
        Phase::AskPlayback => (s, UsrAction::AskPlaybackChoice),
        Phase::PlaybackSelected => {
            let a = UsrAction::PlaybackSelected { choice: s.playback_sel };
            if s.mode == 3 {
                (UsrSession { phase: Phase::AskYesNo(YesNoQuestion::Tape), ..s }, a)
            } else {
                (with_preset(UsrSession { phase: Phase::FormatMenu, ..s }), a)
            }
        },
        Phase::AdvancedNote => (
            UsrSession { phase: Phase::AskYesNo(YesNoQuestion::Playback), ..s },
            UsrAction::AdvancedNote,
        ),
        Phase::AskYesNo(q) => (s, UsrAction::AskYesNo { question: q, default_yes: default_answer(q) }),
        Phase::YesNoSelected(q, b) => (
            UsrSession { phase: after_answer(q, b), ..s },
            UsrAction::YesNoSelected { answer: b },
        ),
        Phase::FormatMenu => {
            let a = UsrAction::FormatMenu {
                show: !active,
                framerate: s.framerate,
                sampwidth: s.sampwidth,
            };
            if active {
                (with_format(UsrSession { phase: Phase::FormatSelected, ..s }, 1), a)
            } else {
                (UsrSession { phase: Phase::AskFormat, ..s }, a)
            }
        },
        Phase::AskFormat => (s, UsrAction::AskFormatChoice),
        Phase::FormatSelected => {
            let a = UsrAction::FormatSelected {
                active,
                out_freq: s.out_freq,
                out_bit: s.out_bit,
                n_channels: s.n_channels,
            };
            if s.do_speakerfilter && !active {
                (UsrSession { phase: Phase::ClipQuestion, clip_protect: false, ..s }, a)
            } else {
                (
                    UsrSession {
                        phase: Phase::ConfirmStart,
                        clip_protect: s.do_speakerfilter && active,
                        ..s
                    },
                    a,
                )
            }
        },
        Phase::ClipQuestion => (UsrSession { phase: Phase::AskClip, ..s }, UsrAction::ClipQuestion),
        Phase::AskClip => (s, UsrAction::AskClipAnswer),
        Phase::ClipSelected => (
            UsrSession { phase: Phase::ConfirmStart, ..s },
            UsrAction::ClipSelected { answer: s.clip_protect },
        ),
        Phase::ConfirmStart => if active {
            (UsrSession { phase: Phase::Done, ..s }, UsrAction::Done)
        } else {
            (
                UsrSession { phase: Phase::AskYesNo(YesNoQuestion::Start), ..s },
                UsrAction::AskYesNo { question: YesNoQuestion::Start, default_yes: true },
            )
        },
        Phase::Restart => (UsrSession { phase: Phase::RoundStart, ..s }, UsrAction::Restart),
        Phase::Done => (s, UsrAction::Done),
    }
}

/// The state after the user typed `line` in answer to the current question.
/// An answer that is not understood leaves the state as it is, so that the
/// question is asked again; outside a question the line is ignored.
pub open spec fn take_answer(s: UsrSession, line: Seq<char>) -> UsrSession {
    match s.phase {
        Phase::AskMode => match menu_choice(line, 3) {
            Some(m) => UsrSession { phase: Phase::ModeSelected, mode: m, ..s },
            None => s,
        },
        Phase::AskPlayback => match menu_choice(line, 5) {
            Some(p) => UsrSession { phase: Phase::PlaybackSelected, playback_sel: p, ..s },
            None => s,
        },
        Phase::AskYesNo(q) => match yes_no_choice(line, default_answer(q)) {
            Some(b) => UsrSession { phase: Phase::YesNoSelected(q, b), ..with_answer(s, q, b) },
            None => s,
        },
        Phase::AskFormat => match menu_choice(line, 3) {
            Some(f) => with_format(UsrSession { phase: Phase::FormatSelected, ..s }, f),
            None => s,
        },
        Phase::AskClip => match yes_no_choice(line, true) {
            Some(b) => UsrSession { phase: Phase::ClipSelected, clip_protect: b, ..s },
            None => s,
        },
        _ => s,
    }
}

/// Reads a numbered menu answer.
pub fn parse_menu_choice(line: &str, count: u8) -> (r: Option<u8>)
    requires
        count <= 9,
    ensures
        r == menu_choice(line@, count),
{
    let t = trim_str(line);
    let n = t.unicode_len();
    if n == 0 {
        return Some(1);
    }
    if n == 1 {
        let c = t.get_char(0);
        let d: u8 = if c == '1' {
            1
        } else if c == '2' {
            2
        } else if c == '3' {
            3
        } else if c == '4' {
            4
        } else if c == '5' {
            5
        } else if c == '6' {
            6
        } else if c == '7' {
            7
        } else if c == '8' {
            8
        } else if c == '9' {
            9
        } else {
            0
        };
        if d != 0 && d <= count {
            return Some(d);
        }
    }
    None
}

/// Reads a yes/no answer.
pub fn parse_yes_no(line: &str, default_yes: bool) -> (r: Option<bool>)
    ensures
        r == yes_no_choice(line@, default_yes),
{
    let t = trim_str(line);
    let n = t.unicode_len();
    if n == 0 {
        return Some(default_yes);
    }
    if n == 1 {
        let c = t.get_char(0);
        assert(t@ =~= seq![c]);
        if c == 'y' || c == 'Y' || c == '1' {
            return Some(true);
        }
        if c == 'n' || c == 'N' || c == '2' {
            return Some(false);
        }
    }
    None
}

impl UsrSession {
    /// A dialogue at its start. `arg_mode` is the mode given on the command
    /// line, `"1"`, `"2"` or `"3"`.
    pub fn new(
        arg_in_active: bool,
        arg_mode: Option<String>,
        framerate: u32,
        sampwidth: u16,
        n_channels: u16,
    ) -> (s: UsrSession)
        requires
            arg_mode matches Some(m) ==> (m@ == seq!['1'] || m@ == seq!['2'] || m@ == seq!['3']),
        ensures
            s.phase == Phase::RoundStart,
            s.arg_in_active == arg_in_active,
            s.arg_mode == match arg_mode {
                Some(m) => Some(((m@[0] as u32) - 48) as u8),
                None => None::<u8>,
            },
            s.arg_mode == match arg_mode {
                Some(m) => Some(
                    if m@ == seq!['1'] {
                        1u8
                    } else if m@ == seq!['2'] {
                        2u8
                    } else {
                        3u8
                    },
                ),
                None => None::<u8>,
            },
            s.framerate == framerate,
            s.sampwidth == sampwidth,
            s.n_channels == n_channels,
            s.playback_sel == 1,
            s.mode == match s.arg_mode {
                Some(m) => m,
                None => 1u8,
            },
            !s.do_playbackf && !s.do_tapefilter && !s.do_record_noise && !s.do_analogfilter
                && !s.do_speakerfilter && !s.clip_protect,
            s.out_freq == framerate,
            s.out_bit == sampwidth,
            s == fresh_session(s),
            session_ok(s),
    {
        let mode = match arg_mode {
            Some(m) => {
                let d = m.as_str().get_char(0) as u32;
                Some((d - 48) as u8)
            },
            None => None,
        };
        let first_mode = match mode {
            Some(m) => m,
            None => 1,
        };
        UsrSession {
            phase: Phase::RoundStart,
            arg_in_active,
            arg_mode: mode,
            framerate,
            sampwidth,
            n_channels,
            mode: first_mode,
            do_playbackf: false,
            do_tapefilter: false,
            do_record_noise: false,
            do_analogfilter: false,
            do_speakerfilter: false,
            playback_sel: 1,
            out_freq: framerate,
            out_bit: sampwidth,
            clip_protect: false,
        }
    }

    /// Performs one step that needs no input and returns what the caller does.
    pub fn next_action(&mut self) -> (a: UsrAction)
        ensures
            (*final(self), a) == advance(*old(self)),
    {
        let s = *self;
        let active = s.arg_in_active;
        match s.phase {
            Phase::RoundStart => {
                match s.arg_mode {
                    Some(m) => {
                        *self = UsrSession { phase: Phase::ModeSelected, mode: m, ..s };
                    },
                    None => {
                        *self = UsrSession { phase: Phase::AskMode, ..s };
                    },
                }
                UsrAction::RoundStart { show_menu: !active }
            },
            Phase::AskMode => UsrAction::AskModeChoice,
            Phase::ModeSelected => {
                if s.mode == 3 {
                    *self = UsrSession { phase: Phase::AdvancedNote, ..s };
                } else if active {
                    *self = UsrSession {
                        phase: Phase::FormatMenu,
                        playback_sel: 1,
                        do_playbackf: true,
                        do_tapefilter: true,
                        do_record_noise: s.mode == 2,
                        do_analogfilter: true,
                        do_speakerfilter: true,
                        ..s
                    };
                } else {
                    *self = UsrSession { phase: Phase::PlaybackMenu, ..s };
                }
                UsrAction::ModeSelected { mode: s.mode, show: !active }
            },
            Phase::PlaybackMenu => {
                *self = UsrSession { phase: Phase::AskPlayback, ..s };
                UsrAction::PlaybackMenu
            },
            Phase::AskPlayback => UsrAction::AskPlaybackChoice,
            Phase::PlaybackSelected => {
                if s.mode == 3 {
                    *self = UsrSession { phase: Phase::AskYesNo(YesNoQuestion::Tape), ..s };
                } else {
                    *self = UsrSession {
                        phase: Phase::FormatMenu,
                        do_playbackf: true,
                        do_tapefilter: true,
                        do_record_noise: s.mode == 2,
                        do_analogfilter: true,
                        do_speakerfilter: true,
                        ..s
                    };
                }
                UsrAction::PlaybackSelected { choice: s.playback_sel }
            },
            Phase::AdvancedNote => {
                *self = UsrSession { phase: Phase::AskYesNo(YesNoQuestion::Playback), ..s };
                UsrAction::AdvancedNote
            },
            Phase::AskYesNo(q) => {
                let default_yes = match q {
                    YesNoQuestion::RecordNoise => false,
                    _ => true,
                };
                UsrAction::AskYesNo { question: q, default_yes }
            },
            Phase::YesNoSelected(q, b) => {
                let next = match q {
                    YesNoQuestion::Playback => if b {
                        Phase::PlaybackMenu
                    } else {
                        Phase::AskYesNo(YesNoQuestion::Tape)
                    },
                    YesNoQuestion::Tape => Phase::AskYesNo(YesNoQuestion::RecordNoise),
                    YesNoQuestion::RecordNoise => Phase::AskYesNo(YesNoQuestion::Analog),
                    YesNoQuestion::Analog => Phase::AskYesNo(YesNoQuestion::Speaker),
                    YesNoQuestion::Speaker => Phase::FormatMenu,
                    YesNoQuestion::Start => if b {
                        Phase::Done
                    } else {
                        Phase::Restart
                    },
                };
                *self = UsrSession { phase: next, ..s };
                UsrAction::YesNoSelected { answer: b }
            },
            Phase::FormatMenu => {
                if active {
                    *self = UsrSession {
                        phase: Phase::FormatSelected,
                        out_freq: s.framerate,
                        out_bit: s.sampwidth,
                        ..s
                    };
                } else {
                    *self = UsrSession { phase: Phase::AskFormat, ..s };
                }
                UsrAction::FormatMenu { show: !active, framerate: s.framerate, sampwidth: s.sampwidth }
            },
            Phase::AskFormat => UsrAction::AskFormatChoice,
            Phase::FormatSelected => {
                if s.do_speakerfilter && !active {
                    *self = UsrSession { phase: Phase::ClipQuestion, clip_protect: false, ..s };
                } else {
                    *self = UsrSession {
                        phase: Phase::ConfirmStart,
                        clip_protect: s.do_speakerfilter && active,
                        ..s
                    };
                }
                UsrAction::FormatSelected {
                    active,
                    out_freq: s.out_freq,
                    out_bit: s.out_bit,
                    n_channels: s.n_channels,
                }
            },
            Phase::ClipQuestion => {
                *self = UsrSession { phase: Phase::AskClip, ..s };
                UsrAction::ClipQuestion
            },
            Phase::AskClip => UsrAction::AskClipAnswer,
            Phase::ClipSelected => {
                *self = UsrSession { phase: Phase::ConfirmStart, ..s };
                UsrAction::ClipSelected { answer: s.clip_protect }
            },
            Phase::ConfirmStart => {
                if active {
                    *self = UsrSession { phase: Phase::Done, ..s };
                    UsrAction::Done
                } else {
                    *self = UsrSession { phase: Phase::AskYesNo(YesNoQuestion::Start), ..s };
                    UsrAction::AskYesNo { question: YesNoQuestion::Start, default_yes: true }
                }
            },
            Phase::Restart => {
                *self = UsrSession { phase: Phase::RoundStart, ..s };
                UsrAction::Restart
            },
            Phase::Done => UsrAction::Done,
        }
    }

    /// Hands the line the user typed to the current question.
    pub fn give_answer(&mut self, line: &str)
        ensures
            *final(self) == take_answer(*old(self), line@),
    {
        let s = *self;
        match s.phase {
            Phase::AskMode => {
                if let Some(m) = parse_menu_choice(line, 3) {
                    *self = UsrSession { phase: Phase::ModeSelected, mode: m, ..s };
                }
            },
            Phase::AskPlayback => {
                if let Some(p) = parse_menu_choice(line, 5) {
                    *self = UsrSession { phase: Phase::PlaybackSelected, playback_sel: p, ..s };
                }
            },
            Phase::AskYesNo(q) => {
                let default_yes = match q {
                    YesNoQuestion::RecordNoise => false,
                    _ => true,
                };
                if let Some(b) = parse_yes_no(line, default_yes) {
                    let answered = match q {
                        YesNoQuestion::Playback => UsrSession { do_playbackf: b, ..s },
                        YesNoQuestion::Tape => UsrSession { do_tapefilter: b, ..s },
                        YesNoQuestion::RecordNoise => UsrSession { do_record_noise: b, ..s },
                        YesNoQuestion::Analog => UsrSession { do_analogfilter: b, ..s },
                        YesNoQuestion::Speaker => UsrSession { do_speakerfilter: b, ..s },
                        YesNoQuestion::Start => s,
                    };
                    *self = UsrSession { phase: Phase::YesNoSelected(q, b), ..answered };
                }
            },
            Phase::AskFormat => {
                if let Some(f) = parse_menu_choice(line, 3) {
                    let (out_freq, out_bit) = if f == 1 {
                        (s.framerate, s.sampwidth)
                    } else if f == 2 {
                        (96000u32, 3u16)
                    } else {
                        (48000u32, 2u16)
                    };
                    *self = UsrSession { phase: Phase::FormatSelected, out_freq, out_bit, ..s };
                }
            },
            Phase::AskClip => {
                if let Some(b) = parse_yes_no(line, true) {
                    *self = UsrSession { phase: Phase::ClipSelected, clip_protect: b, ..s };
                }
            },
            _ => {},
        }
    }

    /// The settings held by the dialogue.
    pub fn finish(&self) -> (u: UsrInput)
        requires
            1 <= self.playback_sel <= 5,
        ensures
            u.do_playbackf == self.do_playbackf,
            u.do_tapefilter == self.do_tapefilter,
            u.do_record_noise == self.do_record_noise,
            u.do_analogfilter == self.do_analogfilter,
            u.do_speakerfilter == self.do_speakerfilter,
            u.do_playback_sel_01@ == seq![(48 + self.playback_sel) as char],
            u.out_freq == self.out_freq,
            u.out_bit == self.out_bit,
            u.clip_protect == self.clip_protect,
    {
        UsrInput {
            do_playbackf: self.do_playbackf,
            do_tapefilter: self.do_tapefilter,
            do_record_noise: self.do_record_noise,
            do_analogfilter: self.do_analogfilter,
            do_speakerfilter: self.do_speakerfilter,
            do_playback_sel_01: digit_string(self.playback_sel),
            out_freq: self.out_freq,
            out_bit: self.out_bit,
            clip_protect: self.clip_protect,
        }
    }
}

/// The one-digit text of `d`.
pub fn digit_string(d: u8) -> (r: String)
    requires
        1 <= d <= 5,
    ensures
        r@ == seq![(48 + d) as char],
{
    proof {
        reveal_strlit("1");
        reveal_strlit("2");
        reveal_strlit("3");
        reveal_strlit("4");
        reveal_strlit("5");
    }
    let r = if d == 1 {
        String::from_str("1")
    } else if d == 2 {
        String::from_str("2")
    } else if d == 3 {
        String::from_str("3")
    } else if d == 4 {
        String::from_str("4")
    } else {
        String::from_str("5")
    };
    assert(r@ =~= seq![(48 + d) as char]);
    r
}


/// Whether `a` waits for a line of input.
pub open spec fn is_question(a: UsrAction) -> bool {
    ||| a is AskModeChoice
    ||| a is AskPlaybackChoice
    ||| a is AskYesNo
    ||| a is AskFormatChoice
    ||| a is AskClipAnswer
}

/// `n` steps without input from `s`: the state reached and the actions
/// performed on the way.
pub open spec fn advance_n(s: UsrSession, n: nat) -> (UsrSession, Seq<UsrAction>)
    decreases n,
{
    if n == 0 {
        (s, Seq::empty())
    } else {
        let (t, a) = advance(s);
        let (u, rest) = advance_n(t, (n - 1) as nat);
        (u, seq![a] + rest)
    }
}

/// The output format is the input's, 96 kHz / 24 bit or 48 kHz / 16 bit.
pub open spec fn format_offered(s: UsrSession) -> bool {
    ||| (s.out_freq == s.framerate && s.out_bit == s.sampwidth)
    ||| (s.out_freq == 96000 && s.out_bit == 3)
    ||| (s.out_freq == 48000 && s.out_bit == 2)
}

/// Phases that come after the clipping question of the current round.
pub open spec fn after_clip_choice(p: Phase) -> bool {
    ||| p is ClipQuestion
    ||| p is AskClip
    ||| p is ClipSelected
    ||| p is ConfirmStart
    ||| p == Phase::AskYesNo(YesNoQuestion::Start)
    ||| p matches Phase::YesNoSelected(YesNoQuestion::Start, _)
    ||| p is Done
}

/// The position of a phase within one round of the dialogue.
pub open spec fn stage(p: Phase) -> int {
    match p {
        Phase::RoundStart => 0,
        Phase::AskMode => 1,
        Phase::ModeSelected => 2,
        Phase::AdvancedNote => 3,
        Phase::AskYesNo(q) => match q {
            YesNoQuestion::Playback => 4,
            YesNoQuestion::Tape => 9,
            YesNoQuestion::RecordNoise => 11,
            YesNoQuestion::Analog => 13,
            YesNoQuestion::Speaker => 15,
            YesNoQuestion::Start => 24,
        },
        Phase::YesNoSelected(q, _) => match q {
            YesNoQuestion::Playback => 5,
            YesNoQuestion::Tape => 10,
            YesNoQuestion::RecordNoise => 12,
            YesNoQuestion::Analog => 14,
            YesNoQuestion::Speaker => 16,
            YesNoQuestion::Start => 25,
        },
        Phase::PlaybackMenu => 6,
        Phase::AskPlayback => 7,
        Phase::PlaybackSelected => 8,
        Phase::FormatMenu => 17,
        Phase::AskFormat => 18,
        Phase::FormatSelected => 19,
        Phase::ClipQuestion => 20,
        Phase::AskClip => 21,
        Phase::ClipSelected => 22,
        Phase::ConfirmStart => 23,
        Phase::Done => 26,
        Phase::Restart => 27,
    }
}

/// Stages that only the advanced settings (mode 3) pass through.
pub open spec fn advanced_stage(k: int) -> bool {
    (3 <= k <= 5) || (9 <= k <= 16)
}

/// Stages at which the filter set of the round is complete.
pub open spec fn settled_stage(k: int) -> bool {
    17 <= k <= 26
}

/// `s` holds the filter set of its mode (1 or 2).
pub open spec fn has_preset(s: UsrSession) -> bool {
    &&& s.do_playbackf && s.do_tapefilter && s.do_analogfilter && s.do_speakerfilter
    &&& s.do_record_noise == (s.mode == 2)
}

/// The state of a dialogue at its very start, with the settings of `s`'s
/// arguments.
pub open spec fn fresh_session(s: UsrSession) -> UsrSession {
    UsrSession {
        phase: Phase::RoundStart,
        mode: match s.arg_mode {
            Some(m) => m,
            None => 1u8,
        },
        do_playbackf: false,
        do_tapefilter: false,
        do_record_noise: false,
        do_analogfilter: false,
        do_speakerfilter: false,
        playback_sel: 1,
        out_freq: s.framerate,
        out_bit: s.sampwidth,
        clip_protect: false,
        ..s
    }
}

/// Two dialogues at the same point of a round, with the same arguments, that
/// agree on every setting the round has settled so far.
pub open spec fn same_round(t: UsrSession, f: UsrSession) -> bool {
    let k = stage(t.phase);
    let m3 = t.mode == 3;
    &&& t.phase == f.phase
    &&& t.arg_in_active == f.arg_in_active
    &&& t.arg_mode == f.arg_mode
    &&& t.framerate == f.framerate
    &&& t.sampwidth == f.sampwidth
    &&& t.n_channels == f.n_channels
    &&& 2 <= k <= 26 ==> t.mode == f.mode
    &&& advanced_stage(k) ==> m3
    &&& t.phase matches Phase::YesNoSelected(YesNoQuestion::Playback, b) ==> t.do_playbackf == b
    &&& ((m3 && 5 <= k <= 26) || (!m3 && settled_stage(k))) ==> t.do_playbackf == f.do_playbackf
    &&& ((m3 && 10 <= k <= 26) || (!m3 && settled_stage(k))) ==> t.do_tapefilter
        == f.do_tapefilter
    &&& ((m3 && 12 <= k <= 26) || (!m3 && settled_stage(k))) ==> t.do_record_noise
        == f.do_record_noise
    &&& ((m3 && 14 <= k <= 26) || (!m3 && settled_stage(k))) ==> t.do_analogfilter
        == f.do_analogfilter
    &&& ((m3 && 16 <= k <= 26) || (!m3 && settled_stage(k))) ==> t.do_speakerfilter
        == f.do_speakerfilter
    &&& !m3 && settled_stage(k) ==> has_preset(t) && has_preset(f)
    &&& (k == 8 || (9 <= k <= 26 && (!m3 || t.do_playbackf))) ==> t.playback_sel
        == f.playback_sel
    &&& 19 <= k <= 26 ==> t.out_freq == f.out_freq && t.out_bit == f.out_bit
    &&& 20 <= k <= 26 ==> t.clip_protect == f.clip_protect
}

proof fn lemma_same_round_advance(t: UsrSession, f: UsrSession)
    requires
        same_round(t, f),
    ensures
        same_round(advance(t).0, advance(f).0),
        advance(t).1 == advance(f).1,
{
    match t.phase {
        Phase::RoundStart => {},
        Phase::AskMode => {},
        Phase::ModeSelected => {},
        Phase::PlaybackMenu => {},
        Phase::AskPlayback => {},
        Phase::PlaybackSelected => {},
        Phase::AdvancedNote => {},
        Phase::AskYesNo(q) => {},
        Phase::YesNoSelected(q, b) => {},
        Phase::FormatMenu => {},
        Phase::AskFormat => {},
        Phase::FormatSelected => {},
        Phase::ClipQuestion => {},
        Phase::AskClip => {},
        Phase::ClipSelected => {},
        Phase::ConfirmStart => {},
        Phase::Restart => {},
        Phase::Done => {},
    }
}

proof fn lemma_same_round_answer(t: UsrSession, f: UsrSession, line: Seq<char>)
    requires
        same_round(t, f),
    ensures
        same_round(take_answer(t, line), take_answer(f, line)),
{
    match t.phase {
        Phase::RoundStart => {},
        Phase::AskMode => {},
        Phase::ModeSelected => {},
        Phase::PlaybackMenu => {},
        Phase::AskPlayback => {},
        Phase::PlaybackSelected => {},
        Phase::AdvancedNote => {},
        Phase::AskYesNo(q) => {},
        Phase::YesNoSelected(q, b) => {},
        Phase::FormatMenu => {},
        Phase::AskFormat => {},
        Phase::FormatSelected => {},
        Phase::ClipQuestion => {},
        Phase::AskClip => {},
        Phase::ClipSelected => {},
        Phase::ConfirmStart => {},
        Phase::Restart => {},
        Phase::Done => {},
    }
}

/// Two dialogues in the same round, fed the same lines, stay in the same
/// round and perform the same actions.
pub proof fn lemma_same_round_kept(t: UsrSession, f: UsrSession, line: Seq<char>)
    requires
        same_round(t, f),
    ensures
        same_round(advance(t).0, advance(f).0),
        advance(t).1 == advance(f).1,
        same_round(take_answer(t, line), take_answer(f, line)),
{
    lemma_same_round_advance(t, f);
    lemma_same_round_answer(t, f, line);
}

/// A round declined at the start question leaves no trace: two steps later
/// the dialogue stands where a fresh one with the same arguments starts, and
/// from there on (by [`lemma_same_round_kept`]) it asks the same questions
/// and settles on the same settings as the fresh one (see
/// [`lemma_same_round_settles`]).
pub proof fn lemma_declined_round_restarts(s: UsrSession)
    requires
        s.phase == Phase::YesNoSelected(YesNoQuestion::Start, false),
    ensures
        advance(s).1 == (UsrAction::YesNoSelected { answer: false }),
        advance(advance(s).0).1 == UsrAction::Restart,
        same_round(advance(advance(s).0).0, fresh_session(s)),
{
}

/// Dialogues in the same round that are done hold the same settings, except
/// the playback preset of advanced settings that leave the playback filter
/// off: that preset is never asked in such a round and is kept from before.
pub proof fn lemma_same_round_settles(t: UsrSession, f: UsrSession)
    requires
        same_round(t, f),
        t.phase is Done,
    ensures
        t.mode == f.mode,
        t.do_playbackf == f.do_playbackf,
        t.do_tapefilter == f.do_tapefilter,
        t.do_record_noise == f.do_record_noise,
        t.do_analogfilter == f.do_analogfilter,
        t.do_speakerfilter == f.do_speakerfilter,
        t.out_freq == f.out_freq && t.out_bit == f.out_bit,
        t.clip_protect == f.clip_protect,
        (t.mode != 3 || t.do_playbackf) ==> t.playback_sel == f.playback_sel,
{
}

/// What holds of every state the dialogue reaches from [`UsrSession::new`].
pub open spec fn session_ok(s: UsrSession) -> bool {
    &&& 1 <= s.playback_sel <= 5
    &&& 1 <= s.mode <= 3
    &&& s.arg_mode matches Some(m) ==> 1 <= m <= 3
    &&& format_offered(s)
    &&& after_clip_choice(s.phase) ==> (s.clip_protect ==> s.do_speakerfilter)
    &&& (s.phase is ClipQuestion || s.phase is AskClip) ==> s.do_speakerfilter
    &&& s.arg_mode matches Some(m) ==> s.mode == m
    &&& s.phase is AskMode ==> s.arg_mode is None
    &&& s.phase is AskFormat ==> !s.arg_in_active
    &&& s.arg_in_active ==> s.out_freq == s.framerate && s.out_bit == s.sampwidth
    &&& advanced_stage(stage(s.phase)) ==> s.mode == 3
    &&& settled_stage(stage(s.phase)) && s.mode != 3 ==> has_preset(s)
}

/// Every step keeps [`session_ok`].
pub proof fn lemma_session_ok_kept(s: UsrSession, line: Seq<char>)
    requires
        session_ok(s),
    ensures
        session_ok(advance(s).0),
        session_ok(take_answer(s, line)),
{
}

/// The dialogue never settles on clipping protection without the speaker
/// filter, always on one of the three offered output formats (the input's
/// own where input came from the command line or a pipe), and in modes 1 and
/// 2 (given or chosen), whatever the answers, on that mode's filter set:
/// everything but record noise in mode 1, everything in mode 2.
pub proof fn lemma_done_settings(s: UsrSession)
    requires
        session_ok(s),
        s.phase is Done,
    ensures
        s.clip_protect ==> s.do_speakerfilter,
        format_offered(s),
        1 <= s.playback_sel <= 5,
        s.arg_mode matches Some(m) ==> s.mode == m,
        s.mode != 3 ==> has_preset(s),
        s.arg_in_active ==> s.out_freq == s.framerate && s.out_bit == s.sampwidth,
{
}

/// In a dialogue with the user, settings are only complete after the user
/// confirmed the start: no step reaches the end except a yes to the start
/// question.
pub proof fn lemma_interactive_confirms(s: UsrSession, line: Seq<char>)
    requires
        !s.arg_in_active,
        !(s.phase is Done),
    ensures
        advance(s).0.phase is Done ==> s.phase == Phase::YesNoSelected(YesNoQuestion::Start, true),
        !(take_answer(s, line).phase is Done),
{
}

/// An answer either moves the dialogue on or, when it is not understood,
/// leaves it exactly as it was, so that the same question is asked again.
pub proof fn lemma_unclear_answer_asks_again(s: UsrSession, line: Seq<char>)
    ensures
        take_answer(s, line) == s || take_answer(s, line).phase != s.phase,
        take_answer(s, line) == s ==> advance(take_answer(s, line)).1 == advance(s).1,
{
}

/// The output format menu: an empty line or `1` keeps the input's own rate
/// and sample width, `2` picks 96 kHz / 24 bit, `3` picks 48 kHz / 16 bit;
/// anything else is asked again. Only the format changes.
pub proof fn lemma_format_answers(s: UsrSession, line: Seq<char>)
    requires
        s.phase == Phase::AskFormat,
    ensures
        ({
            let t = take_answer(s, line);
            let a = trimmed(line);
            &&& (a.len() == 0 || a == seq!['1']) ==> t.phase == Phase::FormatSelected
                && t.out_freq == s.framerate && t.out_bit == s.sampwidth
            &&& a == seq!['2'] ==> t.phase == Phase::FormatSelected && t.out_freq == 96000
                && t.out_bit == 3
            &&& a == seq!['3'] ==> t.phase == Phase::FormatSelected && t.out_freq == 48000
                && t.out_bit == 2
            &&& !(a.len() == 0 || a == seq!['1'] || a == seq!['2'] || a == seq!['3']) ==> t == s
            &&& t == UsrSession { phase: t.phase, out_freq: t.out_freq, out_bit: t.out_bit, ..s }
        }),
{
    let a = trimmed(line);
    if a.len() == 1 {
        assert(a == seq![a[0]]);
    }
}

/// Unattended, the format menu is not shown and the input's own format is
/// kept.
pub proof fn lemma_unattended_format(s: UsrSession)
    requires
        s.phase == Phase::FormatMenu,
        s.arg_in_active,
    ensures
        advance(s).0.phase == Phase::FormatSelected,
        advance(s).0.out_freq == s.framerate,
        advance(s).0.out_bit == s.sampwidth,
        advance(s).1 == (UsrAction::FormatMenu {
            show: false,
            framerate: s.framerate,
            sampwidth: s.sampwidth,
        }),
{
}

/// The mode menu: an empty line or `1` picks mode 1, `2` mode 2, `3` mode 3;
/// anything else is asked again.
pub proof fn lemma_mode_answers(s: UsrSession, line: Seq<char>)
    requires
        s.phase == Phase::AskMode,
    ensures
        ({
            let t = take_answer(s, line);
            let a = trimmed(line);
            &&& (a.len() == 0 || a == seq!['1']) ==> t == UsrSession {
                phase: Phase::ModeSelected,
                mode: 1,
                ..s
            }
            &&& a == seq!['2'] ==> t == UsrSession { phase: Phase::ModeSelected, mode: 2, ..s }
            &&& a == seq!['3'] ==> t == UsrSession { phase: Phase::ModeSelected, mode: 3, ..s }
            &&& !(a.len() == 0 || a == seq!['1'] || a == seq!['2'] || a == seq!['3']) ==> t == s
        }),
{
    let a = trimmed(line);
    if a.len() == 1 {
        assert(a == seq![a[0]]);
    }
}

/// The playback character menu: an empty line picks preset 1, a digit from 1
/// to 5 picks that preset; anything else is asked again.
pub proof fn lemma_playback_answers(s: UsrSession, line: Seq<char>)
    requires
        s.phase == Phase::AskPlayback,
    ensures
        ({
            let t = take_answer(s, line);
            let a = trimmed(line);
            &&& a.len() == 0 ==> t == UsrSession {
                phase: Phase::PlaybackSelected,
                playback_sel: 1,
                ..s
            }
            &&& a == seq!['1'] ==> t == UsrSession {
                phase: Phase::PlaybackSelected,
                playback_sel: 1,
                ..s
            }
            &&& a == seq!['2'] ==> t == UsrSession {
                phase: Phase::PlaybackSelected,
                playback_sel: 2,
                ..s
            }
            &&& a == seq!['3'] ==> t == UsrSession {
                phase: Phase::PlaybackSelected,
                playback_sel: 3,
                ..s
            }
            &&& a == seq!['4'] ==> t == UsrSession {
                phase: Phase::PlaybackSelected,
                playback_sel: 4,
                ..s
            }
            &&& a == seq!['5'] ==> t == UsrSession {
                phase: Phase::PlaybackSelected,
                playback_sel: 5,
                ..s
            }
            &&& !(a.len() == 0 || a == seq!['1'] || a == seq!['2'] || a == seq!['3'] || a
                == seq!['4'] || a == seq!['5']) ==> t == s
        }),
{
    let a = trimmed(line);
    if a.len() == 1 {
        assert(a == seq![a[0]]);
    }
}

/// A yes/no question: an empty line takes the default (no for record noise,
/// yes otherwise), `y`, `Y` or `1` is yes, `n`, `N` or `2` is no, anything
/// else is asked again; the answer is recorded in the setting the question
/// is about, and in no other.
pub proof fn lemma_yes_no_answers(s: UsrSession, q: YesNoQuestion, line: Seq<char>)
    requires
        s.phase == Phase::AskYesNo(q),
    ensures
        ({
            let t = take_answer(s, line);
            let a = trimmed(line);
            &&& a.len() == 0 ==> t.phase == Phase::YesNoSelected(
                q,
                q != YesNoQuestion::RecordNoise,
            )
            &&& (a == seq!['y'] || a == seq!['Y'] || a == seq!['1']) ==> t.phase
                == Phase::YesNoSelected(q, true)
            &&& (a == seq!['n'] || a == seq!['N'] || a == seq!['2']) ==> t.phase
                == Phase::YesNoSelected(q, false)
            &&& !(a.len() == 0 || a == seq!['y'] || a == seq!['Y'] || a == seq!['1'] || a
                == seq!['n'] || a == seq!['N'] || a == seq!['2']) ==> t == s
            &&& t.phase matches Phase::YesNoSelected(_, b) ==> t == UsrSession {
                phase: t.phase,
                do_playbackf: if q == YesNoQuestion::Playback {
                    b
                } else {
                    s.do_playbackf
                },
                do_tapefilter: if q == YesNoQuestion::Tape {
                    b
                } else {
                    s.do_tapefilter
                },
                do_record_noise: if q == YesNoQuestion::RecordNoise {
                    b
                } else {
                    s.do_record_noise
                },
                do_analogfilter: if q == YesNoQuestion::Analog {
                    b
                } else {
                    s.do_analogfilter
                },
                do_speakerfilter: if q == YesNoQuestion::Speaker {
                    b
                } else {
                    s.do_speakerfilter
                },
                ..s
            }
        }),
{
    let a = trimmed(line);
    if a.len() == 1 {
        assert(a == seq![a[0]]);
    }
}

/// The clipping question: an empty line, `y`, `Y` or `1` turns protection
/// on, `n`, `N` or `2` leaves it off; anything else is asked again.
pub proof fn lemma_clip_answers(s: UsrSession, line: Seq<char>)
    requires
        s.phase == Phase::AskClip,
    ensures
        ({
            let t = take_answer(s, line);
            let a = trimmed(line);
            &&& (a.len() == 0 || a == seq!['y'] || a == seq!['Y'] || a == seq!['1']) ==> t
                == UsrSession { phase: Phase::ClipSelected, clip_protect: true, ..s }
            &&& (a == seq!['n'] || a == seq!['N'] || a == seq!['2']) ==> t == UsrSession {
                phase: Phase::ClipSelected,
                clip_protect: false,
                ..s
            }
            &&& !(a.len() == 0 || a == seq!['y'] || a == seq!['Y'] || a == seq!['1'] || a
                == seq!['n'] || a == seq!['N'] || a == seq!['2']) ==> t == s
        }),
{
    let a = trimmed(line);
    if a.len() == 1 {
        assert(a == seq![a[0]]);
    }
}

/// With the input and the mode (1 or 2) given on the command line or a pipe,
/// the dialogue asks nothing and settles in five steps on that mode's filters,
/// playback preset 1, the input's own format, and clipping protection.
pub proof fn lemma_unattended_run(s: UsrSession)
    requires
        s.phase == Phase::RoundStart,
        s.arg_in_active,
        s.arg_mode == Some(1u8) || s.arg_mode == Some(2u8),
    ensures
        ({
            let (t, acts) = advance_n(s, 5);
            &&& t.phase == Phase::Done
            &&& acts.len() == 5
            &&& acts[4] == UsrAction::Done
            &&& forall|i: int| 0 <= i < 5 ==> !is_question(#[trigger] acts[i])
            &&& t.do_playbackf && t.do_tapefilter && t.do_analogfilter && t.do_speakerfilter
            &&& t.do_record_noise == (s.arg_mode == Some(2u8))
            &&& t.playback_sel == 1
            &&& t.out_freq == s.framerate && t.out_bit == s.sampwidth
            &&& t.clip_protect
        }),
{
    reveal_with_fuel(advance_n, 6);
    let (s1, a1) = advance(s);
    let (s2, a2) = advance(s1);
    let (s3, a3) = advance(s2);
    let (s4, a4) = advance(s3);
    let (s5, a5) = advance(s4);
    assert(advance_n(s5, 0) == (s5, Seq::<UsrAction>::empty()));
    assert(advance_n(s4, 1).1 =~= seq![a5]);
    assert(advance_n(s3, 2).1 =~= seq![a4, a5]);
    assert(advance_n(s2, 3).1 =~= seq![a3, a4, a5]);
    assert(advance_n(s1, 4).1 =~= seq![a2, a3, a4, a5]);
    assert(advance_n(s, 5).1 =~= seq![a1, a2, a3, a4, a5]);
}

} // verus!
