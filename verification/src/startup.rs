//! Start-up: command-line arguments and piped input decide what the run does.
use vstd::prelude::*;
use crate::text::{text_equals, trim_str, trimmed};

verus! {

/// What a run starts with.
pub struct StartupArgs {
    /// The WAV file named on the command line, as given there.
    pub arg_input_path: Option<String>,
    /// The processing mode chosen without asking: `"1"` or `"2"`.
    pub cl_mode: Option<String>,
    /// The bytes that arrived on standard input, when there were any.
    pub piped_data: Option<Vec<u8>>,
    /// Whether the result goes to standard output.
    pub is_output_pipe: bool,
}

/// How start-up ends.
pub enum StartupOutcome {
    /// Processing goes on with these settings.
    Run(StartupArgs),
    /// A second file name was given; the run stops. Holds that argument.
    InvalidArgument(String),
    /// Output to a pipe was asked for but standard output is a terminal; the
    /// run stops.
    PipeNotConnected,
}

/// An argument with one pair of enclosing single or double quotes removed.
pub open spec fn unquoted(a: Seq<char>) -> Seq<char> {
    if a.len() >= 2 && ((a[0] == '\'' && a.last() == '\'') || (a[0] == '"' && a.last() == '"')) {
        a.subrange(1, a.len() - 1)
    } else {
        a
    }
}

/// One pair of enclosing double or single quotes is removed, and only that:
/// the text between them is kept as it is, and an argument that is not
/// enclosed in a matching pair is kept whole.
pub proof fn lemma_unquoted(inner: Seq<char>, a: Seq<char>)
    ensures
        unquoted(seq!['"'] + inner + seq!['"']) == inner,
        unquoted(seq!['\''] + inner + seq!['\'']) == inner,
        (a.len() < 2 || !((a[0] == '"' && a.last() == '"') || (a[0] == '\'' && a.last() == '\'')))
            ==> unquoted(a) == a,
{
    let d = seq!['"'] + inner + seq!['"'];
    let q = seq!['\''] + inner + seq!['\''];
    assert(d[0] == '"' && d.last() == '"');
    assert(q[0] == '\'' && q.last() == '\'');
    assert(d.subrange(1, d.len() - 1) =~= inner);
    assert(q.subrange(1, q.len() - 1) =~= inner);
}

/// The arguments read from left to right: `Ok((file, mode, output_pipe))`, or
/// `Err(arg)` for the first argument that names a second file. `-1` and `-2`
/// choose a mode (the last one wins), `-` sends the output to a pipe, and
/// anything else names the input file.
pub open spec fn scan_args(args: Seq<Seq<char>>) -> Result<
    (Option<Seq<char>>, Option<Seq<char>>, bool),
    Seq<char>,
>
    decreases args.len(),
{
    if args.len() == 0 {
        Ok((None, None, false))
    } else {
        match scan_args(args.drop_last()) {
            Err(e) => Err(e),
            Ok((path, mode, pipe)) => {
                let a = unquoted(args.last());
                let t = trimmed(a);
                if t == seq!['-', '1'] {
                    Ok((path, Some(seq!['1']), pipe))
                } else if t == seq!['-', '2'] {
                    Ok((path, Some(seq!['2']), pipe))
                } else if t == seq!['-'] {
                    Ok((path, mode, true))
                } else if path is None {
                    Ok((Some(a), mode, pipe))
                } else {
                    Err(a)
                }
            },
        }
    }
}

/// The data read from standard input, kept only when it is not empty.
pub open spec fn piped_bytes(stdin_data: Option<Seq<u8>>) -> Option<Seq<u8>> {
    match stdin_data {
        Some(b) => if b.len() > 0 {
            Some(b)
        } else {
            None
        },
        None => None,
    }
}

/// The mode of a run: the one given, else mode `"1"` when a file or piped
/// data is there to process.
pub open spec fn effective_mode(
    path: Option<Seq<char>>,
    mode: Option<Seq<char>>,
    piped: Option<Seq<u8>>,
) -> Option<Seq<char>> {
    if (path is Some || piped is Some) && mode is None {
        Some(seq!['1'])
    } else {
        mode
    }
}

/// Whether argument `a` is one of the options `-1`, `-2` or `-`.
pub open spec fn is_option_arg(a: Seq<char>) -> bool {
    let t = trimmed(unquoted(a));
    t == seq!['-', '1'] || t == seq!['-', '2'] || t == seq!['-']
}

/// The arguments that name files, unquoted, in order.
pub open spec fn file_args(args: Seq<Seq<char>>) -> Seq<Seq<char>>
    decreases args.len(),
{
    if args.len() == 0 {
        Seq::empty()
    } else if is_option_arg(args.last()) {
        file_args(args.drop_last())
    } else {
        file_args(args.drop_last()).push(unquoted(args.last()))
    }
}

/// A mode chosen on the command line is the mode of the run; mode 1 is filled
/// in only where no mode was chosen and there is input to process, and no
/// mode is set where there is neither.
pub proof fn lemma_chosen_mode_kept(
    path: Option<Seq<char>>,
    mode: Option<Seq<char>>,
    piped: Option<Seq<u8>>,
)
    ensures
        mode matches Some(m) ==> effective_mode(path, mode, piped) == Some(m),
        mode is None && (path is Some || piped is Some) ==> effective_mode(path, mode, piped)
            == Some(seq!['1']),
        mode is None && path is None && piped is None ==> effective_mode(path, mode, piped)
            is None,
{
}

/// An option `-1` or `-2` (quoted or padded with white space) sets the mode
/// to 1 or 2, keeping the file and the pipe choice read so far; `-` asks for
/// pipe output and keeps the rest.
pub proof fn lemma_option_effect(args: Seq<Seq<char>>, a: Seq<char>)
    requires
        scan_args(args) is Ok,
    ensures
        match scan_args(args) {
            Ok((path, mode, pipe)) => {
                &&& trimmed(unquoted(a)) == seq!['-', '1'] ==> scan_args(args.push(a)) == Ok::<
                    (Option<Seq<char>>, Option<Seq<char>>, bool),
                    Seq<char>,
                >((path, Some(seq!['1']), pipe))
                &&& trimmed(unquoted(a)) == seq!['-', '2'] ==> scan_args(args.push(a)) == Ok::<
                    (Option<Seq<char>>, Option<Seq<char>>, bool),
                    Seq<char>,
                >((path, Some(seq!['2']), pipe))
                &&& trimmed(unquoted(a)) == seq!['-'] ==> scan_args(args.push(a)) == Ok::<
                    (Option<Seq<char>>, Option<Seq<char>>, bool),
                    Seq<char>,
                >((path, mode, true))
            },
            Err(_) => true,
        },
{
    assert(args.push(a).drop_last() =~= args);
    assert(seq!['-', '1'] != seq!['-', '2']) by {
        assert(seq!['-', '1'][1] != seq!['-', '2'][1]);
    }
    assert(seq!['-'].len() != seq!['-', '1'].len());
    assert(seq!['-'].len() != seq!['-', '2'].len());
}

/// Without a `-1` or `-2` among the arguments no mode is chosen, and a file
/// argument (anything that is not an option) never chooses one.
pub proof fn lemma_no_option_no_mode(args: Seq<Seq<char>>)
    requires
        forall|i: int|
            0 <= i < args.len() ==> trimmed(unquoted(#[trigger] args[i])) != seq!['-', '1']
                && trimmed(unquoted(args[i])) != seq!['-', '2'],
    ensures
        scan_args(args) matches Ok((_, mode, _)) ==> mode is None,
    decreases args.len(),
{
    if args.len() > 0 {
        let pre = args.drop_last();
        assert forall|i: int| 0 <= i < pre.len() implies trimmed(unquoted(#[trigger] pre[i]))
            != seq!['-', '1'] && trimmed(unquoted(pre[i])) != seq!['-', '2'] by {
            assert(pre[i] == args[i]);
        }
        lemma_no_option_no_mode(pre);
        assert(args.last() == args[args.len() - 1]);
    }
}

/// The last `-1` or `-2` on the command line decides the mode of the run:
/// the arguments after it that are no mode option leave it as it is, and the
/// run keeps it instead of falling back to mode 1, whatever was piped in.
pub proof fn lemma_last_mode_option_wins(
    args: Seq<Seq<char>>,
    i: int,
    d: char,
    piped: Option<Seq<u8>>,
)
    requires
        0 <= i < args.len(),
        d == '1' || d == '2',
        trimmed(unquoted(args[i])) == seq!['-', d],
        forall|j: int|
            i < j < args.len() ==> trimmed(unquoted(#[trigger] args[j])) != seq!['-', '1']
                && trimmed(unquoted(args[j])) != seq!['-', '2'],
        scan_args(args) is Ok,
    ensures
        scan_args(args) matches Ok((path, mode, _)) && mode == Some(seq![d]) && effective_mode(
            path,
            mode,
            piped,
        ) == Some(seq![d]),
    decreases args.len(),
{
    let pre = args.drop_last();
    assert(args.last() == args[args.len() - 1]);
    if scan_args(pre) is Err {
        assert(scan_args(args) is Err);
    }
    if i == args.len() - 1 {
        assert(seq!['-', '2'] != seq!['-', '1']) by {
            assert(seq!['-', '2'][1] != seq!['-', '1'][1]);
        }
        if d == '1' {
            assert(seq!['-', d] == seq!['-', '1']);
        } else {
            assert(seq!['-', d] == seq!['-', '2']);
        }
    } else {
        assert forall|j: int| i < j < pre.len() implies trimmed(unquoted(#[trigger] pre[j]))
            != seq!['-', '1'] && trimmed(unquoted(pre[j])) != seq!['-', '2'] by {
            assert(pre[j] == args[j]);
        }
        assert(pre[i] == args[i]);
        lemma_last_mode_option_wins(pre, i, d, piped);
    }
}

/// At most one file may be named: the arguments are refused exactly when two
/// or more name files, the second of them being reported, and otherwise the
/// input is the one file named, if any.
pub proof fn lemma_one_file_argument(args: Seq<Seq<char>>)
    ensures
        (scan_args(args) is Err) == (file_args(args).len() >= 2),
        scan_args(args) matches Err(e) ==> e == file_args(args)[1],
        scan_args(args) matches Ok((path, _, _)) ==> path == (if file_args(args).len() == 0 {
            None
        } else {
            Some(file_args(args)[0])
        }),
    decreases args.len(),
{
    if args.len() > 0 {
        lemma_one_file_argument(args.drop_last());
    }
}

/// Once an argument names a second file, the later arguments do not change
/// the outcome.
proof fn lemma_scan_error_stays(args: Seq<Seq<char>>, k: int)
    requires
        0 <= k <= args.len(),
        scan_args(args.take(k)) is Err,
    ensures
        scan_args(args) == scan_args(args.take(k)),
    decreases args.len() - k,
{
    if k < args.len() {
        assert(args.take(k + 1).drop_last() =~= args.take(k));
        lemma_scan_error_stays(args, k + 1);
    } else {
        assert(args.take(k) =~= args);
    }
}

fn same_dash_two(t: &str) -> (r: bool)
    ensures
        r == (t@ == seq!['-', '2']),
{
    let r = text_equals(t, &['-', '2']);
    assert(r == (t@ == seq!['-', '2']));
    r
}

fn same_dash(t: &str) -> (r: bool)
    ensures
        r == (t@ == seq!['-']),
{
    let dash: [char; 1] = ['-'];
    let r = text_equals(t, dash.as_slice());
    assert(dash@ =~= seq!['-']);
    r
}

/// `a` without one pair of enclosing quotes.
pub fn strip_quotes(a: &str) -> (r: &str)
    ensures
        r@ == unquoted(a@),
{
    let n = a.unicode_len();
    if n >= 2 {
        let first = a.get_char(0);
        let last = a.get_char(n - 1);
        if (first == '\'' && last == '\'') || (first == '"' && last == '"') {
            return a.substring_char(1, n - 1);
        }
    }
    a
}

/// Decides the start-up from the command-line arguments (without the
/// program name), what standard input delivered (`None` when it is a
/// terminal), and whether standard output is a terminal.
pub fn startup_args(
    args: &Vec<String>,
    stdin_data: Option<Vec<u8>>,
    stdout_is_terminal: bool,
) -> (res: StartupOutcome)
    ensures
        match res {
            StartupOutcome::InvalidArgument(a) => scan_args(args.deep_view()) == Err::<
                (Option<Seq<char>>, Option<Seq<char>>, bool),
                Seq<char>,
            >(a@),
            StartupOutcome::PipeNotConnected => scan_args(args.deep_view()) matches Ok(
                (_, _, pipe),
            ) && pipe && stdout_is_terminal,
            StartupOutcome::Run(s) => scan_args(args.deep_view()) matches Ok((path, mode, pipe))
                && !(pipe && stdout_is_terminal) && s.arg_input_path.deep_view() == path
                && s.is_output_pipe == pipe && s.piped_data.deep_view() == piped_bytes(
                stdin_data.deep_view(),
            ) && s.cl_mode.deep_view() == effective_mode(
                path,
                mode,
                piped_bytes(stdin_data.deep_view()),
            ),
        },
{
    let ghost dv = args.deep_view();
    let mut path: Option<String> = None;
    let mut mode: Option<String> = None;
    let mut pipe = false;
    let mut i: usize = 0;
    assert(dv.take(0) =~= Seq::<Seq<char>>::empty());
    while i < args.len()
        invariant
            i <= args.len(),
            dv == args.deep_view(),
            scan_args(dv.take(i as int)) == Ok::<
                (Option<Seq<char>>, Option<Seq<char>>, bool),
                Seq<char>,
            >((path.deep_view(), mode.deep_view(), pipe)),
        decreases args.len() - i,
    {
        assert(dv.take(i + 1).drop_last() =~= dv.take(i as int));
        assert(dv.take(i + 1).last() == args[i as int]@);
        let a = strip_quotes(args[i].as_str());
        let t = trim_str(a);
        let ghost dash_one: Seq<char> = seq!['-', '1'];
        let is_dash_one = text_equals(t, &['-', '1']);
        assert(is_dash_one == (t@ == dash_one));
        if is_dash_one {
            proof {
                reveal_strlit("1");
            }
            mode = Some(String::from_str("1"));
            assert(mode.deep_view() == Some(seq!['1']));
        } else if same_dash_two(t) {
            proof {
                reveal_strlit("2");
            }
            mode = Some(String::from_str("2"));
            assert(mode.deep_view() == Some(seq!['2']));
        } else if same_dash(t) {
            pipe = true;
        } else if path.is_none() {
            path = Some(String::from_str(a));
        } else {
            let bad = String::from_str(a);
            proof {
                lemma_scan_error_stays(dv, i + 1);
            }
            return StartupOutcome::InvalidArgument(bad);
        }
        i = i + 1;
    }
    assert(dv.take(args.len() as int) =~= dv);
    if pipe && stdout_is_terminal {
        return StartupOutcome::PipeNotConnected;
    }
    let piped_data = match stdin_data {
        Some(b) => if b.len() > 0 {
            Some(b)
        } else {
            None
        },
        None => None,
    };
    if (path.is_some() || piped_data.is_some()) && mode.is_none() {
        proof {
            reveal_strlit("1");
        }
        mode = Some(String::from_str("1"));
    }
    StartupOutcome::Run(
        StartupArgs { arg_input_path: path, cl_mode: mode, piped_data, is_output_pipe: pipe },
    )
}

} // verus!
