//! The order of a run: oversampling, then the selected stages.
use vstd::prelude::*;
use crate::usrsel::UsrInput;

verus! {

/// The filter stages, in the order they run.
#[derive(Clone, Copy, PartialEq, Eq, Structural)]
pub enum Stage {
    Playback,
    Tape,
    RecordNoise,
    Analog,
    Speaker,
}

/// The stage `x` alone when `on`, else no stage.
pub open spec fn stage_if(on: bool, x: Stage) -> Seq<Stage> {
    if on {
        seq![x]
    } else {
        Seq::empty()
    }
}

/// The selected stages in running order: playback character, cassette tape,
/// record noise, analog characteristics, speaker.
pub open spec fn stages_of(u: UsrInput) -> Seq<Stage> {
    stage_if(u.do_playbackf, Stage::Playback) + stage_if(u.do_tapefilter, Stage::Tape) + stage_if(
        u.do_record_noise,
        Stage::RecordNoise,
    ) + stage_if(u.do_analogfilter, Stage::Analog) + stage_if(u.do_speakerfilter, Stage::Speaker)
}

/// The place of a stage in the running order.
pub open spec fn stage_rank(x: Stage) -> int {
    match x {
        Stage::Playback => 0,
        Stage::Tape => 1,
        Stage::RecordNoise => 2,
        Stage::Analog => 3,
        Stage::Speaker => 4,
    }
}

/// Whether the settings select stage `x`.
pub open spec fn selects(u: UsrInput, x: Stage) -> bool {
    match x {
        Stage::Playback => u.do_playbackf,
        Stage::Tape => u.do_tapefilter,
        Stage::RecordNoise => u.do_record_noise,
        Stage::Analog => u.do_analogfilter,
        Stage::Speaker => u.do_speakerfilter,
    }
}

/// Each stage of `s` comes strictly later in the running order than the one
/// before it.
pub open spec fn in_running_order(s: Seq<Stage>) -> bool {
    forall|i: int, j: int| 0 <= i < j < s.len() ==> stage_rank(s[i]) < stage_rank(s[j])
}

proof fn lemma_append_stage(s: Seq<Stage>, on: bool, x: Stage)
    requires
        in_running_order(s),
        forall|k: int| 0 <= k < s.len() ==> stage_rank(#[trigger] s[k]) < stage_rank(x),
    ensures
        in_running_order(s + stage_if(on, x)),
        forall|k: int|
            0 <= k < (s + stage_if(on, x)).len() ==> stage_rank(#[trigger] (s + stage_if(on, x))[k])
                <= stage_rank(x),
        forall|y: Stage| #[trigger]
            (s + stage_if(on, x)).contains(y) == (s.contains(y) || (on && y == x)),
{
    let t = s + stage_if(on, x);
    assert forall|k: int| 0 <= k < s.len() implies t[k] == s[k] by {}
    if on {
        assert(t[s.len() as int] == x);
    }
    assert forall|y: Stage| #[trigger] t.contains(y) == (s.contains(y) || (on && y == x)) by {
        if t.contains(y) {
            let k = choose|k: int| 0 <= k < t.len() && t[k] == y;
            if k < s.len() {
                assert(s[k] == y);
            }
        }
        if s.contains(y) {
            let k = choose|k: int| 0 <= k < s.len() && s[k] == y;
            assert(t[k] == y);
        }
        if on && y == x {
            assert(t[s.len() as int] == y);
        }
    }
}

/// The plan holds exactly the selected stages, and always in the running
/// order playback, tape, record noise, analog, speaker, whatever the
/// selection: of two selected stages the one earlier in that order runs
/// first.
pub proof fn lemma_stage_order(u: UsrInput)
    ensures
        in_running_order(stages_of(u)),
        forall|x: Stage| #[trigger] stages_of(u).contains(x) == selects(u, x),
{
    let e = Seq::<Stage>::empty();
    lemma_append_stage(e, u.do_playbackf, Stage::Playback);
    let s1 = e + stage_if(u.do_playbackf, Stage::Playback);
    assert(s1 =~= stage_if(u.do_playbackf, Stage::Playback));
    lemma_append_stage(s1, u.do_tapefilter, Stage::Tape);
    let s2 = s1 + stage_if(u.do_tapefilter, Stage::Tape);
    lemma_append_stage(s2, u.do_record_noise, Stage::RecordNoise);
    let s3 = s2 + stage_if(u.do_record_noise, Stage::RecordNoise);
    lemma_append_stage(s3, u.do_analogfilter, Stage::Analog);
    let s4 = s3 + stage_if(u.do_analogfilter, Stage::Analog);
    lemma_append_stage(s4, u.do_speakerfilter, Stage::Speaker);
    let s5 = s4 + stage_if(u.do_speakerfilter, Stage::Speaker);
    assert(s5 == stages_of(u));
    assert forall|x: Stage| #[trigger] stages_of(u).contains(x) == selects(u, x) by {
        assert(!e.contains(x));
        assert(s5.contains(x) == (s4.contains(x) || (u.do_speakerfilter && x == Stage::Speaker)));
        assert(s4.contains(x) == (s3.contains(x) || (u.do_analogfilter && x == Stage::Analog)));
        assert(s3.contains(x) == (s2.contains(x) || (u.do_record_noise && x
            == Stage::RecordNoise)));
        assert(s2.contains(x) == (s1.contains(x) || (u.do_tapefilter && x == Stage::Tape)));
        assert(s1.contains(x) == (e.contains(x) || (u.do_playbackf && x == Stage::Playback)));
    }
}

/// The stages a run performs, in order.
pub fn stage_plan(u: &UsrInput) -> (r: Vec<Stage>)
    ensures
        r@ == stages_of(*u),
{
    let mut r: Vec<Stage> = Vec::new();
    if u.do_playbackf {
        r.push(Stage::Playback);
    }
    assert(r@ =~= stage_if(u.do_playbackf, Stage::Playback));
    let ghost a = r@;
    if u.do_tapefilter {
        r.push(Stage::Tape);
    }
    assert(r@ =~= a + stage_if(u.do_tapefilter, Stage::Tape));
    let ghost b = r@;
    if u.do_record_noise {
        r.push(Stage::RecordNoise);
    }
    assert(r@ =~= b + stage_if(u.do_record_noise, Stage::RecordNoise));
    let ghost c = r@;
    if u.do_analogfilter {
        r.push(Stage::Analog);
    }
    assert(r@ =~= c + stage_if(u.do_analogfilter, Stage::Analog));
    let ghost d = r@;
    if u.do_speakerfilter {
        r.push(Stage::Speaker);
    }
    assert(r@ =~= d + stage_if(u.do_speakerfilter, Stage::Speaker));
    r
}

/// Whether any filter stage is selected; a run with none processes nothing.
pub fn any_filter_selected(u: &UsrInput) -> (r: bool)
    ensures
        r == (u.do_playbackf || u.do_tapefilter || u.do_record_noise || u.do_analogfilter
            || u.do_speakerfilter),
        r == (stages_of(*u).len() > 0),
{
    u.do_playbackf || u.do_tapefilter || u.do_record_noise || u.do_analogfilter
        || u.do_speakerfilter
}

/// The filters work at four times the input's sample rate.
pub fn oversampled_rate(framerate: u32) -> (r: u32)
    requires
        framerate * 4 <= u32::MAX,
    ensures
        r == framerate * 4,
{
    framerate * 4
}

} // verus!
