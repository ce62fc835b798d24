use retro_wav::filters::{dither_level_db, playback_cutoffs};
use retro_wav::pipeline::{any_filter_selected, oversampled_rate, stage_plan, Stage};
use retro_wav::usrsel::UsrInput;

#[test]
fn playback_presets() {
    assert_eq!(playback_cutoffs("1"), (10, 7992));
    assert_eq!(playback_cutoffs("2"), (16, 3390));
    assert_eq!(playback_cutoffs("3"), (10, 9000));
    assert_eq!(playback_cutoffs("4"), (100, 4994));
    assert_eq!(playback_cutoffs("5"), (40, 5994));
    assert_eq!(playback_cutoffs("9"), (10, 7992));
    for sel in ["1", "2", "3", "4", "5", "", "x"] {
        let (hp, lp) = playback_cutoffs(sel);
        assert!(0 < hp && hp < lp);
    }
}

#[test]
fn dither_levels() {
    assert_eq!(dither_level_db(2), -93);
    assert_eq!(dither_level_db(3), -114);
    assert_eq!(dither_level_db(4), -114);
    assert_eq!(dither_level_db(1), -93);
}

fn settings(flags: [bool; 5]) -> UsrInput {
    UsrInput {
        do_playbackf: flags[0],
        do_tapefilter: flags[1],
        do_record_noise: flags[2],
        do_analogfilter: flags[3],
        do_speakerfilter: flags[4],
        do_playback_sel_01: "1".to_string(),
        out_freq: 44100,
        out_bit: 2,
        clip_protect: false,
    }
}

#[test]
fn nothing_selected_means_nothing_to_do() {
    assert!(!any_filter_selected(&settings([false; 5])));
    assert!(any_filter_selected(&settings([false, false, true, false, false])));
}

#[test]
fn filters_run_oversampled_four_times() {
    assert_eq!(oversampled_rate(44100), 176400);
    assert_eq!(oversampled_rate(96000), 384000);
}

#[test]
fn stages_run_in_fixed_order() {
    assert_eq!(stage_plan(&settings([true; 5])).len(), 5);
    assert!(stage_plan(&settings([true; 5])) == vec![Stage::Playback, Stage::Tape, Stage::RecordNoise, Stage::Analog, Stage::Speaker]);
    assert!(stage_plan(&settings([false, true, false, false, true])) == vec![Stage::Tape, Stage::Speaker]);
    assert!(stage_plan(&settings([false; 5])).is_empty());
}
