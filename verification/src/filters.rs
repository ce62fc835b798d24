//! Presets of the filter stages.
use vstd::prelude::*;
use crate::text::text_equals;

verus! {

/// High-pass and low-pass cut-off frequencies in Hz of each playback
/// character preset; unknown presets fall back to preset `"1"`.
pub open spec fn playback_cutoffs_of(sel: Seq<char>) -> (u32, u32) {
    if sel == seq!['2'] {
        (16, 3390)
    } else if sel == seq!['3'] {
        (10, 9000)
    } else if sel == seq!['4'] {
        (100, 4994)
    } else if sel == seq!['5'] {
        (40, 5994)
    } else {
        (10, 7992)
    }
}

fn is_digit_text(sel: &str, d: char) -> (r: bool)
    ensures
        r == (sel@ == seq![d]),
{
    let one: [char; 1] = [d];
    assert(one@ =~= seq![d]);
    text_equals(sel, one.as_slice())
}

/// The cut-off frequencies of the playback character filter for preset `sel`:
/// 1 balanced hi-fi, 2 muffled lo-fi, 3 bright hi-fi, 4 RF CRT, 5 composite
/// CRT. The high-pass edge always lies below the low-pass edge.
pub fn playback_cutoffs(sel: &str) -> (r: (u32, u32))
    ensures
        r == playback_cutoffs_of(sel@),
        0 < r.0 < r.1,
{
    if is_digit_text(sel, '1') {
        assert(sel@[0] == '1');
        (10, 7992)
    } else if is_digit_text(sel, '2') {
        (16, 3390)
    } else if is_digit_text(sel, '3') {
        (10, 9000)
    } else if is_digit_text(sel, '4') {
        (100, 4994)
    } else if is_digit_text(sel, '5') {
        (40, 5994)
    } else {
        (10, 7992)
    }
}

/// The level in dB of the dither added by the analog stage for `out_bit`
/// output bytes per sample: -114 dB for 24 and 32 bit, -93 dB otherwise.
pub fn dither_level_db(out_bit: u16) -> (db: i32)
    ensures
        db == (if out_bit == 3 || out_bit == 4 {
            -114i32
        } else {
            -93i32
        }),
{
    if out_bit == 3 || out_bit == 4 {
        -114
    } else {
        -93
    }
}

} // verus!
