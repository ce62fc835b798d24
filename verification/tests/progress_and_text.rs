use retro_wav::progress::{set_thread_progress, should_update_progress, thread_progress_if};
use retro_wav::text::{is_whitespace_char, lowercase_equals, text_equals, trim_str};

#[test]
fn progress_due_every_interval() {
    assert!(should_update_progress(0, 2_000_000));
    assert!(should_update_progress(4_000_000, 2_000_000));
    assert!(!should_update_progress(1, 2_000_000));
}

#[test]
fn progress_interval_zero_never_due() {
    assert!(!should_update_progress(0, 0));
    assert!(!should_update_progress(7, 0));
}

#[test]
fn set_thread_progress_writes_one_slot() {
    let mut list = vec![0usize, 0, 0];
    set_thread_progress(&mut list, 1, 42);
    assert_eq!(list, vec![0, 42, 0]);
}

#[test]
fn thread_progress_if_updates_only_when_due() {
    let mut list = vec![5usize, 5];
    thread_progress_if(3, 1_000_000, &mut list, 0);
    assert_eq!(list, vec![5, 5]);
    thread_progress_if(2_000_000, 1_000_000, &mut list, 1);
    assert_eq!(list, vec![5, 2_000_000]);
}

#[test]
fn thread_progress_if_not_due_ignores_index() {
    let mut list: Vec<usize> = vec![];
    thread_progress_if(1, 0, &mut list, 9);
    assert!(list.is_empty());
}

#[test]
fn trim_removes_unicode_white_space() {
    assert_eq!(trim_str("  a b \n"), "a b");
    assert_eq!(trim_str("\u{3000}y\u{2003}"), "y");
    assert_eq!(trim_str(" \t\r\n"), "");
    assert_eq!(trim_str("x"), "x");
    assert_eq!(trim_str("\u{200B}x"), "\u{200B}x");
}

#[test]
fn whitespace_matches_std() {
    for u in 0u32..0x3100 {
        if let Some(c) = char::from_u32(u) {
            assert_eq!(is_whitespace_char(c), c.is_whitespace(), "{:x}", u);
        }
    }
}

#[test]
fn lowercase_comparison_is_ascii_only() {
    assert!(lowercase_equals("WaV", &['w', 'a', 'v']));
    assert!(!lowercase_equals("wavx", &['w', 'a', 'v']));
    assert!(!lowercase_equals("WÄV", &['w', 'ä', 'v']));
    assert!(text_equals("-1", &['-', '1']));
    assert!(!text_equals("-1", &['-', '2']));
}
