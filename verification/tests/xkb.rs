use tizen::text::decimal;
use tizen::egl::valid_window_size;
use tizen::xkb::{keycodes_for_keysym, keysym_name_len, level0_keysym};

#[test]
fn keycodes_found_in_order() {
    let syms = vec![vec![1, 2], vec![], vec![2], vec![3, 2, 2]];
    assert_eq!(keycodes_for_keysym(2, 8, &syms), vec![8, 10, 11]);
    assert_eq!(keycodes_for_keysym(3, 8, &syms), vec![11]);
    assert_eq!(keycodes_for_keysym(9, 8, &syms), Vec::<u32>::new());
}

#[test]
fn unknown_keysym_has_no_keycodes() {
    let syms = vec![vec![0], vec![0]];
    assert!(keycodes_for_keysym(0, 8, &syms).is_empty());
}

#[test]
fn decimal_rendering() {
    assert_eq!(decimal(0), "0");
    assert_eq!(decimal(7), "7");
    assert_eq!(decimal(1234567890), "1234567890");
    assert_eq!(decimal(-42), "-42");
    assert_eq!(decimal(i64::MIN), "-9223372036854775808");
    assert_eq!(decimal(i64::MAX), "9223372036854775807");
}

#[test]
fn level0_keysyms_and_name_lengths() {
    assert_eq!(level0_keysym(&vec![0xff1b, 0x61]), Some(0xff1b));
    assert_eq!(level0_keysym(&vec![0, 0x61]), None);
    assert_eq!(level0_keysym(&vec![]), None);
    assert_eq!(keysym_name_len(6), Some(6));
    assert_eq!(keysym_name_len(0), None);
    assert_eq!(keysym_name_len(-1), None);
}

#[test]
fn egl_window_sizes() {
    assert!(valid_window_size(1920, 1080));
    assert!(!valid_window_size(0, 1080));
    assert!(!valid_window_size(1920, 0));
}
