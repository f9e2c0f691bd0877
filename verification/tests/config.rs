use devlog::color::{Color, ColorWriter};
use devlog::digits::{decimal_string, two_digit_string};
use devlog::thread_pad::{right_align, WidestNameTracker};

#[test]
fn builder_defaults() {
    let b = devlog::fmt();
    assert!(b.event_format.display_timestamp);
    assert!(b.event_format.display_target);
    assert!(b.event_format.display_level);
    assert!(!b.event_format.display_thread_id);
    assert!(!b.event_format.display_thread_name);
    assert!(!b.event_format.display_filename);
    assert!(!b.event_format.display_line_number);
}

#[test]
fn builder_toggles_stick() {
    let b = devlog::fmt()
        .with_target(false)
        .with_level(false)
        .with_thread_ids(true)
        .with_thread_names(true)
        .with_file(true)
        .with_line_number(true);
    assert!(!b.event_format.display_target);
    assert!(!b.event_format.display_level);
    assert!(b.event_format.display_thread_id);
    assert!(b.event_format.display_thread_name);
    assert!(b.event_format.display_filename);
    assert!(b.event_format.display_line_number);
    assert!(b.event_format.display_timestamp);
}

#[test]
fn without_time_clears_timestamp_only() {
    let b = devlog::fmt().with_thread_ids(true).without_time();
    assert!(!b.event_format.display_timestamp);
    assert!(b.event_format.display_thread_id);
    assert!(b.event_format.display_target);
}

#[test]
fn source_location_sets_both() {
    let b = devlog::fmt().with_source_location(true);
    assert!(b.event_format.display_filename);
    assert!(b.event_format.display_line_number);
    let b = b.with_source_location(false);
    assert!(!b.event_format.display_filename);
    assert!(!b.event_format.display_line_number);
}

#[test]
fn color_writer_wraps_only_when_permitted() {
    let mut w = ColorWriter::new(true);
    w.write_with_color("hi", Color::Red);
    assert_eq!(w.buf, "\u{1b}[31mhi\u{1b}[0m");

    let mut w = ColorWriter::new(false);
    w.write_with_color("hi", Color::Red);
    assert_eq!(w.buf, "hi");
}

#[test]
fn color_writer_set_and_reset() {
    let mut w = ColorWriter::new(true);
    w.set_color(Color::Gray);
    w.write_str("x");
    w.reset_color();
    assert_eq!(w.buf, "\u{1b}[37mx\u{1b}[0m");

    let mut w = ColorWriter::new(false);
    w.set_color(Color::Gray);
    w.write_str("x");
    w.reset_color();
    assert_eq!(w.buf, "x");
}

#[test]
fn decimal_renderings() {
    assert_eq!(decimal_string(0), "0");
    assert_eq!(decimal_string(7), "7");
    assert_eq!(decimal_string(8080), "8080");
    assert_eq!(decimal_string(4294967295), "4294967295");
    assert_eq!(two_digit_string(0), "00");
    assert_eq!(two_digit_string(9), "09");
    assert_eq!(two_digit_string(59), "59");
}

#[test]
fn widest_tracker_reaches_maximum() {
    let mut t = WidestNameTracker::new();
    assert_eq!(t.current(), 0);
    for len in [3usize, 11, 7, 11, 2] {
        t.observe(len);
    }
    assert_eq!(t.current(), 11);
}

#[test]
fn widest_tracker_is_order_independent() {
    let orders: [[usize; 4]; 3] = [[1, 9, 4, 9], [9, 9, 4, 1], [4, 1, 9, 9]];
    for lens in orders {
        let mut t = WidestNameTracker::new();
        for len in lens {
            t.observe(len);
        }
        assert_eq!(t.current(), 9);
    }
}

#[test]
fn right_align_pads_on_the_left() {
    assert_eq!(right_align("main", 6), "  main");
    assert_eq!(right_align("worker", 6), "worker");
    assert_eq!(right_align("longest", 6), "longest");
    assert_eq!(right_align("", 3), "   ");
}
