use devlog::color::ColorWriter;
use devlog::event_format::{DevLogEventFormat, Level, Record, SpanEntry};
use devlog::field_format::{FieldValue, LogField};
use devlog::time_format::{DevLogTimeFormat, FormatTime};

fn record(level: Level, target: &str, fields: Vec<LogField>) -> Record {
    Record {
        level,
        target: String::from(target),
        file: None,
        line: None,
        fields,
        spans: vec![],
        thread_name: None,
        thread_id: None,
    }
}

fn debug_field(name: &str, text: &str) -> LogField {
    LogField { name: String::from(name), value: FieldValue::Debug(String::from(text)) }
}

/// A formatter with every display toggle off except the level, and no timer.
fn level_only() -> DevLogEventFormat<()> {
    devlog::fmt().without_time().with_target(false).event_format
}

#[test]
fn default_config_end_to_end() {
    let fmt = DevLogEventFormat::new();
    let mut w = ColorWriter::new(false);
    let rec = record(
        Level::Info,
        "app::main",
        vec![debug_field("message", "server started"), debug_field("port", "8080")],
    );
    fmt.format_event(&mut w, &rec);
    let out = w.buf.as_bytes();
    // `[HH:MM:SS] ` then the fixed remainder; the clock value varies.
    assert_eq!(out[0], b'[');
    assert!(out[1].is_ascii_digit() && out[2].is_ascii_digit());
    assert_eq!(out[3], b':');
    assert!(out[4].is_ascii_digit() && out[5].is_ascii_digit());
    assert_eq!(out[6], b':');
    assert!(out[7].is_ascii_digit() && out[8].is_ascii_digit());
    assert_eq!(out[9], b']');
    assert_eq!(out[10], b' ');
    let hours = (out[1] - b'0') * 10 + (out[2] - b'0');
    let minutes = (out[4] - b'0') * 10 + (out[5] - b'0');
    let seconds = (out[7] - b'0') * 10 + (out[8] - b'0');
    assert!(hours < 24 && minutes < 60 && seconds < 60);
    assert_eq!(
        &w.buf[11..],
        "INFO: server started\n  port: 8080\n  source: app::main\n"
    );
}

#[test]
fn error_with_consumed_cause_end_to_end() {
    let fmt = level_only();
    let mut w = ColorWriter::new(false);
    let fields = vec![LogField {
        name: String::from("cause"),
        value: FieldValue::Error {
            message: String::from("disk full"),
            causes: vec![String::from("device busy")],
        },
    }];
    let mut rec = record(Level::Error, "ignored", fields);
    rec.target = String::from("ignored");
    fmt.format_event(&mut w, &rec);
    // The outer message is the headline; its one cause, having no further
    // cause, renders as a single plain context field.
    assert_eq!(w.buf, "ERROR: disk full\n  cause: device busy\n");
}

#[test]
fn span_chain_end_to_end() {
    let fmt = level_only();
    let mut w = ColorWriter::new(false);
    let mut rec = record(Level::Info, "t", vec![debug_field("status", "200")]);
    rec.spans = vec![SpanEntry {
        name: String::from("request"),
        fields: String::from("method: \"GET\""),
    }];
    fmt.format_event(&mut w, &rec);
    assert_eq!(w.buf, "INFO: status: 200\n  span:\n    - request { method: \"GET\" } \n");
}

#[test]
fn nested_spans_outermost_first() {
    let fmt = level_only();
    let mut w = ColorWriter::new(false);
    let mut rec = record(Level::Debug, "t", vec![]);
    rec.spans = vec![
        SpanEntry { name: String::from("outer"), fields: String::from("") },
        SpanEntry { name: String::from("inner"), fields: String::from("k: 1") },
    ];
    fmt.format_event(&mut w, &rec);
    assert_eq!(w.buf, "DEBUG: \n  span:\n    - outer\n    - inner { k: 1 } \n");
}

#[test]
fn level_texts_and_colors() {
    for (level, text, code) in [
        (Level::Trace, "TRACE", "\u{1b}[35m"),
        (Level::Debug, "DEBUG", "\u{1b}[0;34m"),
        (Level::Info, "INFO", "\u{1b}[32m"),
        (Level::Warn, "WARN", "\u{1b}[33m"),
        (Level::Error, "ERROR", "\u{1b}[31m"),
    ] {
        let fmt = level_only();
        let mut w = ColorWriter::new(true);
        let rec = record(level, "t", vec![]);
        fmt.format_event(&mut w, &rec);
        let expected = format!(
            "{code}{text}\u{1b}[0m\u{1b}[37m:\u{1b}[0m \n"
        );
        assert_eq!(w.buf, expected);
    }
}

#[test]
fn source_combinations() {
    let cases: [(bool, bool, bool, &str); 8] = [
        (true, true, true, "\n  source: app (main.rs:7)"),
        (true, true, false, "\n  source: app (main.rs)"),
        (true, false, true, "\n  source: app (7)"),
        (true, false, false, "\n  source: app"),
        (false, true, true, "\n  source: main.rs:7"),
        (false, true, false, "\n  source: main.rs"),
        (false, false, true, "\n  source: 7"),
        (false, false, false, ""),
    ];
    for (with_target, with_file, with_line, expected) in cases {
        let b = devlog::fmt()
            .without_time()
            .with_level(false)
            .with_target(with_target)
            .with_file(with_file)
            .with_line_number(with_line);
        let mut w = ColorWriter::new(false);
        let mut rec = record(Level::Info, "app", vec![]);
        rec.file = Some(String::from("main.rs"));
        rec.line = Some(7);
        b.event_format.format_event(&mut w, &rec);
        assert_eq!(w.buf, format!("{expected}\n"), "toggles: {with_target} {with_file} {with_line}");
    }
}

#[test]
fn source_respects_missing_pieces() {
    let b = devlog::fmt().without_time().with_level(false).with_source_location(true);
    let mut w = ColorWriter::new(false);
    let rec = record(Level::Info, "app", vec![]);
    b.event_format.format_event(&mut w, &rec);
    // file and line are absent from the record, so only the target remains.
    assert_eq!(w.buf, "\n  source: app\n");
}

#[test]
fn thread_info_combinations() {
    let cases: [(bool, bool, &str); 4] = [
        (true, true, "\n  thread: worker [ThreadId(3)]"),
        (true, false, "\n  thread: worker"),
        (false, true, "\n  thread: [ThreadId(3)]"),
        (false, false, ""),
    ];
    for (with_names, with_ids, expected) in cases {
        let b = devlog::fmt()
            .without_time()
            .with_level(false)
            .with_target(false)
            .with_thread_names(with_names)
            .with_thread_ids(with_ids);
        let mut w = ColorWriter::new(false);
        let mut rec = record(Level::Info, "t", vec![]);
        rec.thread_name = Some(String::from("worker"));
        rec.thread_id = Some(String::from("ThreadId(3)"));
        b.event_format.format_event(&mut w, &rec);
        assert_eq!(w.buf, format!("{expected}\n"));
    }
}

#[test]
fn line_number_renders_in_decimal() {
    let b = devlog::fmt().without_time().with_level(false).with_target(false).with_line_number(
        true,
    );
    let mut w = ColorWriter::new(false);
    let mut rec = record(Level::Info, "t", vec![]);
    rec.line = Some(4294967295);
    b.event_format.format_event(&mut w, &rec);
    assert_eq!(w.buf, "\n  source: 4294967295\n");
}

#[test]
fn no_escapes_anywhere_when_ansi_disabled() {
    let fmt = DevLogEventFormat::new();
    let mut w = ColorWriter::new(false);
    let mut rec = record(
        Level::Warn,
        "app::sub",
        vec![
            debug_field("message", "careful"),
            debug_field("k", "v"),
            LogField {
                name: String::from("err"),
                value: FieldValue::Error {
                    message: String::from("boom"),
                    causes: vec![String::from("c1"), String::from("c2")],
                },
            },
        ],
    );
    rec.spans = vec![SpanEntry { name: String::from("s"), fields: String::from("a: 1") }];
    rec.file = Some(String::from("lib.rs"));
    rec.line = Some(10);
    rec.thread_name = Some(String::from("main"));
    fmt.format_event(&mut w, &rec);
    assert!(!w.buf.contains('\u{1b}'));
}

#[test]
fn timestamp_has_clock_shape() {
    let timer = DevLogTimeFormat::default();
    let mut w = ColorWriter::new(false);
    let ok = timer.format_time(&mut w);
    assert!(ok);
    let out = w.buf.as_bytes();
    assert_eq!(out.len(), 10);
    assert_eq!(out[0], b'[');
    assert_eq!(out[9], b']');
    assert_eq!(out[3], b':');
    assert_eq!(out[6], b':');
    for i in [1, 2, 4, 5, 7, 8] {
        assert!(out[i].is_ascii_digit());
    }
    let hours = (out[1] - b'0') * 10 + (out[2] - b'0');
    assert!(hours < 24);
}
