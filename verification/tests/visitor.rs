use devlog::color::ColorWriter;
use devlog::field_format::{DevLogFieldFormat, FieldValue, LogField, VisitorMode};

fn event_visitor() -> devlog::field_format::DevLogFieldVisitor {
    DevLogFieldFormat::default().make_event_visitor()
}

fn span_visitor() -> devlog::field_format::DevLogFieldVisitor {
    DevLogFieldFormat::default().make_visitor()
}

#[test]
fn plain_fields_delimited_after_first() {
    let mut w = ColorWriter::new(false);
    let mut v = event_visitor();
    v.record_debug(&mut w, "a", "1");
    v.record_debug(&mut w, "b", "2");
    v.record_debug(&mut w, "c", "3");
    assert_eq!(w.buf, "a: 1\n  b: 2\n  c: 3");
}

#[test]
fn message_first_becomes_headline() {
    let mut w = ColorWriter::new(false);
    let mut v = event_visitor();
    v.record_debug(&mut w, "message", "server started");
    v.record_debug(&mut w, "port", "8080");
    assert_eq!(w.buf, "server started\n  port: 8080");
}

#[test]
fn message_not_first_gets_label() {
    let mut w = ColorWriter::new(false);
    let mut v = event_visitor();
    v.record_debug(&mut w, "port", "8080");
    v.record_debug(&mut w, "message", "late");
    assert_eq!(w.buf, "port: 8080\n  message: late");
}

#[test]
fn near_message_name_is_not_promoted() {
    let mut w = ColorWriter::new(false);
    let mut v = event_visitor();
    v.record_debug(&mut w, "messagex", "text");
    assert_eq!(w.buf, "messagex: text");
}

#[test]
fn error_chain_renders_one_item_per_message() {
    let mut w = ColorWriter::new(false);
    let mut v = event_visitor();
    let causes = vec![String::from("c1"), String::from("c2")];
    v.record_error(&mut w, "err", "boom", &causes);
    assert_eq!(w.buf, "err:\n    - boom\n    - c1\n    - c2");
}

#[test]
fn error_without_cause_is_plain_field() {
    let mut w = ColorWriter::new(false);
    let mut v = event_visitor();
    v.record_debug(&mut w, "message", "hi");
    let causes: Vec<String> = vec![];
    v.record_error(&mut w, "err", "boom", &causes);
    assert_eq!(w.buf, "hi\n  err: boom");
}

#[test]
fn first_error_named_cause_promotes_message() {
    let mut w = ColorWriter::new(false);
    let mut v = event_visitor();
    let causes = vec![String::from("c1"), String::from("c2")];
    v.record_error(&mut w, "cause", "boom", &causes);
    assert_eq!(w.buf, "boom\n  cause:\n    - c1\n    - c2");
}

#[test]
fn promoted_cause_with_single_cause_renders_plain_field() {
    let mut w = ColorWriter::new(false);
    let mut v = event_visitor();
    let causes = vec![String::from("device busy")];
    v.record_error(&mut w, "cause", "disk full", &causes);
    assert_eq!(w.buf, "disk full\n  cause: device busy");
}

#[test]
fn promoted_cause_without_cause_is_headline_alone() {
    let mut w = ColorWriter::new(false);
    let mut v = event_visitor();
    let causes: Vec<String> = vec![];
    v.record_error(&mut w, "cause", "disk full", &causes);
    assert_eq!(w.buf, "disk full");
}

#[test]
fn first_error_not_named_cause_is_not_promoted() {
    let mut w = ColorWriter::new(false);
    let mut v = event_visitor();
    let causes: Vec<String> = vec![];
    v.record_error(&mut w, "fault", "boom", &causes);
    assert_eq!(w.buf, "fault: boom");
}

#[test]
fn span_mode_separates_with_commas() {
    let mut w = ColorWriter::new(false);
    let mut v = span_visitor();
    v.record_debug(&mut w, "method", "\"GET\"");
    v.record_debug(&mut w, "path", "\"/\"");
    assert_eq!(w.buf, "method: \"GET\", path: \"/\"");
}

#[test]
fn span_mode_does_not_promote_message() {
    let mut w = ColorWriter::new(false);
    let mut v = span_visitor();
    v.record_debug(&mut w, "message", "kept");
    assert_eq!(w.buf, "message: kept");
}

#[test]
fn no_escapes_when_ansi_disabled() {
    let mut w = ColorWriter::new(false);
    let mut v = event_visitor();
    v.record_debug(&mut w, "message", "hello");
    v.record_debug(&mut w, "k", "v");
    let causes = vec![String::from("c1")];
    v.record_error(&mut w, "err", "boom", &causes);
    assert!(!w.buf.contains('\u{1b}'));
}

#[test]
fn ansi_colors_field_names() {
    let mut w = ColorWriter::new(true);
    let mut v = event_visitor();
    v.record_debug(&mut w, "k", "v");
    assert_eq!(w.buf, "\u{1b}[36mk\u{1b}[37m:\u{1b}[0m v");
}

#[test]
fn delimiter_strings() {
    assert_eq!(VisitorMode::Event.delimiter(false), "\n  ");
    assert_eq!(VisitorMode::Event.delimiter(true), "\n  ");
    assert_eq!(VisitorMode::Span.delimiter(false), ", ");
    assert_eq!(VisitorMode::Span.delimiter(true), "\u{1b}[37m,\u{1b}[0m ");
}

#[test]
fn fields_vector_matches_visitor_calls() {
    let fields = vec![
        LogField { name: String::from("message"), value: FieldValue::Debug(String::from("hi")) },
        LogField { name: String::from("note"), value: FieldValue::Display(String::from("raw")) },
    ];
    let b = devlog::fmt().without_time().with_target(false);
    let mut w = ColorWriter::new(false);
    let rec = devlog::event_format::Record {
        level: devlog::event_format::Level::Info,
        target: String::from("t"),
        file: None,
        line: None,
        fields,
        spans: vec![],
        thread_name: None,
        thread_id: None,
    };
    b.event_format.format_event(&mut w, &rec);
    assert_eq!(w.buf, "INFO: hi\n  note: raw\n");
}
