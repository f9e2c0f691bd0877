//! The event formatter: orchestrates one full record — timestamp, level,
//! fields, the active span chain, target and source location, thread info —
//! in a fixed order, terminated by a newline.

use crate::color::{esc_free, lemma_esc_free_concat, spec_colored, spec_reset, spec_set, Color,
    ColorWriter};
use crate::digits::{decimal_string, lemma_decimal_esc_free, spec_decimal};
use crate::field_format::{lemma_fields_esc_free, lemma_fields_push, lemma_field_name_esc_free,
    spec_field_name_text, spec_fields, spec_fields_esc_free, DevLogFieldFormat, FieldValue,
    LogField, LogFieldView};
use crate::field_format::VisitorMode;
use crate::time_format::{DevLogTimeFormat, FormatTime};
use vstd::prelude::*;

verus! {

/// A record's severity, in ascending order.
#[derive(Clone, Copy, PartialEq, Eq, Structural, Debug)]
pub enum Level {
    Trace,
    Debug,
    Info,
    Warn,
    Error,
}

pub open spec fn spec_level_text(l: Level) -> Seq<char> {
    match l {
        Level::Trace => "TRACE"@,
        Level::Debug => "DEBUG"@,
        Level::Info => "INFO"@,
        Level::Warn => "WARN"@,
        Level::Error => "ERROR"@,
    }
}

/// The fixed level-to-color mapping.
pub open spec fn spec_level_color(l: Level) -> Color {
    match l {
        Level::Trace => Color::Magenta,
        Level::Debug => Color::Blue,
        Level::Info => Color::Green,
        Level::Warn => Color::Yellow,
        Level::Error => Color::Red,
    }
}

pub fn level_text(l: Level) -> (r: &'static str)
    ensures
        r@ == spec_level_text(l),
{
    match l {
        Level::Trace => "TRACE",
        Level::Debug => "DEBUG",
        Level::Info => "INFO",
        Level::Warn => "WARN",
        Level::Error => "ERROR",
    }
}

pub fn level_color(l: Level) -> (r: Color)
    ensures
        r == spec_level_color(l),
{
    match l {
        Level::Trace => Color::Magenta,
        Level::Debug => Color::Blue,
        Level::Info => Color::Green,
        Level::Warn => Color::Yellow,
        Level::Error => Color::Red,
    }
}

/// One active span as the renderer sees it: its display name and its cached
/// rendered field text, computed once at span entry and immutable afterwards.
pub struct SpanEntry {
    pub name: String,
    pub fields: String,
}

pub struct SpanEntryView {
    pub name: Seq<char>,
    pub fields: Seq<char>,
}

impl View for SpanEntry {
    type V = SpanEntryView;

    open spec fn view(&self) -> SpanEntryView {
        SpanEntryView { name: self.name@, fields: self.fields@ }
    }
}

impl DeepView for SpanEntry {
    type V = SpanEntryView;

    open spec fn deep_view(&self) -> SpanEntryView {
        self.view()
    }
}

/// One emitted record: severity, target, optional source location, the field
/// sequence in arrival order, the chain of active spans from outermost to
/// innermost, and the emitting thread's name and id (the id as its default
/// structured rendering). Created by the caller at emission time, consumed by
/// one render, never kept.
pub struct Record {
    pub level: Level,
    pub target: String,
    pub file: Option<String>,
    pub line: Option<u32>,
    pub fields: Vec<LogField>,
    pub spans: Vec<SpanEntry>,
    pub thread_name: Option<String>,
    pub thread_id: Option<String>,
}

pub struct RecordView {
    pub level: Level,
    pub target: Seq<char>,
    pub file: Option<Seq<char>>,
    pub line: Option<u32>,
    pub fields: Seq<LogFieldView>,
    pub spans: Seq<SpanEntryView>,
    pub thread_name: Option<Seq<char>>,
    pub thread_id: Option<Seq<char>>,
}

impl View for Record {
    type V = RecordView;

    open spec fn view(&self) -> RecordView {
        RecordView {
            level: self.level,
            target: self.target@,
            file: self.file.deep_view(),
            line: self.line,
            fields: self.fields.deep_view(),
            spans: self.spans.deep_view(),
            thread_name: self.thread_name.deep_view(),
            thread_id: self.thread_id.deep_view(),
        }
    }
}

/// A field-name-style label on its own indented line, as the event formatter
/// writes it before the span chain, the source and the thread info.
pub open spec fn spec_label(ansi: bool, name: Seq<char>) -> Seq<char> {
    "\n  "@ + spec_field_name_text(ansi, name)
}

pub fn write_field_name(w: &mut ColorWriter, name: &str)
    ensures
        final(w).buf@ == old(w).buf@ + spec_label(old(w).ansi, name@),
        final(w).ansi == old(w).ansi,
{
    w.write_str("\n  ");
    w.set_color(Color::Cyan);
    w.write_str(name);
    w.write_with_color(":", Color::Gray);
    proof {
        assert(w.buf@ =~= old(w).buf@ + spec_label(old(w).ansi, name@));
    }
}

/// The timestamp chunk: the timer's text in gray, the literal placeholder
/// appended when the timer failed, and a trailing space.
pub open spec fn spec_timestamp(ansi: bool, t: Seq<char>, ok: bool) -> Seq<char> {
    spec_set(ansi, Color::Gray) + t + (if ok {
        Seq::<char>::empty()
    } else {
        "<unknown time>"@
    }) + spec_reset(ansi) + " "@
}

/// The level chunk: colored level text, a gray colon, a trailing space.
pub open spec fn spec_level_part(show: bool, ansi: bool, l: Level) -> Seq<char> {
    if show {
        spec_colored(ansi, spec_level_color(l), spec_level_text(l)) + spec_colored(
            ansi,
            Color::Gray,
            ":"@,
        ) + " "@
    } else {
        Seq::<char>::empty()
    }
}

/// One span of the chain: a newline, indentation, a gray bullet, the colored
/// span name, and — when the span has cached field text — that text in a
/// braced block.
pub open spec fn spec_span_item(ansi: bool, sp: SpanEntryView) -> Seq<char> {
    "\n    "@ + spec_colored(ansi, Color::Gray, "-"@) + " "@ + spec_colored(ansi, Color::Cyan, sp.name)
        + (if sp.fields.len() > 0 {
        " "@ + spec_colored(ansi, Color::Gray, "{"@) + " "@ + sp.fields + " "@ + spec_colored(
            ansi,
            Color::Gray,
            "}"@,
        )
    } else {
        Seq::<char>::empty()
    })
}

pub open spec fn spec_span_items(ansi: bool, spans: Seq<SpanEntryView>) -> Seq<char>
    decreases spans.len(),
{
    if spans.len() == 0 {
        Seq::<char>::empty()
    } else {
        spec_span_item(ansi, spans[0]) + spec_span_items(ansi, spans.drop_first())
    }
}

/// The span-chain chunk: a `"span"` label once, each active span from
/// outermost to innermost, and a trailing space; nothing when no span is
/// active.
pub open spec fn spec_spans(ansi: bool, spans: Seq<SpanEntryView>) -> Seq<char> {
    if spans.len() == 0 {
        Seq::<char>::empty()
    } else {
        spec_label(ansi, "span"@) + spec_span_items(ansi, spans) + " "@
    }
}

pub proof fn lemma_span_items_push(ansi: bool, spans: Seq<SpanEntryView>, sp: SpanEntryView)
    ensures
        spec_span_items(ansi, spans.push(sp)) == spec_span_items(ansi, spans) + spec_span_item(
            ansi,
            sp,
        ),
    decreases spans.len(),
{
    if spans.len() == 0 {
        assert(spans.push(sp)[0] == sp);
        assert(spans.push(sp).drop_first() =~= Seq::<SpanEntryView>::empty());
        assert(spec_span_items(ansi, spans.push(sp)) == spec_span_item(ansi, sp)
            + spec_span_items(ansi, spans.push(sp).drop_first()));
        assert(spec_span_items(ansi, spans.push(sp).drop_first()) == Seq::<char>::empty());
        assert(spec_span_items(ansi, spans) == Seq::<char>::empty());
        assert(spec_span_items(ansi, spans.push(sp)) =~= spec_span_items(ansi, spans)
            + spec_span_item(ansi, sp));
    } else {
        let tail = spans.drop_first();
        assert(spans.push(sp)[0] == spans[0]);
        assert(spans.push(sp).drop_first() =~= tail.push(sp));
        lemma_span_items_push(ansi, tail, sp);
        assert(spec_span_items(ansi, spans.push(sp)) == spec_span_item(ansi, spans[0])
            + spec_span_items(ansi, spans.push(sp).drop_first()));
        assert(spec_span_items(ansi, spans) == spec_span_item(ansi, spans[0])
            + spec_span_items(ansi, tail));
        assert(spec_span_items(ansi, spans.push(sp)) =~= spec_span_items(ansi, spans)
            + spec_span_item(ansi, sp));
    }
}

/// The target and source location composed into one piece: any of the seven
/// non-empty combinations of target, file name and line number.
pub open spec fn spec_source_body(
    t: Option<Seq<char>>,
    f: Option<Seq<char>>,
    l: Option<u32>,
) -> Seq<char> {
    match (t, f, l) {
        (Some(t), Some(f), Some(l)) => t + " ("@ + f + ":"@ + spec_decimal(l as int) + ")"@,
        (Some(t), Some(f), None) => t + " ("@ + f + ")"@,
        (Some(t), None, Some(l)) => t + " ("@ + spec_decimal(l as int) + ")"@,
        (Some(t), None, None) => t,
        (None, Some(f), Some(l)) => f + ":"@ + spec_decimal(l as int),
        (None, Some(f), None) => f,
        (None, None, Some(l)) => spec_decimal(l as int),
        (None, None, None) => Seq::<char>::empty(),
    }
}

/// The `"source"` chunk: a label, then the enabled pieces in one gray region;
/// nothing when no piece is enabled and present.
pub open spec fn spec_source(
    show_target: bool,
    show_file: bool,
    show_line: bool,
    ansi: bool,
    target: Seq<char>,
    file: Option<Seq<char>>,
    line: Option<u32>,
) -> Seq<char> {
    let t = if show_target {
        Some(target)
    } else {
        None
    };
    let f = if show_file {
        file
    } else {
        None
    };
    let l = if show_line {
        line
    } else {
        None
    };
    if t is None && f is None && l is None {
        Seq::<char>::empty()
    } else {
        spec_label(ansi, "source"@) + " "@ + spec_set(ansi, Color::Gray) + spec_source_body(t, f, l)
            + spec_reset(ansi)
    }
}

/// The thread info composed into one piece: the name, the id in square
/// brackets, or both.
pub open spec fn spec_thread_body(n: Option<Seq<char>>, i: Option<Seq<char>>) -> Seq<char> {
    match (n, i) {
        (Some(n), Some(i)) => n + " ["@ + i + "]"@,
        (Some(n), None) => n,
        (None, Some(i)) => "["@ + i + "]"@,
        (None, None) => Seq::<char>::empty(),
    }
}

/// The `"thread"` chunk: a label, then the enabled pieces in one gray region;
/// nothing when neither piece is enabled and present.
pub open spec fn spec_thread(
    show_name: bool,
    show_id: bool,
    ansi: bool,
    name: Option<Seq<char>>,
    id: Option<Seq<char>>,
) -> Seq<char> {
    let n = if show_name {
        name
    } else {
        None
    };
    let i = if show_id {
        id
    } else {
        None
    };
    if n is None && i is None {
        Seq::<char>::empty()
    } else {
        spec_label(ansi, "thread"@) + " "@ + spec_set(ansi, Color::Gray) + spec_thread_body(n, i)
            + spec_reset(ansi)
    }
}

/// Whether every span name and cached field text is free of escape
/// characters.
pub open spec fn spec_spans_esc_free(spans: Seq<SpanEntryView>) -> bool {
    forall|i: int|
        0 <= i < spans.len() ==> esc_free(#[trigger] spans[i].name) && esc_free(spans[i].fields)
}

/// Whether every text a record carries is free of escape characters.
pub open spec fn spec_record_esc_free(r: RecordView) -> bool {
    &&& esc_free(r.target)
    &&& match r.file {
        Some(f) => esc_free(f),
        None => true,
    }
    &&& spec_fields_esc_free(r.fields)
    &&& spec_spans_esc_free(r.spans)
    &&& match r.thread_name {
        Some(n) => esc_free(n),
        None => true,
    }
    &&& match r.thread_id {
        Some(i) => esc_free(i),
        None => true,
    }
}

pub proof fn lemma_label_esc_free(name: Seq<char>)
    requires
        esc_free(name),
    ensures
        esc_free(spec_label(false, name)),
{
    reveal_strlit("\n  ");
    lemma_field_name_esc_free(name);
    lemma_esc_free_concat("\n  "@, spec_field_name_text(false, name));
}

pub proof fn lemma_timestamp_esc_free(t: Seq<char>, ok: bool)
    requires
        esc_free(t),
    ensures
        esc_free(spec_timestamp(false, t, ok)),
{
    reveal_strlit("<unknown time>");
    reveal_strlit(" ");
    let placeholder: Seq<char> = if ok {
        Seq::<char>::empty()
    } else {
        "<unknown time>"@
    };
    lemma_esc_free_concat(Seq::<char>::empty(), t);
    lemma_esc_free_concat(Seq::<char>::empty() + t, placeholder);
    lemma_esc_free_concat(Seq::<char>::empty() + t + placeholder, Seq::<char>::empty());
    lemma_esc_free_concat(Seq::<char>::empty() + t + placeholder + Seq::<char>::empty(), " "@);
}

pub proof fn lemma_level_part_esc_free(show: bool, l: Level)
    ensures
        esc_free(spec_level_part(show, false, l)),
{
    if show {
        reveal_strlit("TRACE");
        reveal_strlit("DEBUG");
        reveal_strlit("INFO");
        reveal_strlit("WARN");
        reveal_strlit("ERROR");
        reveal_strlit(":");
        reveal_strlit(" ");
        lemma_esc_free_concat(spec_level_text(l), ":"@);
        lemma_esc_free_concat(spec_level_text(l) + ":"@, " "@);
    }
}

pub proof fn lemma_span_item_esc_free(sp: SpanEntryView)
    requires
        esc_free(sp.name),
        esc_free(sp.fields),
    ensures
        esc_free(spec_span_item(false, sp)),
{
    reveal_strlit("\n    ");
    reveal_strlit("-");
    reveal_strlit(" ");
    reveal_strlit("{");
    reveal_strlit("}");
    let head = "\n    "@ + "-"@ + " "@ + sp.name;
    lemma_esc_free_concat("\n    "@, "-"@);
    lemma_esc_free_concat("\n    "@ + "-"@, " "@);
    lemma_esc_free_concat("\n    "@ + "-"@ + " "@, sp.name);
    if sp.fields.len() > 0 {
        let block = " "@ + "{"@ + " "@ + sp.fields + " "@ + "}"@;
        lemma_esc_free_concat(" "@, "{"@);
        lemma_esc_free_concat(" "@ + "{"@, " "@);
        lemma_esc_free_concat(" "@ + "{"@ + " "@, sp.fields);
        lemma_esc_free_concat(" "@ + "{"@ + " "@ + sp.fields, " "@);
        lemma_esc_free_concat(" "@ + "{"@ + " "@ + sp.fields + " "@, "}"@);
        lemma_esc_free_concat(head, block);
    } else {
        lemma_esc_free_concat(head, Seq::<char>::empty());
    }
}

pub proof fn lemma_span_items_esc_free(spans: Seq<SpanEntryView>)
    requires
        spec_spans_esc_free(spans),
    ensures
        esc_free(spec_span_items(false, spans)),
    decreases spans.len(),
{
    if spans.len() > 0 {
        let tail = spans.drop_first();
        assert(forall|i: int| 0 <= i < tail.len() ==> tail[i] == spans[i + 1]);
        lemma_span_item_esc_free(spans[0]);
        lemma_span_items_esc_free(tail);
        lemma_esc_free_concat(spec_span_item(false, spans[0]), spec_span_items(false, tail));
    }
}

pub proof fn lemma_spans_esc_free(spans: Seq<SpanEntryView>)
    requires
        spec_spans_esc_free(spans),
    ensures
        esc_free(spec_spans(false, spans)),
{
    if spans.len() > 0 {
        reveal_strlit("span");
        reveal_strlit(" ");
        lemma_label_esc_free("span"@);
        lemma_span_items_esc_free(spans);
        lemma_esc_free_concat(spec_label(false, "span"@), spec_span_items(false, spans));
        lemma_esc_free_concat(spec_label(false, "span"@) + spec_span_items(false, spans), " "@);
    }
}

pub proof fn lemma_source_body_esc_free(
    t: Option<Seq<char>>,
    f: Option<Seq<char>>,
    l: Option<u32>,
)
    requires
        match t {
            Some(t) => esc_free(t),
            None => true,
        },
        match f {
            Some(f) => esc_free(f),
            None => true,
        },
    ensures
        esc_free(spec_source_body(t, f, l)),
{
    reveal_strlit(" (");
    reveal_strlit(")");
    reveal_strlit(":");
    match (t, f, l) {
        (Some(t), Some(f), Some(l)) => {
            lemma_decimal_esc_free(l as int);
            lemma_esc_free_concat(t, " ("@);
            lemma_esc_free_concat(t + " ("@, f);
            lemma_esc_free_concat(t + " ("@ + f, ":"@);
            lemma_esc_free_concat(t + " ("@ + f + ":"@, spec_decimal(l as int));
            lemma_esc_free_concat(t + " ("@ + f + ":"@ + spec_decimal(l as int), ")"@);
        },
        (Some(t), Some(f), None) => {
            lemma_esc_free_concat(t, " ("@);
            lemma_esc_free_concat(t + " ("@, f);
            lemma_esc_free_concat(t + " ("@ + f, ")"@);
        },
        (Some(t), None, Some(l)) => {
            lemma_decimal_esc_free(l as int);
            lemma_esc_free_concat(t, " ("@);
            lemma_esc_free_concat(t + " ("@, spec_decimal(l as int));
            lemma_esc_free_concat(t + " ("@ + spec_decimal(l as int), ")"@);
        },
        (Some(_), None, None) => {},
        (None, Some(f), Some(l)) => {
            lemma_decimal_esc_free(l as int);
            lemma_esc_free_concat(f, ":"@);
            lemma_esc_free_concat(f + ":"@, spec_decimal(l as int));
        },
        (None, Some(_), None) => {},
        (None, None, Some(l)) => {
            lemma_decimal_esc_free(l as int);
        },
        (None, None, None) => {},
    }
}

pub proof fn lemma_source_esc_free(
    show_target: bool,
    show_file: bool,
    show_line: bool,
    target: Seq<char>,
    file: Option<Seq<char>>,
    line: Option<u32>,
)
    requires
        esc_free(target),
        match file {
            Some(f) => esc_free(f),
            None => true,
        },
    ensures
        esc_free(spec_source(show_target, show_file, show_line, false, target, file, line)),
{
    reveal_strlit("source");
    reveal_strlit(" ");
    let t = if show_target {
        Some(target)
    } else {
        None
    };
    let f = if show_file {
        file
    } else {
        None
    };
    let l = if show_line {
        line
    } else {
        None
    };
    if !(t is None && f is None && l is None) {
        lemma_label_esc_free("source"@);
        lemma_source_body_esc_free(t, f, l);
        let label = spec_label(false, "source"@);
        lemma_esc_free_concat(label, " "@);
        lemma_esc_free_concat(label + " "@, Seq::<char>::empty());
        lemma_esc_free_concat(label + " "@ + Seq::<char>::empty(), spec_source_body(t, f, l));
        lemma_esc_free_concat(
            label + " "@ + Seq::<char>::empty() + spec_source_body(t, f, l),
            Seq::<char>::empty(),
        );
    }
}

pub proof fn lemma_thread_body_esc_free(n: Option<Seq<char>>, i: Option<Seq<char>>)
    requires
        match n {
            Some(n) => esc_free(n),
            None => true,
        },
        match i {
            Some(i) => esc_free(i),
            None => true,
        },
    ensures
        esc_free(spec_thread_body(n, i)),
{
    reveal_strlit(" [");
    reveal_strlit("[");
    reveal_strlit("]");
    match (n, i) {
        (Some(n), Some(i)) => {
            lemma_esc_free_concat(n, " ["@);
            lemma_esc_free_concat(n + " ["@, i);
            lemma_esc_free_concat(n + " ["@ + i, "]"@);
        },
        (Some(_), None) => {},
        (None, Some(i)) => {
            lemma_esc_free_concat("["@, i);
            lemma_esc_free_concat("["@ + i, "]"@);
        },
        (None, None) => {},
    }
}

pub proof fn lemma_thread_esc_free(
    show_name: bool,
    show_id: bool,
    name: Option<Seq<char>>,
    id: Option<Seq<char>>,
)
    requires
        match name {
            Some(n) => esc_free(n),
            None => true,
        },
        match id {
            Some(i) => esc_free(i),
            None => true,
        },
    ensures
        esc_free(spec_thread(show_name, show_id, false, name, id)),
{
    reveal_strlit("thread");
    reveal_strlit(" ");
    let n = if show_name {
        name
    } else {
        None
    };
    let i = if show_id {
        id
    } else {
        None
    };
    if !(n is None && i is None) {
        lemma_label_esc_free("thread"@);
        lemma_thread_body_esc_free(n, i);
        let label = spec_label(false, "thread"@);
        lemma_esc_free_concat(label, " "@);
        lemma_esc_free_concat(label + " "@, Seq::<char>::empty());
        lemma_esc_free_concat(label + " "@ + Seq::<char>::empty(), spec_thread_body(n, i));
        lemma_esc_free_concat(
            label + " "@ + Seq::<char>::empty() + spec_thread_body(n, i),
            Seq::<char>::empty(),
        );
    }
}

/// The event formatter's configuration: the time strategy and the seven
/// display toggles. Immutable for the lifetime of one formatter.
pub struct DevLogEventFormat<TimeFormatT> {
    pub timer: TimeFormatT,
    pub display_timestamp: bool,
    pub display_target: bool,
    pub display_level: bool,
    pub display_thread_id: bool,
    pub display_thread_name: bool,
    pub display_filename: bool,
    pub display_line_number: bool,
}

impl DevLogEventFormat<DevLogTimeFormat> {
    /// The default configuration: local wall-clock timestamps, target and
    /// level shown, thread and source-location details hidden.
    pub fn new() -> (r: Self)
        ensures
            r.timer == (DevLogTimeFormat {}),
            r.display_timestamp == true,
            r.display_target == true,
            r.display_level == true,
            r.display_thread_id == false,
            r.display_thread_name == false,
            r.display_filename == false,
            r.display_line_number == false,
    {
        Self {
            timer: DevLogTimeFormat::default(),
            display_timestamp: true,
            display_target: true,
            display_level: true,
            display_thread_id: false,
            display_thread_name: false,
            display_filename: false,
            display_line_number: false,
        }
    }
}

impl Default for DevLogEventFormat<DevLogTimeFormat> {
    fn default() -> (r: Self)
        ensures
            r.timer == (DevLogTimeFormat {}),
            r.display_timestamp == true,
            r.display_target == true,
            r.display_level == true,
            r.display_thread_id == false,
            r.display_thread_name == false,
            r.display_filename == false,
            r.display_line_number == false,
    {
        Self::new()
    }
}

impl<TimeFormatT> DevLogEventFormat<TimeFormatT> {
    /// Everything one record renders to after the timestamp chunk: level,
    /// fields, span chain, source, thread info, and the final newline.
    pub open spec fn spec_event_tail(self, ansi: bool, rec: RecordView) -> Seq<char> {
        spec_level_part(self.display_level, ansi, rec.level) + spec_fields(
            VisitorMode::Event,
            ansi,
            rec.fields,
        ) + spec_spans(ansi, rec.spans) + spec_source(
            self.display_target,
            self.display_filename,
            self.display_line_number,
            ansi,
            rec.target,
            rec.file,
            rec.line,
        ) + spec_thread(
            self.display_thread_name,
            self.display_thread_id,
            ansi,
            rec.thread_name,
            rec.thread_id,
        ) + "\n"@
    }

    fn format_level(&self, level: Level, w: &mut ColorWriter)
        ensures
            final(w).ansi == old(w).ansi,
            final(w).buf@ == old(w).buf@ + spec_level_part(
                self.display_level,
                old(w).ansi,
                level,
            ),
    {
        if self.display_level {
            let text = level_text(level);
            let color = level_color(level);
            w.write_with_color(text, color);
            w.write_with_color(":", Color::Gray);
            w.write_str(" ");
            proof {
                assert(w.buf@ =~= old(w).buf@ + spec_level_part(true, old(w).ansi, level));
            }
        }
    }

    /// Feeds every field of the record, in arrival order, to a fresh visitor
    /// in event context.
    fn format_fields(&self, w: &mut ColorWriter, fields: &Vec<LogField>)
        ensures
            final(w).ansi == old(w).ansi,
            final(w).buf@ == old(w).buf@ + spec_fields(
                VisitorMode::Event,
                old(w).ansi,
                fields.deep_view(),
            ),
    {
        let format = DevLogFieldFormat::default();
        let mut visitor = format.make_event_visitor();
        let ghost fsv = fields.deep_view();
        let mut i: usize = 0;
        while i < fields.len()
            invariant
                i <= fields@.len(),
                fsv == fields.deep_view(),
                fsv.len() == fields@.len(),
                visitor.mode == VisitorMode::Event,
                visitor.first_visit == (i == 0),
                w.ansi == old(w).ansi,
                w.buf@ == old(w).buf@ + spec_fields(VisitorMode::Event, w.ansi, fsv.take(i as int)),
            decreases fields@.len() - i,
        {
            let ghost prefix = fsv.take(i as int);
            let f = &fields[i];
            proof {
                assert(fsv[i as int] == fields@[i as int].deep_view());
            }
            match &f.value {
                FieldValue::Debug(t) => {
                    visitor.record_debug(w, f.name.as_str(), t.as_str());
                },
                FieldValue::Display(t) => {
                    visitor.record_debug(w, f.name.as_str(), t.as_str());
                },
                FieldValue::Error { message, causes } => {
                    visitor.record_error(w, f.name.as_str(), message.as_str(), causes);
                },
            }
            proof {
                assert(fsv.take(i + 1) =~= prefix.push(fsv[i as int]));
                if i == 0 {
                    assert(prefix.len() == 0);
                    assert(fsv.take(1)[0] == fsv[0]);
                    assert(fsv.take(1).drop_first() =~= Seq::<LogFieldView>::empty());
                    assert(spec_fields(VisitorMode::Event, w.ansi, prefix)
                        == Seq::<char>::empty());
                    assert(w.buf@ =~= old(w).buf@ + spec_fields(
                        VisitorMode::Event,
                        w.ansi,
                        fsv.take(1),
                    ));
                } else {
                    lemma_fields_push(VisitorMode::Event, w.ansi, prefix, fsv[i as int]);
                    assert(w.buf@ =~= old(w).buf@ + spec_fields(
                        VisitorMode::Event,
                        w.ansi,
                        fsv.take(i + 1),
                    ));
                }
            }
            i = i + 1;
        }
        proof {
            assert(fsv.take(fields@.len() as int) =~= fsv);
        }
    }

    /// Writes the span chain, outermost to innermost: a `"span"` label before
    /// the first span, one bulleted entry per span with its cached field text
    /// in a braced block, and a trailing space after the last.
    #[verifier::rlimit(50)]
    fn format_spans(&self, w: &mut ColorWriter, spans: &Vec<SpanEntry>)
        ensures
            final(w).ansi == old(w).ansi,
            final(w).buf@ == old(w).buf@ + spec_spans(old(w).ansi, spans.deep_view()),
    {
        let ghost spv = spans.deep_view();
        if spans.len() == 0 {
            proof {
                assert(old(w).buf@ + spec_spans(old(w).ansi, spv) =~= old(w).buf@);
            }
            return ;
        }
        write_field_name(w, "span");
        let mut i: usize = 0;
        while i < spans.len()
            invariant
                i <= spans@.len(),
                spv == spans.deep_view(),
                spv.len() == spans@.len(),
                w.ansi == old(w).ansi,
                w.buf@ == old(w).buf@ + spec_label(w.ansi, "span"@) + spec_span_items(
                    w.ansi,
                    spv.take(i as int),
                ),
            decreases spans@.len() - i,
        {
            let ghost prefix = spv.take(i as int);
            let sp = &spans[i];
            proof {
                assert(spv[i as int] == spans@[i as int].deep_view());
            }
            w.write_str("\n    ");
            w.write_with_color("-", Color::Gray);
            w.write_str(" ");
            w.write_with_color(sp.name.as_str(), Color::Cyan);
            if !sp.fields.as_str().is_empty() {
                w.write_str(" ");
                w.write_with_color("{", Color::Gray);
                w.write_str(" ");
                w.write_str(sp.fields.as_str());
                w.write_str(" ");
                w.write_with_color("}", Color::Gray);
            }
            proof {
                assert(spv.take(i + 1) =~= prefix.push(spv[i as int]));
                lemma_span_items_push(w.ansi, prefix, spv[i as int]);
                assert(w.buf@ =~= old(w).buf@ + spec_label(w.ansi, "span"@) + spec_span_items(
                    w.ansi,
                    spv.take(i + 1),
                ));
            }
            i = i + 1;
        }
        w.write_str(" ");
        proof {
            assert(spv.take(spans@.len() as int) =~= spv);
            assert(w.buf@ =~= old(w).buf@ + spec_spans(old(w).ansi, spv));
        }
    }

    /// Composes target, file name and line number — each independently
    /// toggled — into one gray `"source"` field, or writes nothing when none
    /// is enabled and present.
    #[verifier::rlimit(50)]
    fn format_target_and_source_location(
        &self,
        w: &mut ColorWriter,
        target: &String,
        file: &Option<String>,
        line: &Option<u32>,
    )
        ensures
            final(w).ansi == old(w).ansi,
            final(w).buf@ == old(w).buf@ + spec_source(
                self.display_target,
                self.display_filename,
                self.display_line_number,
                old(w).ansi,
                target@,
                file.deep_view(),
                line.deep_view(),
            ),
    {
        let target_opt: Option<&str> = if self.display_target {
            Some(target.as_str())
        } else {
            None
        };
        let file_opt: Option<&str> = if self.display_filename {
            match file {
                Some(f) => Some(f.as_str()),
                None => None,
            }
        } else {
            None
        };
        let line_opt: Option<u32> = if self.display_line_number {
            *line
        } else {
            None
        };
        if target_opt.is_none() && file_opt.is_none() && line_opt.is_none() {
            proof {
                assert(old(w).buf@ + Seq::<char>::empty() =~= old(w).buf@);
            }
            return ;
        }
        let ghost tv: Option<Seq<char>> = if self.display_target {
            Some(target@)
        } else {
            None
        };
        let ghost fv: Option<Seq<char>> = if self.display_filename {
            file.deep_view()
        } else {
            None
        };
        let ghost lv: Option<u32> = if self.display_line_number {
            *line
        } else {
            None
        };
        write_field_name(w, "source");
        w.write_str(" ");
        w.set_color(Color::Gray);
        let ghost b_mark = w.buf@;
        match (target_opt, file_opt, line_opt) {
            (Some(t), Some(f), Some(l)) => {
                w.write_str(t);
                w.write_str(" (");
                w.write_str(f);
                w.write_str(":");
                let d = decimal_string(l);
                w.write_str(d.as_str());
                w.write_str(")");
                proof {
                    let dec = spec_decimal(l as int);
                    assert(tv == Some(t@) && fv == Some(f@) && lv == Some(l));
                    vstd::seq_lib::lemma_concat_associative(b_mark, t@, " ("@);
                    vstd::seq_lib::lemma_concat_associative(b_mark, t@ + " ("@, f@);
                    vstd::seq_lib::lemma_concat_associative(b_mark, t@ + " ("@ + f@, ":"@);
                    vstd::seq_lib::lemma_concat_associative(b_mark, t@ + " ("@ + f@ + ":"@, dec);
                    vstd::seq_lib::lemma_concat_associative(
                        b_mark,
                        t@ + " ("@ + f@ + ":"@ + dec,
                        ")"@,
                    );
                    assert(w.buf@ == b_mark + spec_source_body(tv, fv, lv));
                }
            },
            (Some(t), Some(f), None) => {
                w.write_str(t);
                w.write_str(" (");
                w.write_str(f);
                w.write_str(")");
                proof {
                    assert(tv == Some(t@) && fv == Some(f@) && lv is None);
                    vstd::seq_lib::lemma_concat_associative(b_mark, t@, " ("@);
                    vstd::seq_lib::lemma_concat_associative(b_mark, t@ + " ("@, f@);
                    vstd::seq_lib::lemma_concat_associative(b_mark, t@ + " ("@ + f@, ")"@);
                    assert(w.buf@ == b_mark + spec_source_body(tv, fv, lv));
                }
            },
            (Some(t), None, Some(l)) => {
                w.write_str(t);
                w.write_str(" (");
                let d = decimal_string(l);
                w.write_str(d.as_str());
                w.write_str(")");
                proof {
                    let dec = spec_decimal(l as int);
                    assert(tv == Some(t@) && fv is None && lv == Some(l));
                    vstd::seq_lib::lemma_concat_associative(b_mark, t@, " ("@);
                    vstd::seq_lib::lemma_concat_associative(b_mark, t@ + " ("@, dec);
                    vstd::seq_lib::lemma_concat_associative(b_mark, t@ + " ("@ + dec, ")"@);
                    assert(w.buf@ == b_mark + spec_source_body(tv, fv, lv));
                }
            },
            (Some(t), None, None) => {
                w.write_str(t);
                proof {
                    assert(tv == Some(t@) && fv is None && lv is None);
                    assert(w.buf@ == b_mark + spec_source_body(tv, fv, lv));
                }
            },
            (None, Some(f), Some(l)) => {
                w.write_str(f);
                w.write_str(":");
                let d = decimal_string(l);
                w.write_str(d.as_str());
                proof {
                    let dec = spec_decimal(l as int);
                    assert(tv is None && fv == Some(f@) && lv == Some(l));
                    vstd::seq_lib::lemma_concat_associative(b_mark, f@, ":"@);
                    vstd::seq_lib::lemma_concat_associative(b_mark, f@ + ":"@, dec);
                    assert(w.buf@ == b_mark + spec_source_body(tv, fv, lv));
                }
            },
            (None, Some(f), None) => {
                w.write_str(f);
                proof {
                    assert(tv is None && fv == Some(f@) && lv is None);
                    assert(w.buf@ == b_mark + spec_source_body(tv, fv, lv));
                }
            },
            (None, None, Some(l)) => {
                let d = decimal_string(l);
                w.write_str(d.as_str());
                proof {
                    assert(tv is None && fv is None && lv == Some(l));
                    assert(w.buf@ == b_mark + spec_source_body(tv, fv, lv));
                }
            },
            (None, None, None) => {
                proof {
                    assert(false);
                }
            },
        }
        w.reset_color();
        proof {
            assert(w.buf@ == b_mark + spec_source_body(tv, fv, lv) + spec_reset(old(w).ansi));
            assert(w.buf@ == old(w).buf@ + spec_source(
                self.display_target,
                self.display_filename,
                self.display_line_number,
                old(w).ansi,
                target@,
                file.deep_view(),
                line.deep_view(),
            ));
        }
    }

    /// Composes the thread name and id — each independently toggled — into
    /// one gray `"thread"` field, or writes nothing when neither is enabled
    /// and present.
    fn format_thread_info(
        &self,
        w: &mut ColorWriter,
        thread_name: &Option<String>,
        thread_id: &Option<String>,
    )
        ensures
            final(w).ansi == old(w).ansi,
            final(w).buf@ == old(w).buf@ + spec_thread(
                self.display_thread_name,
                self.display_thread_id,
                old(w).ansi,
                thread_name.deep_view(),
                thread_id.deep_view(),
            ),
    {
        let name_opt: Option<&str> = if self.display_thread_name {
            match thread_name {
                Some(n) => Some(n.as_str()),
                None => None,
            }
        } else {
            None
        };
        let id_opt: Option<&str> = if self.display_thread_id {
            match thread_id {
                Some(i) => Some(i.as_str()),
                None => None,
            }
        } else {
            None
        };
        if name_opt.is_none() && id_opt.is_none() {
            proof {
                assert(old(w).buf@ + Seq::<char>::empty() =~= old(w).buf@);
            }
            return ;
        }
        write_field_name(w, "thread");
        w.write_str(" ");
        w.set_color(Color::Gray);
        match (name_opt, id_opt) {
            (Some(n), Some(i)) => {
                w.write_str(n);
                w.write_str(" [");
                w.write_str(i);
                w.write_str("]");
            },
            (Some(n), None) => {
                w.write_str(n);
            },
            (None, Some(i)) => {
                w.write_str("[");
                w.write_str(i);
                w.write_str("]");
            },
            (None, None) => {},
        }
        w.reset_color();
        proof {
            assert(w.buf@ =~= old(w).buf@ + spec_thread(
                self.display_thread_name,
                self.display_thread_id,
                old(w).ansi,
                thread_name.deep_view(),
                thread_id.deep_view(),
            ));
        }
    }
}

impl<TimeFormatT: FormatTime> DevLogEventFormat<TimeFormatT> {
    fn format_timestamp(&self, w: &mut ColorWriter)
        ensures
            final(w).ansi == old(w).ansi,
            if self.display_timestamp {
                exists|t: Seq<char>, ok: bool|
                    self.timer.time_spec(t, ok) && final(w).buf@ == old(w).buf@ + spec_timestamp(
                        old(w).ansi,
                        t,
                        ok,
                    )
            } else {
                final(w).buf@ == old(w).buf@
            },
    {
        if self.display_timestamp {
            w.set_color(Color::Gray);
            let ghost b0 = w.buf@;
            let ok = self.timer.format_time(w);
            let ghost b1 = w.buf@;
            if !ok {
                w.write_str("<unknown time>");
            }
            w.reset_color();
            w.write_str(" ");
            proof {
                let t = choose|t: Seq<char>| b1 == b0 + t && self.timer.time_spec(t, ok);
                assert(w.buf@ =~= old(w).buf@ + spec_timestamp(old(w).ansi, t, ok));
                assert(exists|t2: Seq<char>, ok2: bool|
                    self.timer.time_spec(t2, ok2) && w.buf@ == old(w).buf@ + spec_timestamp(
                        old(w).ansi,
                        t2,
                        ok2,
                    ));
            }
        }
    }

    /// Renders one full record into the writer: timestamp, level, fields,
    /// span chain, source, thread info, each independently toggled, in fixed
    /// order, terminated by a newline.
    #[verifier::rlimit(50)]
    pub fn format_event(&self, writer: &mut ColorWriter, rec: &Record)
        ensures
            final(writer).ansi == old(writer).ansi,
            if self.display_timestamp {
                exists|t: Seq<char>, ok: bool|
                    self.timer.time_spec(t, ok) && final(writer).buf@ == old(writer).buf@
                        + spec_timestamp(old(writer).ansi, t, ok) + self.spec_event_tail(
                        old(writer).ansi,
                        rec@,
                    )
            } else {
                final(writer).buf@ == old(writer).buf@ + self.spec_event_tail(
                    old(writer).ansi,
                    rec@,
                )
            },
    {
        self.format_timestamp(writer);
        let ghost b_ts = writer.buf@;
        let ghost ansi = old(writer).ansi;
        let ghost lv = spec_level_part(self.display_level, ansi, rec.level);
        let ghost fl = spec_fields(VisitorMode::Event, ansi, rec@.fields);
        let ghost sp = spec_spans(ansi, rec@.spans);
        let ghost src = spec_source(
            self.display_target,
            self.display_filename,
            self.display_line_number,
            ansi,
            rec@.target,
            rec@.file,
            rec@.line,
        );
        let ghost th = spec_thread(
            self.display_thread_name,
            self.display_thread_id,
            ansi,
            rec@.thread_name,
            rec@.thread_id,
        );
        self.format_level(rec.level, writer);
        self.format_fields(writer, &rec.fields);
        self.format_spans(writer, &rec.spans);
        self.format_target_and_source_location(writer, &rec.target, &rec.file, &rec.line);
        self.format_thread_info(writer, &rec.thread_name, &rec.thread_id);
        writer.write_str("\n");
        proof {
            let nl = "\n"@;
            assert(writer.buf@ == b_ts + lv + fl + sp + src + th + nl);
            vstd::seq_lib::lemma_concat_associative(b_ts, lv, fl);
            vstd::seq_lib::lemma_concat_associative(b_ts, lv + fl, sp);
            vstd::seq_lib::lemma_concat_associative(b_ts, lv + fl + sp, src);
            vstd::seq_lib::lemma_concat_associative(b_ts, lv + fl + sp + src, th);
            vstd::seq_lib::lemma_concat_associative(b_ts, lv + fl + sp + src + th, nl);
            assert(writer.buf@ == b_ts + (lv + fl + sp + src + th + nl));
            assert(writer.buf@ == b_ts + self.spec_event_tail(ansi, rec@));
            if self.display_timestamp {
                let (t, ok) = choose|t: Seq<char>, ok: bool|
                    self.timer.time_spec(t, ok) && b_ts == old(writer).buf@ + spec_timestamp(
                        ansi,
                        t,
                        ok,
                    );
                assert(writer.buf@ == old(writer).buf@ + spec_timestamp(ansi, t, ok)
                    + self.spec_event_tail(ansi, rec@));
                assert(exists|t2: Seq<char>, ok2: bool|
                    self.timer.time_spec(t2, ok2) && writer.buf@ == old(writer).buf@
                        + spec_timestamp(ansi, t2, ok2) + self.spec_event_tail(ansi, rec@));
            }
        }
    }
}

/// Color suppression: with ANSI disabled, a render appends no escape
/// sequence at all — neither the timestamp chunk nor anything after it holds
/// an escape character, for any record and timer text whose own texts hold
/// none.
pub proof fn lemma_color_suppression<TimeFormatT>(
    fmt: DevLogEventFormat<TimeFormatT>,
    rec: RecordView,
    t: Seq<char>,
    ok: bool,
)
    requires
        spec_record_esc_free(rec),
        esc_free(t),
    ensures
        esc_free(spec_timestamp(false, t, ok)),
        esc_free(fmt.spec_event_tail(false, rec)),
{
    reveal_strlit("\n");
    lemma_timestamp_esc_free(t, ok);
    lemma_level_part_esc_free(fmt.display_level, rec.level);
    lemma_fields_esc_free(VisitorMode::Event, rec.fields);
    lemma_spans_esc_free(rec.spans);
    lemma_source_esc_free(
        fmt.display_target,
        fmt.display_filename,
        fmt.display_line_number,
        rec.target,
        rec.file,
        rec.line,
    );
    lemma_thread_esc_free(
        fmt.display_thread_name,
        fmt.display_thread_id,
        rec.thread_name,
        rec.thread_id,
    );
    let lv = spec_level_part(fmt.display_level, false, rec.level);
    let fl = spec_fields(VisitorMode::Event, false, rec.fields);
    let sp = spec_spans(false, rec.spans);
    let src = spec_source(
        fmt.display_target,
        fmt.display_filename,
        fmt.display_line_number,
        false,
        rec.target,
        rec.file,
        rec.line,
    );
    let th = spec_thread(
        fmt.display_thread_name,
        fmt.display_thread_id,
        false,
        rec.thread_name,
        rec.thread_id,
    );
    lemma_esc_free_concat(lv, fl);
    lemma_esc_free_concat(lv + fl, sp);
    lemma_esc_free_concat(lv + fl + sp, src);
    lemma_esc_free_concat(lv + fl + sp + src, th);
    lemma_esc_free_concat(lv + fl + sp + src + th, "\n"@);
}

} // verus!
