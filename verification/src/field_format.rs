//! The field visitor: a stateful serializer that receives one record's
//! (field name, typed value) pairs in arrival order and renders them with a
//! single delimiter and layout policy. A `"message"` field in first position
//! is promoted to the unlabeled headline, and a `"cause"` error in first
//! position contributes its message as the headline while rendering resumes
//! at its first cause. Error values with causes unroll into a bulleted list.

use crate::color::{esc_free, lemma_esc_free_concat, spec_colored, spec_color_code,
    spec_reset_code, Color, ColorWriter};
use vstd::prelude::*;

verus! {

/// A field name as the visitor writes it: the name colored, a colon colored
/// gray, when ANSI is enabled; the bare name and colon otherwise.
pub open spec fn spec_field_name_text(ansi: bool, name: Seq<char>) -> Seq<char> {
    if ansi {
        spec_color_code(Color::Cyan) + name + spec_color_code(Color::Gray) + ":"@
            + spec_reset_code()
    } else {
        name + ":"@
    }
}

/// Relies on `str`'s `==` (its `PartialEq` impl): it holds exactly when the
/// two slices consist of the same bytes, which, UTF-8 being an injective
/// encoding, is exactly when they decode to the same character sequence.
#[verifier::external_body]
fn str_eq(a: &str, b: &str) -> (r: bool)
    ensures
        r == (a@ == b@),
{
    a == b
}

/// One typed field value: a closed tagged union over which the visitor
/// pattern-matches. Debug and display text arrives already rendered; a
/// structured error carries its own message and the messages of its chain of
/// causes, outermost cause first.
pub enum FieldValue {
    Debug(String),
    Display(String),
    Error { message: String, causes: Vec<String> },
}

/// The mathematical value of a `FieldValue`.
pub enum FieldValueView {
    Debug(Seq<char>),
    Display(Seq<char>),
    Error { message: Seq<char>, causes: Seq<Seq<char>> },
}

impl View for FieldValue {
    type V = FieldValueView;

    open spec fn view(&self) -> FieldValueView {
        match self {
            FieldValue::Debug(t) => FieldValueView::Debug(t@),
            FieldValue::Display(t) => FieldValueView::Display(t@),
            FieldValue::Error { message, causes } => FieldValueView::Error {
                message: message@,
                causes: causes.deep_view(),
            },
        }
    }
}

impl DeepView for FieldValue {
    type V = FieldValueView;

    open spec fn deep_view(&self) -> FieldValueView {
        self.view()
    }
}

/// One named field of a record or span.
pub struct LogField {
    pub name: String,
    pub value: FieldValue,
}

pub struct LogFieldView {
    pub name: Seq<char>,
    pub value: FieldValueView,
}

impl View for LogField {
    type V = LogFieldView;

    open spec fn view(&self) -> LogFieldView {
        LogFieldView { name: self.name@, value: self.value@ }
    }
}

impl DeepView for LogField {
    type V = LogFieldView;

    open spec fn deep_view(&self) -> LogFieldView {
        self.view()
    }
}

/// The two render contexts, which differ only in delimiter style: event
/// fields go each on their own indented line, span fields are cached once as
/// one comma-separated line.
#[derive(Clone, Copy, PartialEq, Eq, Structural)]
pub enum VisitorMode {
    Event,
    Span,
}

impl VisitorMode {
    /// The delimiter written between two fields of this context.
    pub open spec fn spec_delimiter(self, color_enabled: bool) -> Seq<char> {
        match self {
            VisitorMode::Event => "\n  "@,
            VisitorMode::Span => spec_colored(color_enabled, Color::Gray, ","@) + " "@,
        }
    }

    pub fn delimiter(&self, color_enabled: bool) -> (r: &'static str)
        ensures
            r@ == self.spec_delimiter(color_enabled),
    {
        match self {
            VisitorMode::Event => "\n  ",
            VisitorMode::Span => {
                if color_enabled {
                    proof {
                        reveal_strlit("\u{1b}[37m,\u{1b}[0m ");
                        reveal_strlit("\u{1b}[37m");
                        reveal_strlit(",");
                        reveal_strlit("\u{1b}[0m");
                        reveal_strlit(" ");
                        assert("\u{1b}[37m,\u{1b}[0m "@ =~= spec_color_code(Color::Gray)
                            + ","@ + spec_reset_code() + " "@);
                    }
                    "\u{1b}[37m,\u{1b}[0m "
                } else {
                    proof {
                        reveal_strlit(", ");
                        reveal_strlit(",");
                        reveal_strlit(" ");
                        assert(", "@ =~= ","@ + " "@);
                    }
                    ", "
                }
            },
        }
    }
}

/// A labeled field: the name (colored when enabled), a colon, a space, and
/// the value text.
pub open spec fn spec_value_field(ansi: bool, name: Seq<char>, text: Seq<char>) -> Seq<char> {
    spec_field_name_text(ansi, name) + " "@ + text
}

/// One list item of an unrolled error chain: the context's delimiter, two
/// spaces, a bullet (colored when enabled), a space, and the message — so
/// items visually nest one level under the field name.
pub open spec fn spec_list_item(mode: VisitorMode, ansi: bool, msg: Seq<char>) -> Seq<char> {
    mode.spec_delimiter(ansi) + "  "@ + spec_colored(ansi, Color::Gray, "-"@) + " "@ + msg
}

pub open spec fn spec_list_items(mode: VisitorMode, ansi: bool, msgs: Seq<Seq<char>>) -> Seq<char>
    decreases msgs.len(),
{
    if msgs.len() == 0 {
        Seq::<char>::empty()
    } else {
        spec_list_item(mode, ansi, msgs[0]) + spec_list_items(mode, ansi, msgs.drop_first())
    }
}

/// An error field in a non-headline position: with no cause it is one plain
/// labeled field holding the message; with causes it is the field name
/// followed by a list of the message and every cause message, in chain order.
pub open spec fn spec_error_field(
    mode: VisitorMode,
    ansi: bool,
    name: Seq<char>,
    message: Seq<char>,
    causes: Seq<Seq<char>>,
) -> Seq<char> {
    if causes.len() == 0 {
        spec_value_field(ansi, name, message)
    } else {
        spec_field_name_text(ansi, name) + spec_list_items(mode, ansi, seq![message] + causes)
    }
}

/// What one debug- or display-typed field contributes to the output, given
/// whether it is the first field visited. The first field of an event named
/// `"message"` becomes the unlabeled headline; every later field is preceded
/// by the delimiter.
pub open spec fn spec_text_field_visit(
    mode: VisitorMode,
    ansi: bool,
    first: bool,
    name: Seq<char>,
    text: Seq<char>,
) -> Seq<char> {
    if first && mode == VisitorMode::Event && name == "message"@ {
        text
    } else {
        (if first {
            Seq::<char>::empty()
        } else {
            mode.spec_delimiter(ansi)
        }) + spec_value_field(ansi, name, text)
    }
}

/// What one error-typed field contributes to the output. A first field named
/// `"cause"` is promoted: its message becomes the unlabeled headline, and if
/// it has a cause the chain rendering continues at that cause; with no cause
/// nothing further is rendered.
pub open spec fn spec_error_field_visit(
    mode: VisitorMode,
    ansi: bool,
    first: bool,
    name: Seq<char>,
    message: Seq<char>,
    causes: Seq<Seq<char>>,
) -> Seq<char> {
    if first && name == "cause"@ {
        message + (if causes.len() == 0 {
            Seq::<char>::empty()
        } else {
            mode.spec_delimiter(ansi) + spec_error_field(
                mode,
                ansi,
                name,
                causes[0],
                causes.drop_first(),
            )
        })
    } else {
        (if first {
            Seq::<char>::empty()
        } else {
            mode.spec_delimiter(ansi)
        }) + spec_error_field(mode, ansi, name, message, causes)
    }
}

/// What one field of any kind contributes to the output.
pub open spec fn spec_field_visit(
    mode: VisitorMode,
    ansi: bool,
    first: bool,
    f: LogFieldView,
) -> Seq<char> {
    match f.value {
        FieldValueView::Debug(t) => spec_text_field_visit(mode, ansi, first, f.name, t),
        FieldValueView::Display(t) => spec_text_field_visit(mode, ansi, first, f.name, t),
        FieldValueView::Error { message, causes } => spec_error_field_visit(
            mode,
            ansi,
            first,
            f.name,
            message,
            causes,
        ),
    }
}

/// What the fields after the first contribute, each preceded by a delimiter.
pub open spec fn spec_fields_rest(mode: VisitorMode, ansi: bool, fs: Seq<LogFieldView>) -> Seq<
    char,
>
    decreases fs.len(),
{
    if fs.len() == 0 {
        Seq::<char>::empty()
    } else {
        spec_field_visit(mode, ansi, false, fs[0]) + spec_fields_rest(mode, ansi, fs.drop_first())
    }
}

/// What a whole field sequence renders to: the first field with the
/// first-visit rules, every later field delimited.
pub open spec fn spec_fields(mode: VisitorMode, ansi: bool, fs: Seq<LogFieldView>) -> Seq<char> {
    if fs.len() == 0 {
        Seq::<char>::empty()
    } else {
        spec_field_visit(mode, ansi, true, fs[0]) + spec_fields_rest(mode, ansi, fs.drop_first())
    }
}

pub proof fn lemma_list_items_push(mode: VisitorMode, ansi: bool, msgs: Seq<Seq<char>>, m: Seq<char>)
    ensures
        spec_list_items(mode, ansi, msgs.push(m)) == spec_list_items(mode, ansi, msgs)
            + spec_list_item(mode, ansi, m),
    decreases msgs.len(),
{
    if msgs.len() == 0 {
        assert(msgs.push(m)[0] == m);
        assert(msgs.push(m).drop_first() =~= Seq::<Seq<char>>::empty());
        assert(spec_list_items(mode, ansi, msgs.push(m)) == spec_list_item(mode, ansi, m)
            + spec_list_items(mode, ansi, msgs.push(m).drop_first()));
        assert(spec_list_items(mode, ansi, msgs.push(m).drop_first()) == Seq::<char>::empty());
        assert(spec_list_items(mode, ansi, msgs) == Seq::<char>::empty());
        assert(spec_list_items(mode, ansi, msgs.push(m)) =~= spec_list_items(mode, ansi, msgs)
            + spec_list_item(mode, ansi, m));
    } else {
        let tail = msgs.drop_first();
        assert(msgs.push(m)[0] == msgs[0]);
        assert(msgs.push(m).drop_first() =~= tail.push(m));
        lemma_list_items_push(mode, ansi, tail, m);
        assert(spec_list_items(mode, ansi, msgs.push(m)) == spec_list_item(mode, ansi, msgs[0])
            + spec_list_items(mode, ansi, msgs.push(m).drop_first()));
        assert(spec_list_items(mode, ansi, msgs) == spec_list_item(mode, ansi, msgs[0])
            + spec_list_items(mode, ansi, tail));
        assert(spec_list_items(mode, ansi, msgs.push(m)) =~= spec_list_items(mode, ansi, msgs)
            + spec_list_item(mode, ansi, m));
    }
}

pub proof fn lemma_fields_rest_push(mode: VisitorMode, ansi: bool, fs: Seq<LogFieldView>, f: LogFieldView)
    ensures
        spec_fields_rest(mode, ansi, fs.push(f)) == spec_fields_rest(mode, ansi, fs)
            + spec_field_visit(mode, ansi, false, f),
    decreases fs.len(),
{
    if fs.len() == 0 {
        assert(fs.push(f)[0] == f);
        assert(fs.push(f).drop_first() =~= Seq::<LogFieldView>::empty());
        assert(spec_fields_rest(mode, ansi, fs.push(f)) =~= spec_fields_rest(mode, ansi, fs)
            + spec_field_visit(mode, ansi, false, f));
    } else {
        let tail = fs.drop_first();
        assert(fs.push(f)[0] == fs[0]);
        assert(fs.push(f).drop_first() =~= tail.push(f));
        lemma_fields_rest_push(mode, ansi, tail, f);
        assert(spec_fields_rest(mode, ansi, fs.push(f)) == spec_field_visit(mode, ansi, false, fs[0])
            + spec_fields_rest(mode, ansi, fs.push(f).drop_first()));
        assert(spec_fields_rest(mode, ansi, fs) == spec_field_visit(mode, ansi, false, fs[0])
            + spec_fields_rest(mode, ansi, tail));
        assert(spec_fields_rest(mode, ansi, fs.push(f)) =~= spec_fields_rest(mode, ansi, fs)
            + spec_field_visit(mode, ansi, false, f));
    }
}

/// Appending one more field to a non-empty sequence extends the rendering by
/// that field's delimited form.
pub proof fn lemma_fields_push(mode: VisitorMode, ansi: bool, fs: Seq<LogFieldView>, f: LogFieldView)
    requires
        fs.len() > 0,
    ensures
        spec_fields(mode, ansi, fs.push(f)) == spec_fields(mode, ansi, fs)
            + spec_field_visit(mode, ansi, false, f),
{
    assert(fs.push(f)[0] == fs[0]);
    assert(fs.push(f).drop_first() =~= fs.drop_first().push(f));
    lemma_fields_rest_push(mode, ansi, fs.drop_first(), f);
    assert(spec_fields(mode, ansi, fs.push(f)) =~= spec_fields(mode, ansi, fs)
        + spec_field_visit(mode, ansi, false, f));
}

/// What one field renders to on its own, with no delimiter and no headline
/// promotion: a labeled value, or an error field.
pub open spec fn spec_field_body(mode: VisitorMode, ansi: bool, f: LogFieldView) -> Seq<char> {
    match f.value {
        FieldValueView::Debug(t) => spec_value_field(ansi, f.name, t),
        FieldValueView::Display(t) => spec_value_field(ansi, f.name, t),
        FieldValueView::Error { message, causes } => spec_error_field(
            mode,
            ansi,
            f.name,
            message,
            causes,
        ),
    }
}

/// Whether a field in first position triggers headline promotion: a
/// `"message"` field of an event, or an error field named `"cause"`.
pub open spec fn spec_is_headline_field(mode: VisitorMode, f: LogFieldView) -> bool {
    match f.value {
        FieldValueView::Debug(_) => mode == VisitorMode::Event && f.name == "message"@,
        FieldValueView::Display(_) => mode == VisitorMode::Event && f.name == "message"@,
        FieldValueView::Error { .. } => f.name == "cause"@,
    }
}

/// Every field is preceded by the context's delimiter except the first,
/// which has none: a first field that triggers no headline promotion renders
/// as its bare body, and every field after the first renders as the
/// delimiter followed by its body.
pub proof fn lemma_fields_delimiting(mode: VisitorMode, ansi: bool, fs: Seq<LogFieldView>)
    requires
        fs.len() > 0,
        !spec_is_headline_field(mode, fs[0]),
    ensures
        spec_fields(mode, ansi, fs) == spec_field_body(mode, ansi, fs[0]) + spec_fields_rest(
            mode,
            ansi,
            fs.drop_first(),
        ),
        forall|f: LogFieldView| #[trigger]
            spec_field_visit(mode, ansi, false, f) == mode.spec_delimiter(ansi)
                + spec_field_body(mode, ansi, f),
{
    assert(spec_field_visit(mode, ansi, true, fs[0]) =~= spec_field_body(mode, ansi, fs[0]));
    assert forall|f: LogFieldView| #[trigger]
        spec_field_visit(mode, ansi, false, f) == mode.spec_delimiter(ansi) + spec_field_body(
            mode,
            ansi,
            f,
        ) by {
        assert(spec_field_visit(mode, ansi, false, f) =~= mode.spec_delimiter(ansi)
            + spec_field_body(mode, ansi, f));
    }
}

/// A first field named `"message"` renders as the bare message text — no
/// label, no leading delimiter — and the following fields render delimited
/// as usual.
pub proof fn lemma_message_headline(ansi: bool, fs: Seq<LogFieldView>, t: Seq<char>)
    requires
        fs.len() > 0,
        fs[0].name == "message"@,
        fs[0].value == FieldValueView::Debug(t) || fs[0].value == FieldValueView::Display(t),
    ensures
        spec_fields(VisitorMode::Event, ansi, fs) == t + spec_fields_rest(
            VisitorMode::Event,
            ansi,
            fs.drop_first(),
        ),
{
    assert(spec_field_visit(VisitorMode::Event, ansi, true, fs[0]) == t);
}

/// An error value with causes, in a non-headline position, renders its field
/// name once and then a list of exactly one item per message: its own
/// message first, then each cause in source-chain order.
pub proof fn lemma_error_chain_items(
    mode: VisitorMode,
    ansi: bool,
    name: Seq<char>,
    message: Seq<char>,
    causes: Seq<Seq<char>>,
)
    requires
        causes.len() >= 1,
    ensures
        spec_error_field(mode, ansi, name, message, causes) == spec_field_name_text(ansi, name)
            + spec_list_items(mode, ansi, seq![message] + causes),
        (seq![message] + causes).len() == causes.len() + 1,
        (seq![message] + causes)[0] == message,
        forall|i: int| 0 <= i < causes.len() ==> (seq![message] + causes)[i + 1] == causes[i],
{
}

/// An error value with no cause renders as one plain labeled field holding
/// its message: no list, no bullets.
pub proof fn lemma_error_without_cause(
    mode: VisitorMode,
    ansi: bool,
    name: Seq<char>,
    message: Seq<char>,
)
    ensures
        spec_error_field(mode, ansi, name, message, Seq::<Seq<char>>::empty())
            == spec_value_field(ansi, name, message),
{
}

/// A first error field named `"cause"` is promoted: the outer message
/// becomes the unlabeled headline. With no cause, nothing further is
/// rendered. With two or more causes, the chain rendering begins at the
/// first cause: the list holds that cause's own message and then its
/// causes, one item each. (A chain of exactly one cause renders that cause
/// as a plain labeled field instead and is left out here.)
pub proof fn lemma_cause_promotion(
    mode: VisitorMode,
    ansi: bool,
    message: Seq<char>,
    causes: Seq<Seq<char>>,
)
    requires
        causes.len() != 1,
    ensures
        causes.len() == 0 ==> spec_error_field_visit(mode, ansi, true, "cause"@, message, causes)
            == message,
        causes.len() >= 2 ==> spec_error_field_visit(mode, ansi, true, "cause"@, message, causes)
            == message + mode.spec_delimiter(ansi) + spec_field_name_text(ansi, "cause"@)
            + spec_list_items(mode, ansi, causes),
{
    if causes.len() == 0 {
        assert(spec_error_field_visit(mode, ansi, true, "cause"@, message, causes) =~= message);
    } else {
        assert(seq![causes[0]] + causes.drop_first() =~= causes);
        assert(spec_error_field(mode, ansi, "cause"@, causes[0], causes.drop_first())
            == spec_field_name_text(ansi, "cause"@) + spec_list_items(mode, ansi, causes));
        assert(spec_error_field_visit(mode, ansi, true, "cause"@, message, causes) =~= message
            + mode.spec_delimiter(ansi) + spec_field_name_text(ansi, "cause"@) + spec_list_items(
            mode,
            ansi,
            causes,
        ));
    }
}

/// Whether a field value's texts are all free of escape characters.
pub open spec fn spec_value_esc_free(v: FieldValueView) -> bool {
    match v {
        FieldValueView::Debug(t) => esc_free(t),
        FieldValueView::Display(t) => esc_free(t),
        FieldValueView::Error { message, causes } => esc_free(message) && forall|i: int|
            0 <= i < causes.len() ==> esc_free(#[trigger] causes[i]),
    }
}

/// Whether a field's name and value texts are free of escape characters.
pub open spec fn spec_field_esc_free(f: LogFieldView) -> bool {
    esc_free(f.name) && spec_value_esc_free(f.value)
}

pub open spec fn spec_fields_esc_free(fs: Seq<LogFieldView>) -> bool {
    forall|i: int| 0 <= i < fs.len() ==> spec_field_esc_free(#[trigger] fs[i])
}

pub proof fn lemma_delimiter_esc_free(mode: VisitorMode)
    ensures
        esc_free(mode.spec_delimiter(false)),
{
    reveal_strlit("\n  ");
    reveal_strlit(",");
    reveal_strlit(" ");
    if mode is Span {
        lemma_esc_free_concat(","@, " "@);
    }
}

pub proof fn lemma_field_name_esc_free(name: Seq<char>)
    requires
        esc_free(name),
    ensures
        esc_free(spec_field_name_text(false, name)),
{
    reveal_strlit(":");
    lemma_esc_free_concat(name, ":"@);
}

pub proof fn lemma_value_field_esc_free(name: Seq<char>, text: Seq<char>)
    requires
        esc_free(name),
        esc_free(text),
    ensures
        esc_free(spec_value_field(false, name, text)),
{
    reveal_strlit(" ");
    lemma_field_name_esc_free(name);
    lemma_esc_free_concat(spec_field_name_text(false, name), " "@);
    lemma_esc_free_concat(spec_field_name_text(false, name) + " "@, text);
}

pub proof fn lemma_list_item_esc_free(mode: VisitorMode, msg: Seq<char>)
    requires
        esc_free(msg),
    ensures
        esc_free(spec_list_item(mode, false, msg)),
{
    reveal_strlit("  ");
    reveal_strlit("-");
    reveal_strlit(" ");
    lemma_delimiter_esc_free(mode);
    let d = mode.spec_delimiter(false);
    lemma_esc_free_concat(d, "  "@);
    lemma_esc_free_concat(d + "  "@, "-"@);
    lemma_esc_free_concat(d + "  "@ + "-"@, " "@);
    lemma_esc_free_concat(d + "  "@ + "-"@ + " "@, msg);
}

pub proof fn lemma_list_items_esc_free(mode: VisitorMode, msgs: Seq<Seq<char>>)
    requires
        forall|i: int| 0 <= i < msgs.len() ==> esc_free(#[trigger] msgs[i]),
    ensures
        esc_free(spec_list_items(mode, false, msgs)),
    decreases msgs.len(),
{
    if msgs.len() > 0 {
        let tail = msgs.drop_first();
        assert(forall|i: int| 0 <= i < tail.len() ==> tail[i] == msgs[i + 1]);
        lemma_list_item_esc_free(mode, msgs[0]);
        lemma_list_items_esc_free(mode, tail);
        lemma_esc_free_concat(spec_list_item(mode, false, msgs[0]), spec_list_items(
            mode,
            false,
            tail,
        ));
    }
}

pub proof fn lemma_error_field_esc_free(
    mode: VisitorMode,
    name: Seq<char>,
    message: Seq<char>,
    causes: Seq<Seq<char>>,
)
    requires
        esc_free(name),
        esc_free(message),
        forall|i: int| 0 <= i < causes.len() ==> esc_free(#[trigger] causes[i]),
    ensures
        esc_free(spec_error_field(mode, false, name, message, causes)),
{
    if causes.len() == 0 {
        lemma_value_field_esc_free(name, message);
    } else {
        let items = seq![message] + causes;
        assert(forall|i: int| 0 <= i < items.len() ==> esc_free(#[trigger] items[i])) by {
            assert(forall|i: int| 1 <= i < items.len() ==> items[i] == causes[i - 1]);
            assert(items[0] == message);
        }
        lemma_field_name_esc_free(name);
        lemma_list_items_esc_free(mode, items);
        lemma_esc_free_concat(spec_field_name_text(false, name), spec_list_items(
            mode,
            false,
            items,
        ));
    }
}

pub proof fn lemma_field_visit_esc_free(mode: VisitorMode, first: bool, f: LogFieldView)
    requires
        spec_field_esc_free(f),
    ensures
        esc_free(spec_field_visit(mode, false, first, f)),
{
    let d: Seq<char> = if first {
        Seq::<char>::empty()
    } else {
        mode.spec_delimiter(false)
    };
    if first {
        assert(esc_free(d));
    } else {
        lemma_delimiter_esc_free(mode);
    }
    match f.value {
        FieldValueView::Debug(t) => {
            lemma_value_field_esc_free(f.name, t);
            lemma_esc_free_concat(d, spec_value_field(false, f.name, t));
        },
        FieldValueView::Display(t) => {
            lemma_value_field_esc_free(f.name, t);
            lemma_esc_free_concat(d, spec_value_field(false, f.name, t));
        },
        FieldValueView::Error { message, causes } => {
            if first && f.name == "cause"@ {
                if causes.len() == 0 {
                    assert(spec_error_field_visit(mode, false, first, f.name, message, causes)
                        =~= message);
                } else {
                    let tail = causes.drop_first();
                    assert(forall|i: int| 0 <= i < tail.len() ==> tail[i] == causes[i + 1]);
                    lemma_delimiter_esc_free(mode);
                    lemma_error_field_esc_free(mode, f.name, causes[0], tail);
                    lemma_esc_free_concat(mode.spec_delimiter(false), spec_error_field(
                        mode,
                        false,
                        f.name,
                        causes[0],
                        tail,
                    ));
                    lemma_esc_free_concat(message, mode.spec_delimiter(false) + spec_error_field(
                        mode,
                        false,
                        f.name,
                        causes[0],
                        tail,
                    ));
                }
            } else {
                lemma_error_field_esc_free(mode, f.name, message, causes);
                lemma_esc_free_concat(d, spec_error_field(mode, false, f.name, message, causes));
            }
        },
    }
}

pub proof fn lemma_fields_rest_esc_free(mode: VisitorMode, fs: Seq<LogFieldView>)
    requires
        spec_fields_esc_free(fs),
    ensures
        esc_free(spec_fields_rest(mode, false, fs)),
    decreases fs.len(),
{
    if fs.len() > 0 {
        let tail = fs.drop_first();
        assert(forall|i: int| 0 <= i < tail.len() ==> tail[i] == fs[i + 1]);
        lemma_field_visit_esc_free(mode, false, fs[0]);
        lemma_fields_rest_esc_free(mode, tail);
        lemma_esc_free_concat(spec_field_visit(mode, false, false, fs[0]), spec_fields_rest(
            mode,
            false,
            tail,
        ));
    }
}

/// With ANSI disabled, a field sequence whose names and texts hold no escape
/// character renders to text with no escape character.
pub proof fn lemma_fields_esc_free(mode: VisitorMode, fs: Seq<LogFieldView>)
    requires
        spec_fields_esc_free(fs),
    ensures
        esc_free(spec_fields(mode, false, fs)),
{
    if fs.len() > 0 {
        let tail = fs.drop_first();
        assert(forall|i: int| 0 <= i < tail.len() ==> tail[i] == fs[i + 1]);
        lemma_field_visit_esc_free(mode, true, fs[0]);
        lemma_fields_rest_esc_free(mode, tail);
        lemma_esc_free_concat(spec_field_visit(mode, false, true, fs[0]), spec_fields_rest(
            mode,
            false,
            tail,
        ));
    }
}

/// Makes visitors bound to one delimiter policy each; span-context visitors
/// cache a span's own fields once, event-context visitors serialize a log
/// call's fields.
#[derive(Clone, Copy, PartialEq, Eq, Structural)]
pub struct DevLogFieldFormat {}

impl Default for DevLogFieldFormat {
    fn default() -> (r: Self)
        ensures
            r == (DevLogFieldFormat {}),
    {
        DevLogFieldFormat {}
    }
}

impl DevLogFieldFormat {
    /// A fresh visitor in span context.
    pub fn make_visitor(&self) -> (r: DevLogFieldVisitor)
        ensures
            r.mode == VisitorMode::Span,
            r.first_visit == true,
    {
        DevLogFieldVisitor { mode: VisitorMode::Span, first_visit: true }
    }

    /// A fresh visitor in event context.
    pub fn make_event_visitor(&self) -> (r: DevLogFieldVisitor)
        ensures
            r.mode == VisitorMode::Event,
            r.first_visit == true,
    {
        DevLogFieldVisitor { mode: VisitorMode::Event, first_visit: true }
    }
}

/// The per-record serializer state: the context's delimiter policy and a
/// first-visit flag. One visitor is made fresh per record and discarded after
/// it; the rendered text lands incrementally in the writer it is handed.
pub struct DevLogFieldVisitor {
    pub mode: VisitorMode,
    pub first_visit: bool,
}

impl DevLogFieldVisitor {
    fn delimit(&self, w: &mut ColorWriter)
        ensures
            final(w).buf@ == old(w).buf@ + self.mode.spec_delimiter(old(w).ansi),
            final(w).ansi == old(w).ansi,
    {
        let ansi = w.ansi;
        let d = self.mode.delimiter(ansi);
        w.write_str(d);
    }

    fn write_field_name(&self, w: &mut ColorWriter, name: &str)
        ensures
            final(w).buf@ == old(w).buf@ + spec_field_name_text(old(w).ansi, name@),
            final(w).ansi == old(w).ansi,
    {
        if w.ansi {
            w.write_str(crate::color::color_code(Color::Cyan));
            w.write_str(name);
            w.write_str(crate::color::color_code(Color::Gray));
            w.write_str(":");
            w.write_str(crate::color::reset_code());
        } else {
            w.write_str(name);
            w.write_str(":");
        }
        proof {
            assert(w.buf@ =~= old(w).buf@ + spec_field_name_text(old(w).ansi, name@));
        }
    }

    fn write_string_field(&self, w: &mut ColorWriter, name: &str, value: &str)
        ensures
            final(w).buf@ == old(w).buf@ + spec_value_field(old(w).ansi, name@, value@),
            final(w).ansi == old(w).ansi,
    {
        self.write_field_name(w, name);
        w.write_str(" ");
        w.write_str(value);
        proof {
            assert(w.buf@ =~= old(w).buf@ + spec_value_field(old(w).ansi, name@, value@));
        }
    }

    fn write_string_list_item(&self, w: &mut ColorWriter, value: &str)
        ensures
            final(w).buf@ == old(w).buf@ + spec_list_item(self.mode, old(w).ansi, value@),
            final(w).ansi == old(w).ansi,
    {
        self.delimit(w);
        w.write_str("  ");
        w.write_with_color("-", Color::Gray);
        w.write_str(" ");
        w.write_str(value);
        proof {
            assert(w.buf@ =~= old(w).buf@ + spec_list_item(self.mode, old(w).ansi, value@));
        }
    }

    /// Renders the error chain whose own message is `message` and whose cause
    /// messages are `causes[start..]`.
    fn write_error_chain(&self, w: &mut ColorWriter, name: &str, message: &str, causes: &Vec<String>, start: usize)
        requires
            start <= causes@.len(),
        ensures
            final(w).buf@ == old(w).buf@ + spec_error_field(
                self.mode,
                old(w).ansi,
                name@,
                message@,
                causes.deep_view().skip(start as int),
            ),
            final(w).ansi == old(w).ansi,
    {
        let ghost rest = causes.deep_view().skip(start as int);
        if causes.len() == start {
            proof {
                assert(rest.len() == 0);
            }
            self.write_string_field(w, name, message);
        } else {
            let ghost items = seq![message@] + rest;
            self.write_field_name(w, name);
            self.write_string_list_item(w, message);
            proof {
                assert(items.take(1) =~= seq![message@]);
                assert(seq![message@][0] == message@);
                assert(seq![message@].drop_first() =~= Seq::<Seq<char>>::empty());
                assert(spec_list_items(self.mode, w.ansi, seq![message@].drop_first())
                    == Seq::<char>::empty());
                assert(spec_list_items(self.mode, w.ansi, seq![message@]) == spec_list_item(
                    self.mode,
                    w.ansi,
                    message@,
                ) + spec_list_items(self.mode, w.ansi, seq![message@].drop_first()));
                assert(spec_list_items(self.mode, w.ansi, items.take(1)) =~= spec_list_item(
                    self.mode,
                    w.ansi,
                    message@,
                ));
                assert(w.buf@ =~= old(w).buf@ + spec_field_name_text(w.ansi, name@)
                    + spec_list_items(self.mode, w.ansi, items.take(1)));
            }
            let mut i: usize = start;
            while i < causes.len()
                invariant
                    start <= i <= causes@.len(),
                    items == seq![message@] + causes.deep_view().skip(start as int),
                    causes.deep_view().len() == causes@.len(),
                    w.ansi == old(w).ansi,
                    w.buf@ == old(w).buf@ + spec_field_name_text(w.ansi, name@)
                        + spec_list_items(self.mode, w.ansi, items.take(i - start + 1)),
                decreases causes@.len() - i,
            {
                let ghost k = i - start + 1;
                self.write_string_list_item(w, causes[i].as_str());
                proof {
                    assert(causes.deep_view()[i as int] == causes@[i as int]@);
                    assert(items[k] == causes.deep_view()[i as int]);
                    assert(items.take(k + 1) =~= items.take(k).push(items[k]));
                    lemma_list_items_push(self.mode, w.ansi, items.take(k), items[k]);
                    assert(w.buf@ =~= old(w).buf@ + spec_field_name_text(w.ansi, name@)
                        + spec_list_items(self.mode, w.ansi, items.take(k + 1)));
                }
                i = i + 1;
            }
            proof {
                assert(items.take(causes@.len() - start + 1) =~= items);
                assert(w.buf@ =~= old(w).buf@ + spec_error_field(
                    self.mode,
                    old(w).ansi,
                    name@,
                    message@,
                    rest,
                ));
            }
        }
    }

    /// Records one field whose value text is already rendered (the default
    /// structured representation for debug-typed values, the raw text for
    /// display-typed ones).
    pub fn record_debug(&mut self, w: &mut ColorWriter, name: &str, text: &str)
        ensures
            final(self).mode == old(self).mode,
            final(self).first_visit == false,
            final(w).ansi == old(w).ansi,
            final(w).buf@ == old(w).buf@ + spec_text_field_visit(
                old(self).mode,
                old(w).ansi,
                old(self).first_visit,
                name@,
                text@,
            ),
    {
        if self.first_visit && self.mode == VisitorMode::Event && str_eq(name, "message") {
            // The main log message: the headline, with no label and no
            // delimiter.
            self.first_visit = false;
            w.write_str(text);
            return ;
        }
        if !self.first_visit {
            self.delimit(w);
        }
        self.first_visit = false;
        self.write_string_field(w, name, text);
        proof {
            assert(w.buf@ =~= old(w).buf@ + spec_text_field_visit(
                old(self).mode,
                old(w).ansi,
                old(self).first_visit,
                name@,
                text@,
            ));
        }
    }

    /// Records one error-typed field: its own message and the display text of
    /// each cause along its chain, outermost cause first.
    pub fn record_error(&mut self, w: &mut ColorWriter, name: &str, message: &str, causes: &Vec<String>)
        ensures
            final(self).mode == old(self).mode,
            final(self).first_visit == false,
            final(w).ansi == old(w).ansi,
            final(w).buf@ == old(w).buf@ + spec_error_field_visit(
                old(self).mode,
                old(w).ansi,
                old(self).first_visit,
                name@,
                message@,
                causes.deep_view(),
            ),
    {
        if self.first_visit && str_eq(name, "cause") {
            // No main log message preceded this error, and the field name
            // asks for promotion: the error's own message becomes the
            // headline, and its first cause, if any, carries the field.
            self.first_visit = false;
            w.write_str(message);
            if causes.len() == 0 {
                return ;
            }
            self.delimit(w);
            self.write_error_chain(w, name, causes[0].as_str(), causes, 1);
            proof {
                assert(causes.deep_view()[0] == causes@[0]@);
                assert(causes.deep_view().skip(1) =~= causes.deep_view().drop_first());
                assert(w.buf@ =~= old(w).buf@ + spec_error_field_visit(
                    old(self).mode,
                    old(w).ansi,
                    old(self).first_visit,
                    name@,
                    message@,
                    causes.deep_view(),
                ));
            }
            return ;
        }
        if !self.first_visit {
            self.delimit(w);
        }
        self.first_visit = false;
        self.write_error_chain(w, name, message, causes, 0);
        proof {
            assert(causes.deep_view().skip(0) =~= causes.deep_view());
            assert(w.buf@ =~= old(w).buf@ + spec_error_field_visit(
                old(self).mode,
                old(w).ansi,
                old(self).first_visit,
                name@,
                message@,
                causes.deep_view(),
            ));
        }
    }
}

} // verus!
