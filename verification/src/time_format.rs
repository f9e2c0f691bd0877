//! The time formatter: renders the capture instant as a bracketed local
//! wall-clock string `[HH:MM:SS]`. The bracket characters are part of this
//! renderer's visual grammar and are written here, whatever inner strategy
//! produces the clock digits.

use crate::color::ColorWriter;
use crate::digits::{spec_two_digits, two_digit_string};
use chrono::Timelike;
use vstd::prelude::*;

verus! {

/// A bracketed wall-clock rendering of the given hour, minute and second.
pub open spec fn spec_clock(h: int, m: int, s: int) -> Seq<char> {
    "["@ + spec_two_digits(h) + ":"@ + spec_two_digits(m) + ":"@ + spec_two_digits(s) + "]"@
}

/// Whether a piece of text is a bracketed wall-clock rendering of some valid
/// local time.
pub open spec fn spec_is_clock(t: Seq<char>) -> bool {
    exists|h: int, m: int, s: int|
        0 <= h < 24 && 0 <= m < 60 && 0 <= s < 60 && t == spec_clock(h, m, s)
}

/// A wall-clock rendering holds brackets, colons and digits alone, so the
/// default strategy never contributes an escape character.
pub proof fn lemma_clock_esc_free(t: Seq<char>)
    requires
        spec_is_clock(t),
    ensures
        crate::color::esc_free(t),
{
    let (h, m, s) = choose|h: int, m: int, s: int|
        0 <= h < 24 && 0 <= m < 60 && 0 <= s < 60 && t == spec_clock(h, m, s);
    reveal_strlit("[");
    reveal_strlit(":");
    reveal_strlit("]");
    crate::digits::lemma_two_digits_esc_free(h);
    crate::digits::lemma_two_digits_esc_free(m);
    crate::digits::lemma_two_digits_esc_free(s);
    crate::color::lemma_esc_free_concat("["@, spec_two_digits(h));
    crate::color::lemma_esc_free_concat("["@ + spec_two_digits(h), ":"@);
    crate::color::lemma_esc_free_concat("["@ + spec_two_digits(h) + ":"@, spec_two_digits(m));
    crate::color::lemma_esc_free_concat(
        "["@ + spec_two_digits(h) + ":"@ + spec_two_digits(m),
        ":"@,
    );
    crate::color::lemma_esc_free_concat(
        "["@ + spec_two_digits(h) + ":"@ + spec_two_digits(m) + ":"@,
        spec_two_digits(s),
    );
    crate::color::lemma_esc_free_concat(
        "["@ + spec_two_digits(h) + ":"@ + spec_two_digits(m) + ":"@ + spec_two_digits(s),
        "]"@,
    );
}

/// Relies on chrono's `Local::now` and its `Timelike` accessors: `hour`
/// returns 0 to 23, `minute` 0 to 59, and `second` 0 to 59 (a leap second
/// surfaces in the nanosecond field, never here).
#[verifier::external_body]
fn local_hms() -> (r: (u32, u32, u32))
    ensures
        r.0 < 24,
        r.1 < 60,
        r.2 < 60,
{
    let now = chrono::Local::now();
    (now.hour(), now.minute(), now.second())
}

/// A pluggable time-rendering strategy: given the current instant, append a
/// textual rendering to the writer, reporting success. `time_spec` says what
/// an implementation may append; every implementation appends some text that
/// satisfies it, and leaves the writer's ANSI mode alone.
pub trait FormatTime {
    spec fn time_spec(&self, t: Seq<char>, ok: bool) -> bool;

    fn format_time(&self, writer: &mut ColorWriter) -> (ok: bool)
        ensures
            final(writer).ansi == old(writer).ansi,
            exists|t: Seq<char>|
                final(writer).buf@ == old(writer).buf@ + t && self.time_spec(t, ok),
    ;
}

/// The default strategy: the local wall clock, rendered `[HH:MM:SS]`.
#[derive(Clone, Copy, PartialEq, Eq, Structural)]
pub struct DevLogTimeFormat {}

impl Default for DevLogTimeFormat {
    fn default() -> (r: Self)
        ensures
            r == (DevLogTimeFormat {}),
    {
        DevLogTimeFormat {}
    }
}

impl FormatTime for DevLogTimeFormat {
    open spec fn time_spec(&self, t: Seq<char>, ok: bool) -> bool {
        ok && spec_is_clock(t)
    }

    fn format_time(&self, writer: &mut ColorWriter) -> (ok: bool)
        ensures
            exists|h: int, m: int, s: int|
                0 <= h < 24 && 0 <= m < 60 && 0 <= s < 60 && final(writer).buf@ == old(
                    writer,
                ).buf@ + spec_clock(h, m, s),
    {
        let (h, m, s) = local_hms();
        writer.write_str("[");
        let hh = two_digit_string(h);
        writer.write_str(hh.as_str());
        writer.write_str(":");
        let mm = two_digit_string(m);
        writer.write_str(mm.as_str());
        writer.write_str(":");
        let ss = two_digit_string(s);
        writer.write_str(ss.as_str());
        writer.write_str("]");
        proof {
            let t = spec_clock(h as int, m as int, s as int);
            assert(writer.buf@ =~= old(writer).buf@ + t);
            assert(spec_is_clock(t));
            assert(self.time_spec(t, true));
            assert(exists|u: Seq<char>|
                writer.buf@ == old(writer).buf@ + u && self.time_spec(u, true));
        }
        true
    }
}

/// The absent strategy, for a renderer configured without timestamps: it
/// appends nothing.
impl FormatTime for () {
    open spec fn time_spec(&self, t: Seq<char>, ok: bool) -> bool {
        ok && t == Seq::<char>::empty()
    }

    fn format_time(&self, writer: &mut ColorWriter) -> (ok: bool) {
        proof {
            let t = Seq::<char>::empty();
            assert(writer.buf@ =~= old(writer).buf@ + t);
            assert(self.time_spec(t, true));
            assert(exists|u: Seq<char>|
                writer.buf@ == old(writer).buf@ + u && self.time_spec(u, true));
        }
        true
    }
}

} // verus!
