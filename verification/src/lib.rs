//! A human-readable console renderer for structured log events: it turns one
//! emitted record (timestamp, level, target, fields, active spans, thread
//! info) into readable, optionally ANSI-colored multi-line text, favoring
//! scanability over compactness.

pub mod color;
pub mod digits;
pub mod event_format;
pub mod field_format;
pub mod subscriber_builder;
pub mod thread_pad;
pub mod time_format;

pub use subscriber_builder::DevLogSubscriberBuilder;
pub use time_format::DevLogTimeFormat;

use vstd::prelude::*;

verus! {

/// A builder with the default configuration: local wall-clock timestamps,
/// target and level shown, thread and source-location details hidden.
pub fn fmt() -> (r: DevLogSubscriberBuilder<DevLogTimeFormat>)
    ensures
        r.event_format.timer == (DevLogTimeFormat {}),
        r.event_format.display_timestamp == true,
        r.event_format.display_target == true,
        r.event_format.display_level == true,
        r.event_format.display_thread_id == false,
        r.event_format.display_thread_name == false,
        r.event_format.display_filename == false,
        r.event_format.display_line_number == false,
{
    DevLogSubscriberBuilder::default()
}

} // verus!
