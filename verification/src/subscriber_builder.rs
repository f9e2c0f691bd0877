//! The fluent configuration builder: toggles which parts of a record are
//! displayed and carries the chosen time strategy. It only assembles the
//! event formatter's configuration; installing the renderer as a sink is the
//! embedding program's business.

use crate::event_format::DevLogEventFormat;
use crate::field_format::DevLogFieldFormat;
use crate::time_format::DevLogTimeFormat;
use vstd::prelude::*;

verus! {

/// Builds the renderer's configuration: a field format and an event format.
pub struct DevLogSubscriberBuilder<TimeFormatT> {
    pub field_format: DevLogFieldFormat,
    pub event_format: DevLogEventFormat<TimeFormatT>,
}

impl Default for DevLogSubscriberBuilder<DevLogTimeFormat> {
    fn default() -> (r: Self)
        ensures
            r.event_format.timer == (DevLogTimeFormat {}),
            r.event_format.display_timestamp == true,
            r.event_format.display_target == true,
            r.event_format.display_level == true,
            r.event_format.display_thread_id == false,
            r.event_format.display_thread_name == false,
            r.event_format.display_filename == false,
            r.event_format.display_line_number == false,
    {
        Self {
            field_format: DevLogFieldFormat::default(),
            event_format: DevLogEventFormat::default(),
        }
    }
}

impl<TimeFormatT> DevLogSubscriberBuilder<TimeFormatT> {
    /// Excludes timestamps from log events.
    pub fn without_time(self) -> (r: DevLogSubscriberBuilder<()>)
        ensures
            r.event_format.display_timestamp == false,
            r.event_format.display_target == self.event_format.display_target,
            r.event_format.display_level == self.event_format.display_level,
            r.event_format.display_thread_id == self.event_format.display_thread_id,
            r.event_format.display_thread_name == self.event_format.display_thread_name,
            r.event_format.display_filename == self.event_format.display_filename,
            r.event_format.display_line_number == self.event_format.display_line_number,
    {
        DevLogSubscriberBuilder {
            field_format: self.field_format,
            event_format: DevLogEventFormat {
                timer: (),
                display_timestamp: false,
                display_target: self.event_format.display_target,
                display_level: self.event_format.display_level,
                display_thread_id: self.event_format.display_thread_id,
                display_thread_name: self.event_format.display_thread_name,
                display_filename: self.event_format.display_filename,
                display_line_number: self.event_format.display_line_number,
            },
        }
    }

    /// Whether to show the target of a log event (where it originated).
    pub fn with_target(self, display_target: bool) -> (r: Self)
        ensures
            r.event_format.display_target == display_target,
            r.event_format.timer == self.event_format.timer,
            r.event_format.display_timestamp == self.event_format.display_timestamp,
            r.event_format.display_level == self.event_format.display_level,
            r.event_format.display_thread_id == self.event_format.display_thread_id,
            r.event_format.display_thread_name == self.event_format.display_thread_name,
            r.event_format.display_filename == self.event_format.display_filename,
            r.event_format.display_line_number == self.event_format.display_line_number,
    {
        let mut this = self;
        this.event_format.display_target = display_target;
        this
    }

    /// Whether to show the level of a log event (INFO, WARN, ERROR and the
    /// rest).
    pub fn with_level(self, display_level: bool) -> (r: Self)
        ensures
            r.event_format.display_level == display_level,
            r.event_format.timer == self.event_format.timer,
            r.event_format.display_timestamp == self.event_format.display_timestamp,
            r.event_format.display_target == self.event_format.display_target,
            r.event_format.display_thread_id == self.event_format.display_thread_id,
            r.event_format.display_thread_name == self.event_format.display_thread_name,
            r.event_format.display_filename == self.event_format.display_filename,
            r.event_format.display_line_number == self.event_format.display_line_number,
    {
        let mut this = self;
        this.event_format.display_level = display_level;
        this
    }

    /// Whether to show the id of the current thread in log events.
    pub fn with_thread_ids(self, display_thread_id: bool) -> (r: Self)
        ensures
            r.event_format.display_thread_id == display_thread_id,
            r.event_format.timer == self.event_format.timer,
            r.event_format.display_timestamp == self.event_format.display_timestamp,
            r.event_format.display_target == self.event_format.display_target,
            r.event_format.display_level == self.event_format.display_level,
            r.event_format.display_thread_name == self.event_format.display_thread_name,
            r.event_format.display_filename == self.event_format.display_filename,
            r.event_format.display_line_number == self.event_format.display_line_number,
    {
        let mut this = self;
        this.event_format.display_thread_id = display_thread_id;
        this
    }

    /// Whether to show the name of the current thread in log events.
    pub fn with_thread_names(self, display_thread_name: bool) -> (r: Self)
        ensures
            r.event_format.display_thread_name == display_thread_name,
            r.event_format.timer == self.event_format.timer,
            r.event_format.display_timestamp == self.event_format.display_timestamp,
            r.event_format.display_target == self.event_format.display_target,
            r.event_format.display_level == self.event_format.display_level,
            r.event_format.display_thread_id == self.event_format.display_thread_id,
            r.event_format.display_filename == self.event_format.display_filename,
            r.event_format.display_line_number == self.event_format.display_line_number,
    {
        let mut this = self;
        this.event_format.display_thread_name = display_thread_name;
        this
    }

    /// Whether to show the source code file path where a log event was
    /// logged.
    pub fn with_file(self, display_filename: bool) -> (r: Self)
        ensures
            r.event_format.display_filename == display_filename,
            r.event_format.timer == self.event_format.timer,
            r.event_format.display_timestamp == self.event_format.display_timestamp,
            r.event_format.display_target == self.event_format.display_target,
            r.event_format.display_level == self.event_format.display_level,
            r.event_format.display_thread_id == self.event_format.display_thread_id,
            r.event_format.display_thread_name == self.event_format.display_thread_name,
            r.event_format.display_line_number == self.event_format.display_line_number,
    {
        let mut this = self;
        this.event_format.display_filename = display_filename;
        this
    }

    /// Whether to show the line number in a source code file path where a
    /// log event was logged.
    pub fn with_line_number(self, display_line_number: bool) -> (r: Self)
        ensures
            r.event_format.display_line_number == display_line_number,
            r.event_format.timer == self.event_format.timer,
            r.event_format.display_timestamp == self.event_format.display_timestamp,
            r.event_format.display_target == self.event_format.display_target,
            r.event_format.display_level == self.event_format.display_level,
            r.event_format.display_thread_id == self.event_format.display_thread_id,
            r.event_format.display_thread_name == self.event_format.display_thread_name,
            r.event_format.display_filename == self.event_format.display_filename,
    {
        let mut this = self;
        this.event_format.display_line_number = display_line_number;
        this
    }

    /// Whether to show the source code location (file path and line number)
    /// where a log event was logged. Equivalent to calling
    /// [`DevLogSubscriberBuilder::with_file`] and
    /// [`DevLogSubscriberBuilder::with_line_number`] with the same value.
    pub fn with_source_location(self, display_location: bool) -> (r: Self)
        ensures
            r.event_format.display_filename == display_location,
            r.event_format.display_line_number == display_location,
            r.event_format.timer == self.event_format.timer,
            r.event_format.display_timestamp == self.event_format.display_timestamp,
            r.event_format.display_target == self.event_format.display_target,
            r.event_format.display_level == self.event_format.display_level,
            r.event_format.display_thread_id == self.event_format.display_thread_id,
            r.event_format.display_thread_name == self.event_format.display_thread_name,
    {
        self.with_line_number(display_location).with_file(display_location)
    }
}

} // verus!
