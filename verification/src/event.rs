//! The events that the editor's notifications decode to.

use crate::text::{decimal, push_decimal};
use vstd::prelude::*;
use vstd::string::StringExecFns;

verus! {

/// What the editor reported.
#[derive(Clone, Debug, PartialEq, Eq)]
pub enum Event {
    /// The cursor moved while text was being inserted or replaced.
    CursorMovedI { line: usize, column: usize },
    /// An editing session began in the given mode with the cursor at the
    /// given place.
    InsertEnter { mode: String, line: usize, column: usize },
    /// The editing session ended.
    InsertLeave,
    /// The editor is going away.
    Quit,
}

/// An [`Event`] with its mode as a sequence of characters.
pub enum EventView {
    CursorMovedI { line: usize, column: usize },
    InsertEnter { mode: Seq<char>, line: usize, column: usize },
    InsertLeave,
    Quit,
}

impl View for Event {
    type V = EventView;

    open spec fn view(&self) -> EventView {
        match *self {
            Event::CursorMovedI { line, column } => EventView::CursorMovedI { line, column },
            Event::InsertEnter { mode, line, column } => EventView::InsertEnter {
                mode: mode@,
                line,
                column,
            },
            Event::InsertLeave => EventView::InsertLeave,
            Event::Quit => EventView::Quit,
        }
    }
}

impl EventView {
    /// The event written out for a log.
    pub open spec fn description(self) -> Seq<char> {
        match self {
            EventView::CursorMovedI { line, column } => "Event::CursorMovedI{ line: "@ + decimal(
                line as nat,
            ) + ", column: "@ + decimal(column as nat) + " }"@,
            EventView::InsertEnter { mode, line, column } => "Event::InsertEnter{ mode: "@ + mode
                + ", line: "@ + decimal(line as nat) + ", column: "@ + decimal(column as nat)
                + "}"@,
            EventView::InsertLeave => "Event::InsertLeave"@,
            EventView::Quit => "Event::Quit"@,
        }
    }
}

/// A decoded event or the reason why there is none, by views.
pub open spec fn event_result(result: Result<Event, String>) -> Result<EventView, Seq<char>> {
    match result {
        Ok(event) => Ok(event@),
        Err(reason) => Err(reason@),
    }
}

/// The cursor event that two readings of numbers make: the first failure
/// wins, the line's before the column's.
pub open spec fn cursor_moved_reading(
    line: Result<usize, Seq<char>>,
    column: Result<usize, Seq<char>>,
) -> Result<EventView, Seq<char>> {
    match (line, column) {
        (Err(reason), _) => Err(reason),
        (Ok(_), Err(reason)) => Err(reason),
        (Ok(line), Ok(column)) => Ok(EventView::CursorMovedI { line, column }),
    }
}

/// The session start that three readings make: the first failure wins, in
/// the order mode, line, column.
pub open spec fn insert_enter_reading(
    mode: Result<Seq<char>, Seq<char>>,
    line: Result<usize, Seq<char>>,
    column: Result<usize, Seq<char>>,
) -> Result<EventView, Seq<char>> {
    match (mode, line, column) {
        (Err(reason), _, _) => Err(reason),
        (Ok(_), Err(reason), _) => Err(reason),
        (Ok(_), Ok(_), Err(reason)) => Err(reason),
        (Ok(mode), Ok(line), Ok(column)) => Ok(EventView::InsertEnter { mode, line, column }),
    }
}

impl Event {
    /// Makes the cursor event from the readings of its two arguments.
    pub fn cursor_moved_i(line: Result<usize, String>, column: Result<usize, String>) -> (event:
        Result<Event, String>)
        ensures
            event_result(event) == cursor_moved_reading(
                crate::args::usize_result(line),
                crate::args::usize_result(column),
            ),
    {
        let line = match line {
            Ok(line) => line,
            Err(reason) => {
                return Err(reason);
            },
        };
        let column = match column {
            Ok(column) => column,
            Err(reason) => {
                return Err(reason);
            },
        };
        Ok(Event::CursorMovedI { line, column })
    }

    /// Makes the session start from the readings of its three arguments.
    pub fn insert_enter(
        mode: Result<String, String>,
        line: Result<usize, String>,
        column: Result<usize, String>,
    ) -> (event: Result<Event, String>)
        ensures
            event_result(event) == insert_enter_reading(
                crate::text::text_result(mode),
                crate::args::usize_result(line),
                crate::args::usize_result(column),
            ),
    {
        let mode = match mode {
            Ok(mode) => mode,
            Err(reason) => {
                return Err(reason);
            },
        };
        let line = match line {
            Ok(line) => line,
            Err(reason) => {
                return Err(reason);
            },
        };
        let column = match column {
            Ok(column) => column,
            Err(reason) => {
                return Err(reason);
            },
        };
        Ok(Event::InsertEnter { mode, line, column })
    }

    /// Writes the event out for a log.
    pub fn describe(&self) -> (text: String)
        ensures
            text@ == self@.description(),
    {
        match self {
            Event::CursorMovedI { line, column } => {
                let mut text = "Event::CursorMovedI{ line: ".to_owned();
                push_decimal(&mut text, *line);
                text.append(", column: ");
                push_decimal(&mut text, *column);
                text.append(" }");
                text
            },
            Event::InsertEnter { mode, line, column } => {
                let mut text = "Event::InsertEnter{ mode: ".to_owned();
                text.append(mode.as_str());
                text.append(", line: ");
                push_decimal(&mut text, *line);
                text.append(", column: ");
                push_decimal(&mut text, *column);
                text.append("}");
                text
            },
            Event::InsertLeave => "Event::InsertLeave".to_owned(),
            Event::Quit => "Event::Quit".to_owned(),
        }
    }
}

} // verus!
