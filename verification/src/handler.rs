//! Decoding the editor's notifications into events.

use crate::args::{parse_string, parse_usize, string_reading, usize_reading, value_as_str, value_as_u64};
use crate::event::{cursor_moved_reading, event_result, insert_enter_reading, Event, EventView};
use crate::text::{decimal, push_decimal};
use neovim_lib::Value;
use vstd::prelude::*;
use vstd::string::StringExecFns;

verus! {

/// The notification that reports a cursor movement during a session.
pub const CURSOR_MOVED: &'static str = "cursor-moved";

/// The notification that reports the start of a session.
pub const INSERT_ENTER: &'static str = "insert-enter";

/// The notification that reports the end of a session.
pub const INSERT_LEAVE: &'static str = "insert-leave";

/// The notification that reports that the editor is going away.
pub const QUIT: &'static str = "quit";

/// The reason given when a notification has the wrong number of arguments.
pub open spec fn arity_message(event: Seq<char>, expected: nat, found: nat) -> Seq<char> {
    "Wrong number of arguments for '"@ + event + "'.  Expected "@ + decimal(expected)
        + ", found "@ + decimal(found)
}

/// What the arguments of a cursor notification decode to: exactly two
/// numbers, the line and the column.
pub open spec fn cursor_moved_decoding(args: Seq<Value>) -> Result<EventView, Seq<char>> {
    if args.len() != 2 {
        Err(arity_message("CursorMoveI"@, 2, args.len()))
    } else {
        cursor_moved_reading(
            usize_reading(value_as_u64(args[0])),
            usize_reading(value_as_u64(args[1])),
        )
    }
}

/// What the arguments of a session start decode to: exactly a string and two
/// numbers, the mode, the line and the column.
pub open spec fn insert_enter_decoding(args: Seq<Value>) -> Result<EventView, Seq<char>> {
    if args.len() != 3 {
        Err(arity_message("InsertEnter"@, 3, args.len()))
    } else {
        insert_enter_reading(
            string_reading(value_as_str(args[0])),
            usize_reading(value_as_u64(args[1])),
            usize_reading(value_as_u64(args[2])),
        )
    }
}

/// What a notification decodes to: an event, nothing for a name that is not
/// one of the four, or the reason why its arguments were refused.
pub open spec fn notification_decoding(name: Seq<char>, args: Seq<Value>) -> Result<
    Option<EventView>,
    Seq<char>,
> {
    if name == CURSOR_MOVED@ {
        match cursor_moved_decoding(args) {
            Ok(event) => Ok(Some(event)),
            Err(reason) => Err(reason),
        }
    } else if name == INSERT_ENTER@ {
        match insert_enter_decoding(args) {
            Ok(event) => Ok(Some(event)),
            Err(reason) => Err(reason),
        }
    } else if name == INSERT_LEAVE@ {
        Ok(Some(EventView::InsertLeave))
    } else if name == QUIT@ {
        Ok(Some(EventView::Quit))
    } else {
        Ok(None)
    }
}

/// The events that a notification adds to those waiting: the one it decodes
/// to, if it decodes to one.
pub open spec fn notified(name: Seq<char>, args: Seq<Value>) -> Seq<EventView> {
    match notification_decoding(name, args) {
        Ok(Some(event)) => seq![event],
        _ => Seq::empty(),
    }
}

/// A decoded notification or the reason why there is none, by views.
pub open spec fn decoding_result(result: Result<Option<Event>, String>) -> Result<
    Option<EventView>,
    Seq<char>,
> {
    match result {
        Ok(Some(event)) => Ok(Some(event@)),
        Ok(None) => Ok(None),
        Err(reason) => Err(reason@),
    }
}

/// The notifications to subscribe to: the four that decode to an event.
pub fn subscriptions() -> (names: Vec<&'static str>)
    ensures
        names@.len() == 4,
        names@[0]@ == CURSOR_MOVED@,
        names@[1]@ == INSERT_ENTER@,
        names@[2]@ == INSERT_LEAVE@,
        names@[3]@ == QUIT@,
{
    let mut names: Vec<&'static str> = Vec::new();
    names.push(CURSOR_MOVED);
    names.push(INSERT_ENTER);
    names.push(INSERT_LEAVE);
    names.push(QUIT);
    names
}

/// Writes the reason for a wrong number of arguments.
pub fn arity_error(event: &str, expected: usize, found: usize) -> (reason: String)
    ensures
        reason@ == arity_message(event@, expected as nat, found as nat),
{
    let mut reason = "Wrong number of arguments for '".to_owned();
    reason.append(event);
    reason.append("'.  Expected ");
    push_decimal(&mut reason, expected);
    reason.append(", found ");
    push_decimal(&mut reason, found);
    reason
}

/// Receives the editor's notifications and keeps the events they decode to,
/// oldest first, until they are taken.
#[derive(Debug)]
pub struct NeovimHandler(pub Vec<Event>);

impl NeovimHandler {
    /// The events that wait to be taken, oldest first.
    pub open spec fn pending(&self) -> Seq<EventView> {
        self.0@.map_values(|event: Event| event@)
    }

    /// A handler with no event waiting.
    pub fn new() -> (handler: NeovimHandler)
        ensures
            handler.pending() == Seq::<EventView>::empty(),
    {
        NeovimHandler(Vec::new())
    }

    /// Decodes the arguments of a cursor notification.
    pub fn parse_cursor_moved_i(&mut self, args: &Vec<Value>) -> (parsed: Result<Event, String>)
        ensures
            event_result(parsed) == cursor_moved_decoding(args@),
            *final(self) == *old(self),
    {
        if 2 != args.len() {
            return Err(arity_error("CursorMoveI", 2, args.len()));
        }
        Event::cursor_moved_i(parse_usize(&args[0]), parse_usize(&args[1]))
    }

    /// Decodes the arguments of a session start.
    pub fn parse_insert_enter(&mut self, args: &Vec<Value>) -> (parsed: Result<Event, String>)
        ensures
            event_result(parsed) == insert_enter_decoding(args@),
            *final(self) == *old(self),
    {
        if 3 != args.len() {
            return Err(arity_error("InsertEnter", 3, args.len()));
        }
        Event::insert_enter(parse_string(&args[0]), parse_usize(&args[1]), parse_usize(&args[2]))
    }

    /// Decodes a notification without keeping what it decodes to.
    pub fn decode(&mut self, name: &str, args: &Vec<Value>) -> (decoded: Result<
        Option<Event>,
        String,
    >)
        ensures
            decoding_result(decoded) == notification_decoding(name@, args@),
            *final(self) == *old(self),
    {
        if name.eq(CURSOR_MOVED) {
            match self.parse_cursor_moved_i(args) {
                Ok(event) => Ok(Some(event)),
                Err(reason) => Err(reason),
            }
        } else if name.eq(INSERT_ENTER) {
            match self.parse_insert_enter(args) {
                Ok(event) => Ok(Some(event)),
                Err(reason) => Err(reason),
            }
        } else if name.eq(INSERT_LEAVE) {
            Ok(Some(Event::InsertLeave))
        } else if name.eq(QUIT) {
            Ok(Some(Event::Quit))
        } else {
            Ok(None)
        }
    }

    /// Takes in a notification: the event it decodes to joins those waiting,
    /// behind them; a notification that decodes to none leaves them as they
    /// are. Returns the reason where the arguments were refused, for the
    /// caller to log.
    pub fn handle_notify(&mut self, name: &str, args: Vec<Value>) -> (failure: Option<String>)
        ensures
            final(self).pending() == old(self).pending() + notified(name@, args@),
            match notification_decoding(name@, args@) {
                Ok(_) => failure is None,
                Err(reason) => failure is Some && failure->0@ == reason,
            },
    {
        match self.decode(name, &args) {
            Ok(Some(event)) => {
                self.0.push(event);
                assert(self.pending() =~= old(self).pending() + seq![event@]);
                None
            },
            Ok(None) => {
                assert(self.pending() =~= old(self).pending() + Seq::<EventView>::empty());
                None
            },
            Err(reason) => {
                assert(self.pending() =~= old(self).pending() + Seq::<EventView>::empty());
                Some(reason)
            },
        }
    }

    /// Hands out the events that wait, oldest first, and leaves none waiting.
    pub fn take_pending(&mut self) -> (events: Vec<Event>)
        ensures
            events@ == old(self).0@,
            final(self).pending() == Seq::<EventView>::empty(),
    {
        let mut events: Vec<Event> = Vec::new();
        std::mem::swap(&mut self.0, &mut events);
        events
    }
}

/// A cursor notification with any number of arguments but two fails to
/// decode, and adds no event to those waiting.
pub proof fn lemma_cursor_moved_needs_two_arguments(args: Seq<Value>)
    requires
        args.len() != 2,
    ensures
        notification_decoding(CURSOR_MOVED@, args) == Err::<Option<EventView>, Seq<char>>(
            arity_message("CursorMoveI"@, 2, args.len()),
        ),
        notified(CURSOR_MOVED@, args) == Seq::<EventView>::empty(),
{
}

/// A session start with any number of arguments but three fails to decode,
/// and so does one whose line or column does not read as a number that is
/// not negative; neither adds an event to those waiting.
pub proof fn lemma_insert_enter_needs_positions(args: Seq<Value>)
    requires
        args.len() != 3 || value_as_u64(args[1]) is None || value_as_u64(args[2]) is None,
    ensures
        notification_decoding(INSERT_ENTER@, args) is Err,
        notified(INSERT_ENTER@, args) == Seq::<EventView>::empty(),
{
    reveal_strlit("cursor-moved");
    reveal_strlit("insert-enter");
    assert(CURSOR_MOVED@[0] != INSERT_ENTER@[0]);
}

/// The end of a session and the editor's going away decode to their events
/// whatever the arguments are.
pub proof fn lemma_insert_leave_and_quit_decode(args: Seq<Value>)
    ensures
        notification_decoding(INSERT_LEAVE@, args) == Ok::<Option<EventView>, Seq<char>>(
            Some(EventView::InsertLeave),
        ),
        notification_decoding(QUIT@, args) == Ok::<Option<EventView>, Seq<char>>(
            Some(EventView::Quit),
        ),
        notified(INSERT_LEAVE@, args) == seq![EventView::InsertLeave],
        notified(QUIT@, args) == seq![EventView::Quit],
{
    reveal_strlit("cursor-moved");
    reveal_strlit("insert-enter");
    reveal_strlit("insert-leave");
    reveal_strlit("quit");
    assert(INSERT_LEAVE@[0] != CURSOR_MOVED@[0]);
    assert(INSERT_LEAVE@[7] != INSERT_ENTER@[7]);
    assert(QUIT@.len() != CURSOR_MOVED@.len());
}

/// A notification under any name but the four decodes to no event and to no
/// failure, whatever its arguments.
pub proof fn lemma_other_names_ignored(name: Seq<char>, args: Seq<Value>)
    requires
        name != CURSOR_MOVED@,
        name != INSERT_ENTER@,
        name != INSERT_LEAVE@,
        name != QUIT@,
    ensures
        notification_decoding(name, args) == Ok::<Option<EventView>, Seq<char>>(None),
        notified(name, args) == Seq::<EventView>::empty(),
{
}

} // verus!
