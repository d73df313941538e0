//! The session state machine: which mode the editor is in, which span of
//! text the session has touched, and which command each event calls for.

use crate::event::{Event, EventView};
use crate::highlight::{
    configured_parent, get_valid_parent_highlight_group, group_name, valid_parent, HighlightGroup,
    HighlightGroups,
};
use crate::position::Position;
use crate::text::{decimal, push_decimal};
use neovim_lib::{CallError, Value};
use vstd::prelude::*;
use vstd::string::StringExecFns;

verus! {

/// The notice sent to the editor once the connection stands.
pub const CONNECT_NOTICE: &'static str = "echom \"rust client connected to neovim\"";

/// The notice sent to the editor before the connection is given up.
pub const DISCONNECT_NOTICE: &'static str = "echom \"rust client disconnected from neovim\"";

/// What the editor is doing, as far as the session cares.
#[derive(Clone, Copy, Debug, PartialEq, Eq, Structural)]
pub enum Mode {
    /// Text is being inserted.
    Insert,
    /// Text is being replaced.
    Replace,
    /// Anything else: no session is under way.
    Other,
}

/// The text that a session has touched: everything from `start` to `end`,
/// both included.
#[derive(Clone, Copy, Debug, PartialEq, Eq, Structural)]
pub struct Span {
    pub start: Position,
    pub end: Position,
}

impl Span {
    /// The start does not come after the end.
    pub open spec fn wf(self) -> bool {
        self.start.at_most(self.end)
    }

    /// The span that holds one position only.
    pub open spec fn at(position: Position) -> Span {
        Span { start: position, end: position }
    }

    /// The span stretched as far as needed to hold `position` too. A bound
    /// that already reaches the position stays as it is.
    pub open spec fn widened(self, position: Position) -> Span {
        Span { start: self.start.earlier(position), end: self.end.later(position) }
    }

    /// Whether `position` lies within the span.
    pub open spec fn covers(self, position: Position) -> bool {
        self.start.at_most(position) && position.at_most(self.end)
    }
}

/// The mode that a session start asks for: `"r"` for replacing, `"i"` for
/// inserting, none for any other tag.
pub open spec fn session_mode(tag: Seq<char>) -> Option<Mode> {
    if tag == "r"@ {
        Some(Mode::Replace)
    } else if tag == "i"@ {
        Some(Mode::Insert)
    } else {
        None
    }
}

/// The position that a cursor event reports.
pub open spec fn moved(position: Position) -> EventView {
    EventView::CursorMovedI { line: position.line, column: position.column }
}

/// A command for the editor.
#[derive(Clone, Debug, PartialEq, Eq)]
pub enum Command {
    /// Mark the text from `start` to `end`, both included.
    DefineRegion { start: Position, end: Position },
    /// Take the mark away.
    RemoveRegion,
    /// Give the mark the style of the group `parent`.
    LinkHighlight { parent: HighlightGroup },
    /// Say goodbye; no event is handled after this.
    Disconnect,
}

/// A [`Command`] with its group as a sequence of characters.
pub enum CommandView {
    DefineRegion { start: Position, end: Position },
    RemoveRegion,
    LinkHighlight { parent: Seq<char> },
    Disconnect,
}

impl View for Command {
    type V = CommandView;

    open spec fn view(&self) -> CommandView {
        match *self {
            Command::DefineRegion { start, end } => CommandView::DefineRegion { start, end },
            Command::RemoveRegion => CommandView::RemoveRegion,
            Command::LinkHighlight { parent } => CommandView::LinkHighlight { parent: parent@ },
            Command::Disconnect => CommandView::Disconnect,
        }
    }
}

/// An optional command by its view.
pub open spec fn command_view(command: Option<Command>) -> Option<CommandView> {
    match command {
        Some(command) => Some(command@),
        None => None,
    }
}

/// The text of the command that marks a region.
pub open spec fn define_region_text(start: Position, end: Position) -> Seq<char> {
    "syntax region ScorchedEarth start=/\\%"@ + decimal(start.line as nat) + "l\\%"@ + decimal(
        start.column as nat,
    ) + "c/ end=/\\%"@ + decimal(end.line as nat) + "l\\%"@ + decimal(end.column as nat) + "c/"@
}

/// The text of the command that links the region's style to a group.
pub open spec fn link_highlight_text(parent: Seq<char>) -> Seq<char> {
    "highlight link ScorchedEarth "@ + parent.push('\n')
}

impl CommandView {
    /// The command as the editor reads it.
    pub open spec fn text(self) -> Seq<char> {
        match self {
            CommandView::DefineRegion { start, end } => define_region_text(start, end),
            CommandView::RemoveRegion => "syntax clear ScorchedEarth"@,
            CommandView::LinkHighlight { parent } => link_highlight_text(parent),
            CommandView::Disconnect => DISCONNECT_NOTICE@,
        }
    }
}

/// The state of the session: the mode and the span touched so far.
pub struct SessionView {
    pub mode: Mode,
    pub span: Option<Span>,
}

impl SessionView {
    /// The state before any event: no session, no span.
    pub open spec fn initial() -> SessionView {
        SessionView { mode: Mode::Other, span: None }
    }

    /// A span is kept exactly while a session is under way, and its start
    /// does not come after its end.
    pub open spec fn wf(self) -> bool {
        &&& self.span is Some <==> self.mode != Mode::Other
        &&& self.span matches Some(span) ==> span.wf()
    }

    /// The span after the cursor has been seen at `position`.
    pub open spec fn span_with(self, position: Position) -> Span {
        match self.span {
            Some(span) => span.widened(position),
            None => Span::at(position),
        }
    }

    /// The state after an event.
    pub open spec fn next(self, event: EventView) -> SessionView {
        match event {
            EventView::CursorMovedI { line, column } => if self.mode == Mode::Other {
                self
            } else {
                SessionView {
                    mode: self.mode,
                    span: Some(self.span_with(Position { line, column })),
                }
            },
            EventView::InsertEnter { mode, line, column } => match session_mode(mode) {
                Some(mode) => SessionView {
                    mode,
                    span: Some(Span::at(Position { line, column })),
                },
                None => self,
            },
            EventView::InsertLeave => SessionView::initial(),
            EventView::Quit => self,
        }
    }

    /// The command that an event calls for, if it calls for one. `parent`
    /// is the group to link to, as [`valid_parent`] picks it.
    pub open spec fn emitted(self, event: EventView, parent: Option<Seq<char>>) -> Option<
        CommandView,
    > {
        match event {
            EventView::CursorMovedI { line, column } => if self.mode == Mode::Other {
                None
            } else {
                let span = self.span_with(Position { line, column });
                Some(CommandView::DefineRegion { start: span.start, end: span.end })
            },
            EventView::InsertEnter { mode, line, column } => match (session_mode(mode), parent) {
                (Some(_), Some(parent)) => Some(CommandView::LinkHighlight { parent }),
                _ => None,
            },
            EventView::InsertLeave => Some(CommandView::RemoveRegion),
            EventView::Quit => Some(CommandView::Disconnect),
        }
    }

    /// The state after each of `events` in turn.
    pub open spec fn after(self, events: Seq<EventView>) -> SessionView
        decreases events.len(),
    {
        if events.len() == 0 {
            self
        } else {
            self.after(events.drop_last()).next(events.last())
        }
    }

    /// The state after the cursor has been seen at each of `moves` in turn.
    pub open spec fn after_moves(self, moves: Seq<Position>) -> SessionView
        decreases moves.len(),
    {
        if moves.len() == 0 {
            self
        } else {
            self.after_moves(moves.drop_last()).next(moved(moves.last()))
        }
    }
}

/// Keeps the earlier of a bound and a position; the position where there is
/// no bound yet, the bound where the two are equal.
pub fn keep_min_position(target: &Option<Position>, pos: &Position) -> (kept: Option<Position>)
    ensures
        kept == Some(
            match *target {
                Some(start) => start.earlier(*pos),
                None => *pos,
            },
        ),
{
    match target {
        None => Some(*pos),
        Some(start) => {
            if *pos < *start {
                Some(*pos)
            } else {
                Some(*start)
            }
        },
    }
}

/// Keeps the later of a bound and a position; the position where there is
/// no bound yet, the bound where the two are equal.
pub fn keep_max_position(target: &Option<Position>, pos: &Position) -> (kept: Option<Position>)
    ensures
        kept == Some(
            match *target {
                Some(end) => end.later(*pos),
                None => *pos,
            },
        ),
{
    match target {
        None => Some(*pos),
        Some(end) => {
            if *pos > *end {
                Some(*pos)
            } else {
                Some(*end)
            }
        },
    }
}

/// Reads the tag of a session start.
pub fn mode_of(tag: &str) -> (mode: Option<Mode>)
    ensures
        mode == session_mode(tag@),
{
    if tag.eq("r") {
        Some(Mode::Replace)
    } else if tag.eq("i") {
        Some(Mode::Insert)
    } else {
        None
    }
}

/// The event to handle for what the event channel gave: the event received,
/// or [`Event::Quit`] once the channel is closed.
pub fn received_event(received: Option<Event>) -> (event: Event)
    ensures
        event@ == match received {
            Some(event) => event@,
            None => EventView::Quit,
        },
{
    match received {
        Some(event) => event,
        None => Event::Quit,
    }
}

/// Writes the command that marks the text from `cursor_start` to
/// `cursor_end`.
pub fn define_syntax_region(cursor_start: &Position, cursor_end: &Position) -> (command: String)
    ensures
        command@ == define_region_text(*cursor_start, *cursor_end),
{
    let mut command = "syntax region ScorchedEarth start=/\\%".to_owned();
    push_decimal(&mut command, cursor_start.line);
    command.append("l\\%");
    push_decimal(&mut command, cursor_start.column);
    command.append("c/ end=/\\%");
    push_decimal(&mut command, cursor_end.line);
    command.append("l\\%");
    push_decimal(&mut command, cursor_end.column);
    command.append("c/");
    command
}

/// Writes the command that links the region's style to a group.
pub fn link_highlight_group(parent_highlight_group: &HighlightGroup) -> (command: String)
    ensures
        command@ == link_highlight_text(parent_highlight_group@),
{
    let mut command = "highlight link ScorchedEarth ".to_owned();
    command.append(parent_highlight_group.display().as_str());
    command
}

/// Writes the command that takes the mark away.
pub fn remove_syntax_group() -> (command: String)
    ensures
        command@ == "syntax clear ScorchedEarth"@,
{
    "syntax clear ScorchedEarth".to_owned()
}

impl Command {
    /// Whether this is the last command: after it no event is handled.
    pub fn is_last(&self) -> (last: bool)
        ensures
            last == (self@ is Disconnect),
    {
        match self {
            Command::Disconnect => true,
            _ => false,
        }
    }

    /// Writes the command as the editor reads it.
    pub fn render(&self) -> (text: String)
        ensures
            text@ == self@.text(),
    {
        match self {
            Command::DefineRegion { start, end } => define_syntax_region(start, end),
            Command::RemoveRegion => remove_syntax_group(),
            Command::LinkHighlight { parent } => link_highlight_group(parent),
            Command::Disconnect => DISCONNECT_NOTICE.to_owned(),
        }
    }
}

impl Event {
    /// Whether the event starts a session, so that the group to link to
    /// has to be looked up.
    pub fn starts_session(&self) -> (starts: bool)
        ensures
            starts == (self@ matches EventView::InsertEnter { mode, .. } && session_mode(mode)
                is Some),
    {
        match self {
            Event::InsertEnter { mode, .. } => mode_of(mode.as_str()).is_some(),
            _ => false,
        }
    }
}

/// The session's state. It changes through events only.
#[derive(Debug)]
pub struct SessionState {
    mode: Mode,
    span: Option<Span>,
}

impl View for SessionState {
    type V = SessionView;

    closed spec fn view(&self) -> SessionView {
        SessionView { mode: self.mode, span: self.span }
    }
}

impl SessionState {
    #[verifier::type_invariant]
    closed spec fn well_formed(&self) -> bool {
        self@.wf()
    }

    /// The state at startup: no session, no span.
    pub fn new() -> (state: SessionState)
        ensures
            state@ == SessionView::initial(),
    {
        SessionState { mode: Mode::Other, span: None }
    }

    /// The mode.
    pub fn mode(&self) -> (mode: Mode)
        ensures
            mode == self@.mode,
            self@.wf(),
    {
        proof {
            use_type_invariant(self);
        }
        self.mode
    }

    /// The span touched so far; there is one exactly while a session is
    /// under way.
    pub fn span(&self) -> (span: Option<Span>)
        ensures
            span == self@.span,
            self@.wf(),
    {
        proof {
            use_type_invariant(self);
        }
        self.span
    }

    /// Takes an event in: changes the state and says which command the
    /// editor is to get. `parent` is the group that a new session's region
    /// is linked to, if there is one to link to.
    pub fn step(&mut self, event: &Event, parent: Option<HighlightGroup>) -> (command: Option<
        Command,
    >)
        ensures
            final(self)@ == old(self)@.next(event@),
            command_view(command) == old(self)@.emitted(event@, group_name(parent)),
    {
        proof {
            use_type_invariant(&*self);
        }
        match event {
            Event::CursorMovedI { line, column } => {
                if self.mode == Mode::Other {
                    return None;
                }
                let pos = Position::new(*line, *column);
                let (cursor_start, cursor_end) = match self.span {
                    Some(span) => (Some(span.start), Some(span.end)),
                    None => (None, None),
                };
                let start = keep_min_position(&cursor_start, &pos).unwrap();
                let end = keep_max_position(&cursor_end, &pos).unwrap();
                *self = SessionState { mode: self.mode, span: Some(Span { start, end }) };
                Some(Command::DefineRegion { start, end })
            },
            Event::InsertEnter { mode, line, column } => {
                let entered = match mode_of(mode.as_str()) {
                    Some(entered) => entered,
                    None => {
                        return None;
                    },
                };
                let pos = Position::new(*line, *column);
                *self = SessionState { mode: entered, span: Some(Span { start: pos, end: pos }) };
                match parent {
                    Some(parent) => Some(Command::LinkHighlight { parent }),
                    None => None,
                }
            },
            Event::InsertLeave => {
                *self = SessionState { mode: Mode::Other, span: None };
                Some(Command::RemoveRegion)
            },
            Event::Quit => Some(Command::Disconnect),
        }
    }

    /// Takes an event in, as [`SessionState::step`] does, and picks the
    /// group to link to itself: out of the editor's `reply` to the question
    /// for the configured group, if there is a reply, and the editor's
    /// `groups`.
    pub fn handle_event(
        &mut self,
        event: &Event,
        reply: Option<&Result<Value, CallError>>,
        groups: &HighlightGroups,
    ) -> (command: Option<Command>)
        ensures
            final(self)@ == old(self)@.next(event@),
            command_view(command) == old(self)@.emitted(
                event@,
                match reply {
                    Some(reply) => valid_parent(configured_parent(*reply), groups@),
                    None => None,
                },
            ),
    {
        let parent = match reply {
            Some(reply) => get_valid_parent_highlight_group(reply, groups),
            None => None,
        };
        self.step(event, parent)
    }
}

/// Whether `bound` is the earliest of `origin` and the positions in
/// `moves`: it is one of them and none of them comes before it.
pub open spec fn is_earliest(bound: Position, origin: Position, moves: Seq<Position>) -> bool {
    &&& bound == origin || moves.contains(bound)
    &&& bound.at_most(origin)
    &&& forall|i: int| 0 <= i < moves.len() ==> bound.at_most(#[trigger] moves[i])
}

/// Whether `bound` is the latest of `origin` and the positions in `moves`:
/// it is one of them and none of them comes after it.
pub open spec fn is_latest(bound: Position, origin: Position, moves: Seq<Position>) -> bool {
    &&& bound == origin || moves.contains(bound)
    &&& origin.at_most(bound)
    &&& forall|i: int| 0 <= i < moves.len() ==> (#[trigger] moves[i]).at_most(bound)
}

/// Every event leaves a well-formed state well-formed: a span is kept
/// exactly while a session is under way, with its start not after its end.
pub proof fn lemma_next_keeps_well_formed(state: SessionView, event: EventView)
    requires
        state.wf(),
    ensures
        state.next(event).wf(),
{
}

/// Whatever events arrive after startup, and in whatever order, the state
/// they lead to is well-formed.
pub proof fn lemma_every_state_well_formed(events: Seq<EventView>)
    ensures
        SessionView::initial().after(events).wf(),
    decreases events.len(),
{
    if events.len() > 0 {
        lemma_every_state_well_formed(events.drop_last());
        lemma_next_keeps_well_formed(
            SessionView::initial().after(events.drop_last()),
            events.last(),
        );
    }
}

/// While no session is under way, a cursor event changes nothing and calls
/// for no command.
pub proof fn lemma_cursor_ignored_without_session(
    state: SessionView,
    position: Position,
    parent: Option<Seq<char>>,
)
    requires
        state.mode == Mode::Other,
    ensures
        state.next(moved(position)) == state,
        state.emitted(moved(position), parent) is None,
{
}

/// The end of a session leaves no mode and no span, whatever the state
/// was, and calls for the region to be removed.
pub proof fn lemma_session_end_resets(state: SessionView, parent: Option<Seq<char>>)
    ensures
        state.next(EventView::InsertLeave).mode == Mode::Other,
        state.next(EventView::InsertLeave).span is None,
        state.emitted(EventView::InsertLeave, parent) == Some(CommandView::RemoveRegion),
{
}

/// A session start whose tag is neither `"i"` nor `"r"` changes nothing and
/// calls for no command.
pub proof fn lemma_unknown_tag_ignored(
    state: SessionView,
    tag: Seq<char>,
    line: usize,
    column: usize,
    parent: Option<Seq<char>>,
)
    requires
        tag != "i"@,
        tag != "r"@,
    ensures
        state.next(EventView::InsertEnter { mode: tag, line, column }) == state,
        state.emitted(EventView::InsertEnter { mode: tag, line, column }, parent) is None,
{
}

/// The tag `"i"` names inserting and the tag `"r"` names replacing.
pub proof fn lemma_session_tags()
    ensures
        session_mode("i"@) == Some(Mode::Insert),
        session_mode("r"@) == Some(Mode::Replace),
{
    reveal_strlit("i");
    reveal_strlit("r");
    assert("i"@[0] != "r"@[0]);
}

/// A session start with the tag `"i"` or `"r"` sets the mode that the tag
/// names and a span that holds the cursor's position only; it calls for a
/// link to the parent group exactly where there is one.
pub proof fn lemma_session_start(
    state: SessionView,
    tag: Seq<char>,
    origin: Position,
    parent: Option<Seq<char>>,
)
    requires
        tag == "i"@ || tag == "r"@,
    ensures
        ({
            let start = EventView::InsertEnter {
                mode: tag,
                line: origin.line,
                column: origin.column,
            };
            &&& tag == "i"@ ==> state.next(start).mode == Mode::Insert
            &&& tag == "r"@ ==> state.next(start).mode == Mode::Replace
            &&& state.next(start).span == Some(Span::at(origin))
            &&& state.emitted(start, parent) == match parent {
                Some(parent) => Some(CommandView::LinkHighlight { parent }),
                None => None,
            }
        }),
{
    lemma_session_tags();
}

/// Seeing the cursor at the same position a second time changes nothing.
pub proof fn lemma_repeated_move_changes_nothing(state: SessionView, position: Position)
    ensures
        state.next(moved(position)).next(moved(position)) == state.next(moved(position)),
{
}

/// Of `origin` and the positions in `moves` only one is the earliest, and
/// only one the latest.
pub proof fn lemma_bounds_unique(
    first: Position,
    second: Position,
    origin: Position,
    moves: Seq<Position>,
)
    ensures
        is_earliest(first, origin, moves) && is_earliest(second, origin, moves) ==> first
            == second,
        is_latest(first, origin, moves) && is_latest(second, origin, moves) ==> first == second,
{
    if is_earliest(first, origin, moves) && is_earliest(second, origin, moves) {
        if first != origin {
            let i = choose|i: int| 0 <= i < moves.len() && moves[i] == first;
            assert(second.at_most(moves[i]));
        }
        if second != origin {
            let j = choose|j: int| 0 <= j < moves.len() && moves[j] == second;
            assert(first.at_most(moves[j]));
        }
    }
    if is_latest(first, origin, moves) && is_latest(second, origin, moves) {
        if first != origin {
            let i = choose|i: int| 0 <= i < moves.len() && moves[i] == first;
            assert(moves[i].at_most(second));
        }
        if second != origin {
            let j = choose|j: int| 0 <= j < moves.len() && moves[j] == second;
            assert(moves[j].at_most(first));
        }
    }
}

/// During a session the span runs from the earliest to the latest of the
/// positions seen: the bounds it had when the moves began and every position
/// of the moves. The mode stays.
pub proof fn lemma_span_after_moves(state: SessionView, moves: Seq<Position>)
    requires
        state.mode != Mode::Other,
        state.span is Some,
    ensures
        state.after_moves(moves).mode == state.mode,
        state.after_moves(moves).span matches Some(span) && is_earliest(
            span.start,
            state.span->0.start,
            moves,
        ) && is_latest(span.end, state.span->0.end, moves),
    decreases moves.len(),
{
    if moves.len() > 0 {
        let earlier = moves.drop_last();
        lemma_span_after_moves(state, earlier);
        let before = state.after_moves(earlier).span->0;
        let after = state.after_moves(moves).span->0;
        assert(after == before.widened(moves.last()));
        assert forall|i: int| 0 <= i < moves.len() implies after.start.at_most(
            #[trigger] moves[i],
        ) && moves[i].at_most(after.end) by {
            if i < earlier.len() {
                assert(moves[i] == earlier[i]);
            }
        }
        if after.start != state.span->0.start && after.start != moves.last() {
            let i = choose|i: int| 0 <= i < earlier.len() && earlier[i] == after.start;
            assert(moves[i] == after.start);
        }
        if after.end != state.span->0.end && after.end != moves.last() {
            let i = choose|i: int| 0 <= i < earlier.len() && earlier[i] == after.end;
            assert(moves[i] == after.end);
        }
    }
}

/// From its start to any number of cursor events later, a session's span
/// runs from the earliest to the latest of the position it started at and
/// the positions the cursor was seen at.
pub proof fn lemma_session_span(
    state: SessionView,
    tag: Seq<char>,
    origin: Position,
    moves: Seq<Position>,
)
    requires
        tag == "i"@ || tag == "r"@,
    ensures
        ({
            let started = state.next(
                EventView::InsertEnter { mode: tag, line: origin.line, column: origin.column },
            );
            &&& started.after_moves(moves).mode == started.mode
            &&& started.after_moves(moves).span matches Some(span) && span.wf() && is_earliest(
                span.start,
                origin,
                moves,
            ) && is_latest(span.end, origin, moves) && span.covers(origin) && (forall|i: int|
                0 <= i < moves.len() ==> span.covers(#[trigger] moves[i]))
        }),
{
    let started = state.next(
        EventView::InsertEnter { mode: tag, line: origin.line, column: origin.column },
    );
    lemma_span_after_moves(started, moves);
}

/// The order in which the cursor events of a session arrive makes no
/// difference to the state they lead to: two runs of moves that hold the
/// same positions equally often end alike.
pub proof fn lemma_moves_order_irrelevant(
    state: SessionView,
    first: Seq<Position>,
    second: Seq<Position>,
)
    requires
        first.to_multiset() == second.to_multiset(),
    ensures
        state.after_moves(first) == state.after_moves(second),
{
    first.to_multiset_ensures();
    second.to_multiset_ensures();
    assert(first.len() == second.len());
    if state.mode == Mode::Other {
        lemma_moves_ignored_without_session(state, first);
        lemma_moves_ignored_without_session(state, second);
    } else if first.len() == 0 {
        assert(second.len() == 0);
    } else if state.span is Some {
        lemma_span_after_moves(state, first);
        lemma_span_after_moves(state, second);
        let a = state.after_moves(first).span->0;
        let b = state.after_moves(second).span->0;
        let origin = state.span->0;
        assert(is_earliest(a.start, origin.start, second)) by {
            lemma_same_positions(first, second);
        }
        assert(is_latest(a.end, origin.end, second)) by {
            lemma_same_positions(first, second);
        }
        lemma_bounds_unique(a.start, b.start, origin.start, second);
        lemma_bounds_unique(a.end, b.end, origin.end, second);
    } else {
        // Without a span the first position seen becomes the span.
        lemma_moves_without_span(state, first);
        lemma_moves_without_span(state, second);
        let a = state.after_moves(first).span->0;
        let b = state.after_moves(second).span->0;
        lemma_same_positions(first, second);
        lemma_spans_same_positions(a, first, second);
        lemma_ends_unique(a, b, second);
    }
}

/// Two runs of moves that hold the same positions equally often hold the
/// same positions.
proof fn lemma_same_positions(first: Seq<Position>, second: Seq<Position>)
    requires
        first.to_multiset() == second.to_multiset(),
    ensures
        forall|p: Position| first.contains(p) <==> second.contains(p),
        forall|i: int| 0 <= i < first.len() ==> second.contains(#[trigger] first[i]),
        forall|i: int| 0 <= i < second.len() ==> first.contains(#[trigger] second[i]),
{
    assert forall|p: Position| first.contains(p) <==> second.contains(p) by {
        vstd::seq_lib::to_multiset_contains(first, p);
        vstd::seq_lib::to_multiset_contains(second, p);
    }
}

/// While no session is under way, cursor events change nothing.
proof fn lemma_moves_ignored_without_session(state: SessionView, moves: Seq<Position>)
    requires
        state.mode == Mode::Other,
    ensures
        state.after_moves(moves) == state,
    decreases moves.len(),
{
    if moves.len() > 0 {
        lemma_moves_ignored_without_session(state, moves.drop_last());
    }
}

/// Whether a span runs from the earliest to the latest of `moves`.
spec fn spans_moves(span: Span, moves: Seq<Position>) -> bool {
    &&& moves.contains(span.start)
    &&& moves.contains(span.end)
    &&& forall|i: int|
        0 <= i < moves.len() ==> span.start.at_most(#[trigger] moves[i]) && moves[i].at_most(
            span.end,
        )
}

/// In a state with a mode but no span yet, the span after some moves runs
/// from the earliest to the latest of them.
proof fn lemma_moves_without_span(state: SessionView, moves: Seq<Position>)
    requires
        state.mode != Mode::Other,
        state.span is None,
        moves.len() > 0,
    ensures
        state.after_moves(moves).mode == state.mode,
        state.after_moves(moves).span matches Some(span) && spans_moves(span, moves),
    decreases moves.len(),
{
    let earlier = moves.drop_last();
    let last = moves.last();
    assert(moves[moves.len() - 1] == last);
    if earlier.len() == 0 {
        assert(state.after_moves(earlier) == state);
        let span = state.after_moves(moves).span->0;
        assert(span == Span::at(last));
    } else {
        lemma_moves_without_span(state, earlier);
        let before = state.after_moves(earlier).span->0;
        let after = state.after_moves(moves).span->0;
        assert(after == before.widened(last));
        assert forall|i: int| 0 <= i < moves.len() implies after.start.at_most(
            #[trigger] moves[i],
        ) && moves[i].at_most(after.end) by {
            if i < earlier.len() {
                assert(moves[i] == earlier[i]);
            }
        }
        if after.start != last {
            let i = choose|i: int| 0 <= i < earlier.len() && earlier[i] == after.start;
            assert(moves[i] == after.start);
        }
        if after.end != last {
            let i = choose|i: int| 0 <= i < earlier.len() && earlier[i] == after.end;
            assert(moves[i] == after.end);
        }
    }
}

/// A span that runs from the earliest to the latest of some moves does so
/// of any moves that hold the same positions.
proof fn lemma_spans_same_positions(span: Span, first: Seq<Position>, second: Seq<Position>)
    requires
        spans_moves(span, first),
        forall|p: Position| first.contains(p) <==> second.contains(p),
    ensures
        spans_moves(span, second),
{
    assert forall|i: int| 0 <= i < second.len() implies span.start.at_most(#[trigger] second[i])
        && second[i].at_most(span.end) by {
        assert(first.contains(second[i]));
        let j = choose|j: int| 0 <= j < first.len() && first[j] == second[i];
        assert(span.start.at_most(first[j]));
    }
}

/// Only one span runs from the earliest to the latest of `moves`.
proof fn lemma_ends_unique(a: Span, b: Span, moves: Seq<Position>)
    requires
        spans_moves(a, moves),
        spans_moves(b, moves),
    ensures
        a == b,
{
    let i = choose|i: int| 0 <= i < moves.len() && moves[i] == a.start;
    let j = choose|j: int| 0 <= j < moves.len() && moves[j] == b.start;
    assert(b.start.at_most(moves[i]));
    assert(a.start.at_most(moves[j]));
    let k = choose|k: int| 0 <= k < moves.len() && moves[k] == a.end;
    let l = choose|l: int| 0 <= l < moves.len() && moves[l] == b.end;
    assert(moves[k].at_most(b.end));
    assert(moves[l].at_most(a.end));
}

} // verus!
