use neovim_lib::{CallError, Value};
use scorched_earth::event::Event;
use scorched_earth::highlight::{HighlightGroup, HighlightGroups};
use scorched_earth::position::Position;
use scorched_earth::session::{
    define_syntax_region, keep_max_position, keep_min_position, link_highlight_group, mode_of,
    received_event, remove_syntax_group, Command, Mode, SessionState, Span, CONNECT_NOTICE,
    DISCONNECT_NOTICE,
};

fn enter(tag: &str, line: usize, column: usize) -> Event {
    Event::InsertEnter { mode: tag.to_owned(), line, column }
}

fn moved(line: usize, column: usize) -> Event {
    Event::CursorMovedI { line, column }
}

fn span(start: (usize, usize), end: (usize, usize)) -> Option<Span> {
    Some(Span { start: Position::new(start.0, start.1), end: Position::new(end.0, end.1) })
}

fn groups(names: &[&str]) -> HighlightGroups {
    let mut groups = HighlightGroups::new();
    for name in names {
        groups.insert(HighlightGroup::new((*name).to_owned()));
    }
    groups
}

#[test]
fn a_new_state_has_no_session() {
    let state = SessionState::new();
    assert_eq!(state.mode(), Mode::Other);
    assert_eq!(state.span(), None);
}

#[test]
fn keep_min_takes_the_earlier_position() {
    let p = Position::new(5, 2);
    assert_eq!(keep_min_position(&None, &p), Some(p));
    assert_eq!(keep_min_position(&Some(Position::new(5, 3)), &p), Some(p));
    assert_eq!(keep_min_position(&Some(Position::new(6, 0)), &p), Some(p));
    assert_eq!(keep_min_position(&Some(Position::new(5, 1)), &p), Some(Position::new(5, 1)));
    assert_eq!(keep_min_position(&Some(Position::new(4, 9)), &p), Some(Position::new(4, 9)));
    assert_eq!(keep_min_position(&Some(p), &p), Some(p));
}

#[test]
fn keep_max_takes_the_later_position() {
    let p = Position::new(5, 2);
    assert_eq!(keep_max_position(&None, &p), Some(p));
    assert_eq!(keep_max_position(&Some(Position::new(5, 1)), &p), Some(p));
    assert_eq!(keep_max_position(&Some(Position::new(4, 9)), &p), Some(p));
    assert_eq!(keep_max_position(&Some(Position::new(5, 3)), &p), Some(Position::new(5, 3)));
    assert_eq!(keep_max_position(&Some(Position::new(6, 0)), &p), Some(Position::new(6, 0)));
    assert_eq!(keep_max_position(&Some(p), &p), Some(p));
}

#[test]
fn keeping_a_position_twice_is_keeping_it_once() {
    let bound = Some(Position::new(3, 3));
    for p in [Position::new(1, 1), Position::new(3, 3), Position::new(7, 0)] {
        let low = keep_min_position(&bound, &p);
        assert_eq!(keep_min_position(&low, &p), low);
        let high = keep_max_position(&bound, &p);
        assert_eq!(keep_max_position(&high, &p), high);
    }
}

#[test]
fn tags_name_modes() {
    assert_eq!(mode_of("i"), Some(Mode::Insert));
    assert_eq!(mode_of("r"), Some(Mode::Replace));
    assert_eq!(mode_of("v"), None);
    assert_eq!(mode_of(""), None);
    assert_eq!(mode_of("I"), None);
    assert_eq!(mode_of("ir"), None);
}

#[test]
fn session_runs_from_start_to_end() {
    let mut state = SessionState::new();

    assert_eq!(state.step(&enter("i", 5, 2), None), None);
    assert_eq!(state.mode(), Mode::Insert);
    assert_eq!(state.span(), span((5, 2), (5, 2)));

    assert_eq!(
        state.step(&moved(5, 0), None),
        Some(Command::DefineRegion { start: Position::new(5, 0), end: Position::new(5, 2) })
    );
    assert_eq!(state.mode(), Mode::Insert);
    assert_eq!(state.span(), span((5, 0), (5, 2)));

    assert_eq!(
        state.step(&moved(6, 1), None),
        Some(Command::DefineRegion { start: Position::new(5, 0), end: Position::new(6, 1) })
    );
    assert_eq!(state.mode(), Mode::Insert);
    assert_eq!(state.span(), span((5, 0), (6, 1)));

    assert_eq!(state.step(&Event::InsertLeave, None), Some(Command::RemoveRegion));
    assert_eq!(state.mode(), Mode::Other);
    assert_eq!(state.span(), None);
}

#[test]
fn cursor_events_without_a_session_do_nothing() {
    let mut state = SessionState::new();
    assert_eq!(state.step(&moved(5, 0), None), None);
    assert_eq!(state.step(&moved(0, 0), Some(HighlightGroup::new("String".to_owned()))), None);
    assert_eq!(state.mode(), Mode::Other);
    assert_eq!(state.span(), None);

    state.step(&enter("r", 1, 1), None);
    state.step(&Event::InsertLeave, None);
    assert_eq!(state.step(&moved(9, 9), None), None);
    assert_eq!(state.mode(), Mode::Other);
    assert_eq!(state.span(), None);
}

#[test]
fn session_end_resets_from_any_state() {
    let mut idle = SessionState::new();
    assert_eq!(idle.step(&Event::InsertLeave, None), Some(Command::RemoveRegion));
    assert_eq!(idle.mode(), Mode::Other);
    assert_eq!(idle.span(), None);

    let mut inserting = SessionState::new();
    inserting.step(&enter("i", 3, 3), None);
    inserting.step(&moved(1, 0), None);
    assert_eq!(inserting.step(&Event::InsertLeave, None), Some(Command::RemoveRegion));
    assert_eq!(inserting.mode(), Mode::Other);
    assert_eq!(inserting.span(), None);

    let mut replacing = SessionState::new();
    replacing.step(&enter("r", 3, 3), None);
    assert_eq!(replacing.step(&Event::InsertLeave, None), Some(Command::RemoveRegion));
    assert_eq!(replacing.mode(), Mode::Other);
    assert_eq!(replacing.span(), None);
}

#[test]
fn an_unknown_tag_changes_nothing() {
    let parent = Some(HighlightGroup::new("String".to_owned()));

    let mut idle = SessionState::new();
    assert_eq!(idle.step(&enter("v", 5, 2), parent.clone()), None);
    assert_eq!(idle.mode(), Mode::Other);
    assert_eq!(idle.span(), None);

    let mut busy = SessionState::new();
    busy.step(&enter("i", 5, 2), None);
    busy.step(&moved(7, 7), None);
    assert_eq!(busy.step(&enter("", 0, 0), parent.clone()), None);
    assert_eq!(busy.step(&enter("R", 0, 0), parent.clone()), None);
    assert_eq!(busy.step(&enter("insert", 0, 0), parent), None);
    assert_eq!(busy.mode(), Mode::Insert);
    assert_eq!(busy.span(), span((5, 2), (7, 7)));
}

#[test]
fn a_session_start_sets_mode_and_span() {
    let mut state = SessionState::new();
    state.step(&enter("r", 2, 8), None);
    assert_eq!(state.mode(), Mode::Replace);
    assert_eq!(state.span(), span((2, 8), (2, 8)));

    state.step(&moved(1, 0), None);
    state.step(&enter("i", 4, 4), None);
    assert_eq!(state.mode(), Mode::Insert);
    assert_eq!(state.span(), span((4, 4), (4, 4)));
}

#[test]
fn a_session_start_links_to_the_parent_if_there_is_one() {
    let mut state = SessionState::new();
    assert_eq!(
        state.step(&enter("i", 5, 2), Some(HighlightGroup::new("String".to_owned()))),
        Some(Command::LinkHighlight { parent: HighlightGroup::new("String".to_owned()) })
    );
    assert_eq!(state.step(&enter("r", 5, 2), None), None);
    assert_eq!(state.mode(), Mode::Replace);
}

#[test]
fn the_span_grows_in_replace_mode_too() {
    let mut state = SessionState::new();
    state.step(&enter("r", 10, 10), None);
    assert_eq!(
        state.step(&moved(10, 11), None),
        Some(Command::DefineRegion { start: Position::new(10, 10), end: Position::new(10, 11) })
    );
    assert_eq!(
        state.step(&moved(9, 50), None),
        Some(Command::DefineRegion { start: Position::new(9, 50), end: Position::new(10, 11) })
    );
    assert_eq!(state.mode(), Mode::Replace);
}

#[test]
fn a_repeated_position_changes_nothing() {
    let mut state = SessionState::new();
    state.step(&enter("i", 5, 2), None);
    let first = state.step(&moved(5, 2), None);
    assert_eq!(
        first,
        Some(Command::DefineRegion { start: Position::new(5, 2), end: Position::new(5, 2) })
    );
    assert_eq!(state.span(), span((5, 2), (5, 2)));
    state.step(&moved(8, 1), None);
    let once = state.span();
    let again = state.step(&moved(8, 1), None);
    assert_eq!(state.span(), once);
    assert_eq!(
        again,
        Some(Command::DefineRegion { start: Position::new(5, 2), end: Position::new(8, 1) })
    );
}

#[test]
fn the_span_is_the_same_in_any_order() {
    let moves = [(5, 0), (6, 1), (2, 9), (6, 0), (2, 10)];
    let orders: [[usize; 5]; 4] = [[0, 1, 2, 3, 4], [4, 3, 2, 1, 0], [2, 0, 4, 1, 3], [1, 4, 0, 3, 2]];
    for order in orders.iter() {
        let mut state = SessionState::new();
        state.step(&enter("i", 5, 2), None);
        for index in order.iter() {
            let (line, column) = moves[*index];
            state.step(&moved(line, column), None);
        }
        assert_eq!(state.mode(), Mode::Insert);
        assert_eq!(state.span(), span((2, 9), (6, 1)));
    }
}

#[test]
fn quit_disconnects_and_leaves_the_state() {
    let mut state = SessionState::new();
    assert_eq!(state.step(&Event::Quit, None), Some(Command::Disconnect));
    assert_eq!(state.mode(), Mode::Other);
    state.step(&enter("i", 1, 2), None);
    assert_eq!(state.step(&Event::Quit, None), Some(Command::Disconnect));
    assert_eq!(state.mode(), Mode::Insert);
    assert_eq!(state.span(), span((1, 2), (1, 2)));
}

#[test]
fn a_closed_channel_counts_as_quit() {
    assert_eq!(received_event(None), Event::Quit);
    assert_eq!(received_event(Some(Event::InsertLeave)), Event::InsertLeave);
    assert_eq!(received_event(Some(moved(1, 2))), moved(1, 2));
}

#[test]
fn only_a_known_tag_starts_a_session() {
    assert!(enter("i", 0, 0).starts_session());
    assert!(enter("r", 0, 0).starts_session());
    assert!(!enter("x", 0, 0).starts_session());
    assert!(!moved(0, 0).starts_session());
    assert!(!Event::InsertLeave.starts_session());
    assert!(!Event::Quit.starts_session());
}

#[test]
fn handle_event_links_to_a_listed_parent() {
    let listed = groups(&["Comment", "String"]);
    let mut state = SessionState::new();
    let reply = Ok(Value::from("String"));
    assert_eq!(
        state.handle_event(&enter("i", 5, 2), Some(&reply), &listed),
        Some(Command::LinkHighlight { parent: HighlightGroup::new("String".to_owned()) })
    );
    assert_eq!(state.mode(), Mode::Insert);
    assert_eq!(state.span(), span((5, 2), (5, 2)));
}

#[test]
fn handle_event_links_to_nothing_that_is_not_listed() {
    let listed = groups(&["Comment", "String"]);
    let mut state = SessionState::new();
    let missing = Ok(Value::from("Missing"));
    assert_eq!(state.handle_event(&enter("i", 5, 2), Some(&missing), &listed), None);
    assert_eq!(state.mode(), Mode::Insert);
    let empty = Ok(Value::from(""));
    assert_eq!(state.handle_event(&enter("r", 5, 2), Some(&empty), &listed), None);
    let number = Ok(Value::from(7u64));
    assert_eq!(state.handle_event(&enter("r", 5, 2), Some(&number), &listed), None);
    let failed = Err(CallError::GenericError("no such variable".to_owned()));
    assert_eq!(state.handle_event(&enter("r", 5, 2), Some(&failed), &listed), None);
    assert_eq!(state.handle_event(&enter("r", 5, 2), None, &listed), None);
    assert_eq!(state.mode(), Mode::Replace);
}

#[test]
fn handle_event_ignores_the_parent_for_other_events() {
    let listed = groups(&["String"]);
    let reply = Ok(Value::from("String"));
    let mut state = SessionState::new();
    assert_eq!(state.handle_event(&enter("x", 5, 2), Some(&reply), &listed), None);
    assert_eq!(state.mode(), Mode::Other);
    assert_eq!(state.handle_event(&moved(5, 2), Some(&reply), &listed), None);
    state.handle_event(&enter("i", 5, 2), None, &listed);
    assert_eq!(
        state.handle_event(&moved(5, 3), Some(&reply), &listed),
        Some(Command::DefineRegion { start: Position::new(5, 2), end: Position::new(5, 3) })
    );
    assert_eq!(
        state.handle_event(&Event::InsertLeave, Some(&reply), &listed),
        Some(Command::RemoveRegion)
    );
    assert_eq!(state.handle_event(&Event::Quit, Some(&reply), &listed), Some(Command::Disconnect));
}

#[test]
fn commands_are_written_as_the_editor_reads_them() {
    assert_eq!(
        define_syntax_region(&Position::new(5, 0), &Position::new(6, 1)),
        "syntax region ScorchedEarth start=/\\%5l\\%0c/ end=/\\%6l\\%1c/"
    );
    assert_eq!(
        define_syntax_region(&Position::new(120, 33), &Position::new(1000, 7)),
        "syntax region ScorchedEarth start=/\\%120l\\%33c/ end=/\\%1000l\\%7c/"
    );
    assert_eq!(
        link_highlight_group(&HighlightGroup::new("String".to_owned())),
        "highlight link ScorchedEarth String\n"
    );
    assert_eq!(remove_syntax_group(), "syntax clear ScorchedEarth");
}

#[test]
fn only_disconnect_is_the_last_command() {
    assert!(Command::Disconnect.is_last());
    assert!(!Command::RemoveRegion.is_last());
    assert!(!Command::DefineRegion { start: Position::new(0, 0), end: Position::new(0, 0) }.is_last());
    assert!(!Command::LinkHighlight { parent: HighlightGroup::new("String".to_owned()) }.is_last());
}

#[test]
fn render_writes_each_command() {
    assert_eq!(
        Command::DefineRegion { start: Position::new(5, 0), end: Position::new(6, 1) }.render(),
        "syntax region ScorchedEarth start=/\\%5l\\%0c/ end=/\\%6l\\%1c/"
    );
    assert_eq!(Command::RemoveRegion.render(), "syntax clear ScorchedEarth");
    assert_eq!(
        Command::LinkHighlight { parent: HighlightGroup::new("Comment".to_owned()) }.render(),
        "highlight link ScorchedEarth Comment\n"
    );
    assert_eq!(Command::Disconnect.render(), "echom \"rust client disconnected from neovim\"");
    assert_eq!(Command::Disconnect.render(), DISCONNECT_NOTICE);
    assert_eq!(CONNECT_NOTICE, "echom \"rust client connected to neovim\"");
}
