use scorched_earth::logging::{select_verbosity, verbosity_from_name, Verbosity};

#[test]
fn the_six_names_are_known() {
    assert_eq!(verbosity_from_name("debug"), Verbosity::Debug);
    assert_eq!(verbosity_from_name("error"), Verbosity::Error);
    assert_eq!(verbosity_from_name("info"), Verbosity::Info);
    assert_eq!(verbosity_from_name("off"), Verbosity::Off);
    assert_eq!(verbosity_from_name("trace"), Verbosity::Trace);
    assert_eq!(verbosity_from_name("warn"), Verbosity::Warn);
}

#[test]
fn any_other_name_turns_logging_off() {
    assert_eq!(verbosity_from_name(""), Verbosity::Off);
    assert_eq!(verbosity_from_name("verbose"), Verbosity::Off);
    assert_eq!(verbosity_from_name("Debug"), Verbosity::Off);
    assert_eq!(verbosity_from_name("trace "), Verbosity::Off);
}

#[test]
fn the_selector_is_read_in_any_case() {
    assert_eq!(select_verbosity(Some("DEBUG")), Verbosity::Debug);
    assert_eq!(select_verbosity(Some("Warn")), Verbosity::Warn);
    assert_eq!(select_verbosity(Some("info")), Verbosity::Info);
    assert_eq!(select_verbosity(Some("ErRoR")), Verbosity::Error);
    assert_eq!(select_verbosity(Some("OFF")), Verbosity::Off);
    assert_eq!(select_verbosity(Some("nonsense")), Verbosity::Off);
}

#[test]
fn no_selector_logs_everything() {
    assert_eq!(select_verbosity(None), Verbosity::Trace);
}
