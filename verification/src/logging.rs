//! How much the program logs.

use vstd::prelude::*;

verus! {

/// How much is logged, from nothing to everything.
#[derive(Clone, Copy, Debug, PartialEq, Eq, Structural)]
pub enum Verbosity {
    Off,
    Error,
    Warn,
    Info,
    Debug,
    Trace,
}

/// The characters of what `str::to_lowercase` returns for a string: its
/// lowercase equivalent, as Unicode's `Lowercase` mappings define it. The
/// tables are std's; nothing is claimed of any single string.
pub uninterp spec fn lowercase(text: Seq<char>) -> Seq<char>;

/// `str::to_lowercase` returns the same for the same characters, whenever
/// it is asked: [`lowercase`] names the characters of that result.
pub assume_specification[ str::to_lowercase ](text: &str) -> (lower: String)
    ensures
        lower@ == lowercase(text@),
;

/// The verbosity that a name in lower case stands for; a name that is none
/// of the six stands for no logging.
pub open spec fn verbosity_named(name: Seq<char>) -> Verbosity {
    if name == "debug"@ {
        Verbosity::Debug
    } else if name == "error"@ {
        Verbosity::Error
    } else if name == "info"@ {
        Verbosity::Info
    } else if name == "off"@ {
        Verbosity::Off
    } else if name == "trace"@ {
        Verbosity::Trace
    } else if name == "warn"@ {
        Verbosity::Warn
    } else {
        Verbosity::Off
    }
}

/// The verbosity that a selector asks for: everything where there is no
/// selector, else what its name stands for, whatever the case of its
/// letters.
pub open spec fn selected_verbosity(selector: Option<Seq<char>>) -> Verbosity {
    match selector {
        Some(name) => verbosity_named(lowercase(name)),
        None => Verbosity::Trace,
    }
}

/// Reads a verbosity's name, which is taken to be in lower case.
pub fn verbosity_from_name(name: &str) -> (verbosity: Verbosity)
    ensures
        verbosity == verbosity_named(name@),
{
    if name.eq("debug") {
        Verbosity::Debug
    } else if name.eq("error") {
        Verbosity::Error
    } else if name.eq("info") {
        Verbosity::Info
    } else if name.eq("off") {
        Verbosity::Off
    } else if name.eq("trace") {
        Verbosity::Trace
    } else if name.eq("warn") {
        Verbosity::Warn
    } else {
        Verbosity::Off
    }
}

/// Picks the verbosity that the configured selector asks for.
pub fn select_verbosity(selector: Option<&str>) -> (verbosity: Verbosity)
    ensures
        verbosity == selected_verbosity(
            match selector {
                Some(name) => Some(name@),
                None => None,
            },
        ),
{
    match selector {
        Some(name) => verbosity_from_name(name.to_lowercase().as_str()),
        None => Verbosity::Trace,
    }
}

} // verus!
