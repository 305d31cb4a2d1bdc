//! How much the program reports while it runs.

use vstd::prelude::*;
use crate::text::same_text;

verus! {

/// The amount of reporting that the user asks for.
#[derive(Debug, Clone, Copy, PartialEq, Eq, Structural, Hash)]
pub enum LogLevel {
    Silent,
    Debug,
    Info,
    Error,
}

/// The name under which a level is written back to the user's environment.
pub open spec fn level_name(l: LogLevel) -> Seq<char> {
    match l {
        LogLevel::Debug => "debug"@,
        LogLevel::Info => "info"@,
        LogLevel::Error => "error"@,
        LogLevel::Silent => "silent"@,
    }
}

/// The level that a name stands for: each level's own name, `all` for
/// `Debug` and `quiet` for `Silent`.
pub open spec fn level_of_name(name: Seq<char>) -> Option<LogLevel> {
    if name == "debug"@ || name == "all"@ {
        Some(LogLevel::Debug)
    } else if name == "info"@ {
        Some(LogLevel::Info)
    } else if name == "error"@ {
        Some(LogLevel::Error)
    } else if name == "silent"@ || name == "quiet"@ {
        Some(LogLevel::Silent)
    } else {
        None
    }
}

/// Each level is found again from its own name.
pub proof fn lemma_level_name_round_trip(l: LogLevel)
    ensures
        level_of_name(level_name(l)) == Some(l),
{
    reveal_strlit("debug");
    reveal_strlit("all");
    reveal_strlit("info");
    reveal_strlit("error");
    reveal_strlit("silent");
    reveal_strlit("quiet");
    assert("info"@[0] != "debug"@[0]);
    assert("info"@[0] != "all"@[0]);
    assert("error"@[0] != "debug"@[0]);
    assert("error"@[0] != "all"@[0]);
    assert("error"@[0] != "info"@[0]);
    assert("silent"@[0] != "debug"@[0]);
    assert("silent"@[0] != "all"@[0]);
    assert("silent"@[0] != "info"@[0]);
    assert("silent"@[0] != "error"@[0]);
}

impl LogLevel {
    /// The level that `name` stands for, if any.
    pub fn from_name(name: &str) -> (level: Option<LogLevel>)
        ensures
            level == level_of_name(name@),
    {
        if same_text(name, "debug") || same_text(name, "all") {
            Some(LogLevel::Debug)
        } else if same_text(name, "info") {
            Some(LogLevel::Info)
        } else if same_text(name, "error") {
            Some(LogLevel::Error)
        } else if same_text(name, "silent") || same_text(name, "quiet") {
            Some(LogLevel::Silent)
        } else {
            None
        }
    }

    /// The name of the level.
    pub fn name(&self) -> (name: String)
        ensures
            name@ == level_name(*self),
    {
        match self {
            LogLevel::Debug => "debug".to_owned(),
            LogLevel::Info => "info".to_owned(),
            LogLevel::Error => "error".to_owned(),
            LogLevel::Silent => "silent".to_owned(),
        }
    }
}

impl std::str::FromStr for LogLevel {
    type Err = String;

    fn from_str(s: &str) -> (r: Result<LogLevel, String>)
        ensures
            match level_of_name(s@) {
                Some(level) => r == Ok::<LogLevel, String>(level),
                None => r is Err,
            },
    {
        match LogLevel::from_name(s) {
            Some(level) => Ok(level),
            None => Err(
                "Cannot get log level for: \"".to_owned().concat(s).concat(
                    "\". Using default log level.",
                ),
            ),
        }
    }
}

} // verus!
