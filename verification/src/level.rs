//! The fixed severity set of a log record and its canonical string labels.

use vstd::prelude::*;

verus! {

/// A log severity, ordered here from most to least severe.
#[derive(Clone, Copy, Debug, PartialEq, Eq, Hash, Structural)]
pub enum Level {
    Error,
    Warn,
    Info,
    Debug,
    Trace,
}

/// The canonical string label of a severity.
pub open spec fn level_label(l: Level) -> Seq<char> {
    match l {
        Level::Error => "ERROR"@,
        Level::Warn => "WARN"@,
        Level::Info => "INFO"@,
        Level::Debug => "DEBUG"@,
        Level::Trace => "TRACE"@,
    }
}

/// What parsing a label yields: an exact canonical label maps to its
/// severity; every other string degrades silently to `Level::Warn`.
pub open spec fn parse_level(s: Seq<char>) -> Level {
    if s == "ERROR"@ {
        Level::Error
    } else if s == "WARN"@ {
        Level::Warn
    } else if s == "INFO"@ {
        Level::Info
    } else if s == "DEBUG"@ {
        Level::Debug
    } else if s == "TRACE"@ {
        Level::Trace
    } else {
        Level::Warn
    }
}

impl Level {
    /// The canonical label of this severity, as the `log` crate prints it.
    pub fn as_str(&self) -> (r: &'static str)
        ensures
            r@ == level_label(*self),
    {
        match self {
            Level::Error => "ERROR",
            Level::Warn => "WARN",
            Level::Info => "INFO",
            Level::Debug => "DEBUG",
            Level::Trace => "TRACE",
        }
    }
}

/// Every canonical label parses back to the severity it labels.
pub proof fn lemma_parse_label(l: Level)
    ensures
        parse_level(level_label(l)) == l,
{
    reveal_strlit("ERROR");
    reveal_strlit("WARN");
    reveal_strlit("INFO");
    reveal_strlit("DEBUG");
    reveal_strlit("TRACE");
    assert("ERROR"@.len() == 5);
    assert("WARN"@.len() == 4);
    assert("INFO"@.len() == 4);
    assert("DEBUG"@.len() == 5);
    assert("TRACE"@.len() == 5);
    assert("ERROR"@[0] == 'E');
    assert("WARN"@[0] == 'W');
    assert("INFO"@[0] == 'I');
    assert("DEBUG"@[0] == 'D');
    assert("TRACE"@[0] == 'T');
}

/// Every string outside the canonical label set parses to the fallback
/// severity `Level::Warn`.
pub proof fn lemma_parse_fallback(s: Seq<char>)
    requires
        s != "ERROR"@,
        s != "WARN"@,
        s != "INFO"@,
        s != "DEBUG"@,
        s != "TRACE"@,
    ensures
        parse_level(s) == Level::Warn,
{
}

} // verus!
