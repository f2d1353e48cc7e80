use vstd::prelude::*;

verus! {

/// Verbosity of the process-wide logging sink, an ordered enumeration from
/// completely silent to most detailed.
#[derive(Copy, Clone, Debug, PartialEq, Eq, Structural)]
pub enum Level {
    Off,
    Error,
    Warn,
    Info,
    Debug,
    Trace,
}

/// Numeric rank of a level: `Off` is 0 and each more detailed level is one
/// higher, up to `Trace` at 5.
pub open spec fn level_rank(l: Level) -> int {
    match l {
        Level::Off => 0,
        Level::Error => 1,
        Level::Warn => 2,
        Level::Info => 3,
        Level::Debug => 4,
        Level::Trace => 5,
    }
}

/// The effective level when the command line carries no verbosity flag.
pub open spec fn spec_default_level() -> Level {
    Level::Info
}

/// The level whose rank is `r`, with ranks below `Off` clamped to `Off` and
/// ranks above `Trace` clamped to `Trace`.
pub open spec fn level_of_rank(r: int) -> Level {
    if r <= 0 {
        Level::Off
    } else if r == 1 {
        Level::Error
    } else if r == 2 {
        Level::Warn
    } else if r == 3 {
        Level::Info
    } else if r == 4 {
        Level::Debug
    } else {
        Level::Trace
    }
}

/// The effective verbosity of one invocation. An explicit level flag wins
/// outright; otherwise the default level is raised once per repeated
/// verbose flag and lowered once per repeated quiet flag, clamped to the
/// enumeration's range.
pub open spec fn spec_resolve_level(explicit: Option<Level>, verbose: u8, quiet: u8) -> Level {
    match explicit {
        Option::Some(l) => l,
        Option::None => level_of_rank(level_rank(spec_default_level()) + verbose - quiet),
    }
}

/// Resolve the effective verbosity from the parsed flags.
pub fn resolve_level(explicit: Option<Level>, verbose: u8, quiet: u8) -> (l: Level)
    ensures
        l == spec_resolve_level(explicit, verbose, quiet),
{
    match explicit {
        Option::Some(l) => l,
        Option::None => {
            let raw: i32 = 3 + (verbose as i32) - (quiet as i32);
            if raw <= 0 {
                Level::Off
            } else if raw == 1 {
                Level::Error
            } else if raw == 2 {
                Level::Warn
            } else if raw == 3 {
                Level::Info
            } else if raw == 4 {
                Level::Debug
            } else {
                Level::Trace
            }
        },
    }
}

/// With no flags at all the effective level is `Info`; an explicit level
/// flag always resolves to exactly that level, whatever the repeatable
/// modifiers say.
pub proof fn lemma_level_resolution(l: Level, verbose: u8, quiet: u8)
    ensures
        spec_resolve_level(Option::None, 0, 0) == Level::Info,
        spec_resolve_level(Option::Some(l), verbose, quiet) == l,
{
}

} // verus!
