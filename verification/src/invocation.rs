use vstd::prelude::*;
use crate::level::Level;
use crate::level::spec_resolve_level;
use crate::level::resolve_level;

verus! {

/// The selected subcommand. A closed enumeration, kept as a tagged variant
/// even while only one subcommand exists, so that the dispatcher can grow
/// without structural rewrites.
#[derive(Copy, Clone, Debug, PartialEq, Eq, Structural)]
pub enum Command {
    Start,
}

/// The configuration file path used when the flag is not given.
pub open spec fn spec_default_config_path() -> Seq<char> {
    "config.toml"@
}

/// The default configuration file path as an owned string.
pub fn default_config_path() -> (p: String)
    ensures
        p@ == spec_default_config_path(),
{
    "config.toml".to_owned()
}

/// The resolved configuration path: the explicit flag value if one was
/// given, else the default.
pub fn resolve_config_path(explicit: Option<String>) -> (p: String)
    ensures
        explicit matches Option::Some(e) ==> p@ == e@,
        explicit is None ==> p@ == spec_default_config_path(),
{
    match explicit {
        Option::Some(e) => e,
        Option::None => default_config_path(),
    }
}

/// The parsed command-line intent of one process invocation: the selected
/// subcommand, the effective verbosity, and the resolved configuration file
/// path. Created once at process start and read-only thereafter.
#[derive(Clone, Debug, PartialEq, Eq)]
pub struct Invocation {
    pub command: Command,
    pub level: Level,
    pub config_path: String,
}

impl Invocation {
    /// Build the invocation from the parsed pieces of the command line,
    /// resolving the effective verbosity and the configuration path.
    pub fn new(
        command: Command,
        explicit_level: Option<Level>,
        verbose: u8,
        quiet: u8,
        explicit_path: Option<String>,
    ) -> (inv: Invocation)
        ensures
            inv.command == command,
            inv.level == spec_resolve_level(explicit_level, verbose, quiet),
            explicit_path matches Option::Some(p) ==> inv.config_path@ == p@,
            explicit_path is None ==> inv.config_path@ == spec_default_config_path(),
    {
        Invocation {
            command,
            level: resolve_level(explicit_level, verbose, quiet),
            config_path: resolve_config_path(explicit_path),
        }
    }
}

} // verus!
