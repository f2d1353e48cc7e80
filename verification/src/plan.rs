use vstd::prelude::*;
use crate::invocation::Invocation;
use crate::level::Level;

verus! {

/// The process status the bootstrap exits with after writing a default
/// configuration file, so that automation can tell "needs configuration"
/// from a generic failure.
pub const EXIT_CONFIG_WRITTEN: i32 = 1;

/// The default success status the process exits with once the dispatched
/// subcommand has returned.
pub const EXIT_OK: i32 = 0;

/// One externally visible effect that the bootstrap asks its caller to
/// perform. A run of the bootstrap is a short sequence of these, carried
/// out in order by the unverified shell around the library.
#[derive(Clone, Debug, PartialEq, Eq)]
pub enum Action {
    /// Persist a default configuration document at the given path.
    WriteDefaultConfig(String),
    /// Emit a warning-level log line advising the operator to fill in the
    /// required configuration fields, at minimum the database connection
    /// string.
    WarnMissingConfig,
    /// Install the process-wide logging sink, filtered at the given level.
    /// Emitted at most once per run.
    InitLogger(Level),
    /// Hand control to the server collaborator, passing it this invocation.
    StartServer(Invocation),
    /// Emit one error-level log line reporting that the server failed to
    /// start, carrying the failure's description.
    LogServerError(String),
    /// Terminate the process with the given status.
    Exit(i32),
}

/// The full sequence of effects of one bootstrap run, as a function of the
/// parsed invocation and of whether a regular file exists at the resolved
/// configuration path at the moment of the check.
///
/// If the file is missing, the run self-heals: it writes a default
/// document at the resolved path, warns the operator, and terminates with
/// the distinguished failure status, never reaching the run loop. If the
/// file is present, the run installs the logging sink at the effective
/// verbosity and dispatches the selected subcommand.
pub open spec fn spec_bootstrap_plan(inv: Invocation, config_exists: bool) -> Seq<Action> {
    if config_exists {
        seq![Action::InitLogger(inv.level), Action::StartServer(inv)]
    } else {
        seq![
            Action::WriteDefaultConfig(inv.config_path),
            Action::WarnMissingConfig,
            Action::Exit(EXIT_CONFIG_WRITTEN),
        ]
    }
}

/// The effects that follow the awaited server start, as a function of its
/// result. On success the process exits with the default success status;
/// on failure the error is reported once at error level and the process
/// still exits with the success-path status: the dispatcher does not turn
/// a server failure into a distinguished exit code.
pub open spec fn spec_after_server(result: Result<(), String>) -> Seq<Action> {
    match result {
        Result::Ok(_) => seq![Action::Exit(EXIT_OK)],
        Result::Err(e) => seq![Action::LogServerError(e), Action::Exit(EXIT_OK)],
    }
}

/// Whether some action of the plan writes a default configuration file.
pub open spec fn plan_writes_default(plan: Seq<Action>) -> bool {
    exists|i: int| 0 <= i < plan.len() && plan[i] is WriteDefaultConfig
}

/// Whether some action of the plan hands control to the server.
pub open spec fn plan_starts_server(plan: Seq<Action>) -> bool {
    exists|i: int| 0 <= i < plan.len() && plan[i] is StartServer
}

/// Whether the plan dispatches to the server at most once.
pub open spec fn plan_starts_server_at_most_once(plan: Seq<Action>) -> bool {
    forall|i: int, j: int|
        0 <= i < plan.len() && 0 <= j < plan.len() && #[trigger] plan[i] is StartServer
            && #[trigger] plan[j] is StartServer ==> i == j
}

/// Whether every dispatch of the plan hands the server exactly this
/// invocation.
pub open spec fn plan_dispatches(plan: Seq<Action>, inv: Invocation) -> bool {
    forall|i: int|
        0 <= i < plan.len() ==> ((#[trigger] plan[i]) matches Action::StartServer(v) ==> v
            == inv)
}

/// The status the process terminates with, read off the plan's final
/// action, if that action is an exit.
pub open spec fn plan_exit_code(plan: Seq<Action>) -> Option<i32> {
    if plan.len() == 0 {
        Option::None
    } else {
        match plan.last() {
            Action::Exit(code) => Option::Some(code),
            _ => Option::None,
        }
    }
}

/// Whether a regular file exists at the resolved configuration path once
/// the plan has been carried out: either it already existed, or the run
/// wrote the default document there.
pub open spec fn config_exists_after(config_exists: bool, plan: Seq<Action>) -> bool {
    config_exists || plan_writes_default(plan)
}

/// A run against a missing configuration file writes the default document
/// at the resolved path, terminates with the distinguished failure status,
/// and never starts the server.
pub proof fn lemma_missing_config_run(inv: Invocation)
    ensures
        plan_writes_default(spec_bootstrap_plan(inv, false)),
        plan_exit_code(spec_bootstrap_plan(inv, false)) == Option::Some(EXIT_CONFIG_WRITTEN),
        !plan_starts_server(spec_bootstrap_plan(inv, false)),
{
    let plan = spec_bootstrap_plan(inv, false);
    assert(plan[0] is WriteDefaultConfig);
    assert forall|i: int| 0 <= i < plan.len() implies !(plan[i] is StartServer) by {
        assert(plan[0] is WriteDefaultConfig);
        assert(plan[1] is WarnMissingConfig);
        assert(plan[2] is Exit);
    }
}

/// A run against a present configuration file never writes to it, and
/// dispatches to the server exactly once, passing the parsed invocation
/// itself — in particular, an invocation whose configuration path is the
/// resolved path.
pub proof fn lemma_present_config_run(inv: Invocation)
    ensures
        !plan_writes_default(spec_bootstrap_plan(inv, true)),
        plan_starts_server(spec_bootstrap_plan(inv, true)),
        plan_starts_server_at_most_once(spec_bootstrap_plan(inv, true)),
        plan_dispatches(spec_bootstrap_plan(inv, true), inv),
{
    let plan = spec_bootstrap_plan(inv, true);
    assert(plan[1] is StartServer);
    assert forall|i: int| 0 <= i < plan.len() implies !(plan[i] is WriteDefaultConfig) by {
        assert(plan[0] is InitLogger);
        assert(plan[1] is StartServer);
    }
}

/// The missing-configuration path self-heals. Starting from a path with no
/// file, the first run writes the default document, so a file is present
/// afterwards; a second run resolving the same path then finds the file
/// and dispatches to the server instead of writing again.
pub proof fn lemma_missing_config_self_heals(first: Invocation, second: Invocation)
    requires
        second.config_path@ == first.config_path@,
    ensures
        config_exists_after(false, spec_bootstrap_plan(first, false)),
        plan_starts_server(
            spec_bootstrap_plan(
                second,
                config_exists_after(false, spec_bootstrap_plan(first, false)),
            ),
        ),
        !plan_writes_default(
            spec_bootstrap_plan(
                second,
                config_exists_after(false, spec_bootstrap_plan(first, false)),
            ),
        ),
{
    lemma_missing_config_run(first);
    lemma_present_config_run(second);
}

/// A server-start failure is reported by exactly one error-level log
/// action, carrying the failure's description unchanged, and the exit
/// status is still the success-path one: the dispatcher does not turn the
/// failure into a distinguished exit code.
pub proof fn lemma_server_failure_logged_once(description: String)
    ensures
        spec_after_server(Result::Err(description)).len() == 2,
        spec_after_server(Result::Err(description))[0] == Action::LogServerError(description),
        spec_after_server(Result::Err(description))[1] == Action::Exit(EXIT_OK),
        plan_exit_code(spec_after_server(Result::Err(description))) == Option::Some(EXIT_OK),
{
}

impl Invocation {
    /// Decide everything one bootstrap run does, given whether a regular
    /// file exists at the resolved configuration path. Consumes the
    /// invocation so that the dispatch action carries exactly the parsed
    /// intent.
    pub fn bootstrap_plan(self, config_exists: bool) -> (plan: Vec<Action>)
        ensures
            plan@ == spec_bootstrap_plan(self, config_exists),
    {
        let ghost intent = self;
        let mut plan: Vec<Action> = Vec::new();
        if config_exists {
            plan.push(Action::InitLogger(self.level));
            plan.push(Action::StartServer(self));
        } else {
            plan.push(Action::WriteDefaultConfig(self.config_path));
            plan.push(Action::WarnMissingConfig);
            plan.push(Action::Exit(EXIT_CONFIG_WRITTEN));
        }
        proof {
            assert(plan@ =~= spec_bootstrap_plan(intent, config_exists));
        }
        plan
    }
}

/// Decide what follows the awaited server start, given its result.
pub fn after_server(result: Result<(), String>) -> (plan: Vec<Action>)
    ensures
        plan@ == spec_after_server(result),
{
    let ghost outcome = result;
    let mut plan: Vec<Action> = Vec::new();
    match result {
        Result::Ok(_) => {
            plan.push(Action::Exit(EXIT_OK));
        },
        Result::Err(e) => {
            plan.push(Action::LogServerError(e));
            plan.push(Action::Exit(EXIT_OK));
        },
    }
    proof {
        assert(plan@ =~= spec_after_server(outcome));
    }
    plan
}

} // verus!

