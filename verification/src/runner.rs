use vstd::prelude::*;

verus! {

/// What waiting on the operational channel gave.
#[derive(Debug, Clone, Copy, PartialEq, Eq, Structural)]
pub enum Reception {
    /// A local or remote event arrived.
    Event,
    /// Nothing arrived in time.
    Timeout,
    /// Every sender is gone.
    Disconnected,
}

/// Why the operational loop ended.
#[derive(Debug, Clone, Copy, PartialEq, Eq, Structural)]
pub enum LoopExit {
    StopSignal,
    RestartSignal,
    ChannelClosed,
}

/// What the operational loop does after waiting on its channel.
#[derive(Debug, Clone, Copy, PartialEq, Eq, Structural)]
pub enum OperationalStep {
    /// Apply the event that arrived, then wait again.
    Process,
    /// Wait again.
    Wait,
    /// Leave the loop.
    Exit(LoopExit),
}

/// The decision of the operational loop. A closed channel ends it; otherwise
/// a stop request, then a restart request, ends it before anything is done
/// with what arrived; an event is processed only when neither is requested.
pub fn operational_step(reception: Reception, stop_requested: bool, restart_requested: bool) -> (step: OperationalStep)
    ensures
        reception == Reception::Disconnected ==> step == OperationalStep::Exit(LoopExit::ChannelClosed),
        reception != Reception::Disconnected && stop_requested ==> step == OperationalStep::Exit(
            LoopExit::StopSignal,
        ),
        reception != Reception::Disconnected && !stop_requested && restart_requested ==> step
            == OperationalStep::Exit(LoopExit::RestartSignal),
        reception == Reception::Event && !stop_requested && !restart_requested ==> step
            == OperationalStep::Process,
        reception == Reception::Timeout && !stop_requested && !restart_requested ==> step
            == OperationalStep::Wait,
{
    match reception {
        Reception::Disconnected => OperationalStep::Exit(LoopExit::ChannelClosed),
        _ => {
            if stop_requested {
                OperationalStep::Exit(LoopExit::StopSignal)
            } else if restart_requested {
                OperationalStep::Exit(LoopExit::RestartSignal)
            } else {
                match reception {
                    Reception::Event => OperationalStep::Process,
                    _ => OperationalStep::Wait,
                }
            }
        },
    }
}

/// How a run of the synchronization ended, as the supervisor sees it.
#[derive(Debug, Clone, Copy, PartialEq, Eq, Structural)]
pub enum RunOutcome {
    /// The run returned without error.
    Completed,
    /// The run failed and the user asked for the synchronization to restart.
    FailedRestartAsked,
    /// The run failed and no decision could be received.
    FailedNoDecision,
}

/// What the supervisor does after a run.
#[derive(Debug, Clone, Copy, PartialEq, Eq, Structural)]
pub enum SupervisorStep {
    /// Run the synchronization again.
    RunAgain,
    /// Return, leaving the stop signal as it is.
    Exit,
    /// Lower the stop signal, then return.
    ExitClearingStop,
}

/// The decision of the supervision loop. When no decision can be received
/// after a failure it gives up; otherwise it returns, lowering the stop
/// signal, exactly when a stop was requested, and runs again when not.
pub fn supervisor_step(outcome: RunOutcome, stop_requested: bool) -> (step: SupervisorStep)
    ensures
        outcome == RunOutcome::FailedNoDecision ==> step == SupervisorStep::Exit,
        outcome != RunOutcome::FailedNoDecision && stop_requested ==> step
            == SupervisorStep::ExitClearingStop,
        outcome != RunOutcome::FailedNoDecision && !stop_requested ==> step
            == SupervisorStep::RunAgain,
{
    match outcome {
        RunOutcome::FailedNoDecision => SupervisorStep::Exit,
        _ => {
            if stop_requested {
                SupervisorStep::ExitClearingStop
            } else {
                SupervisorStep::RunAgain
            }
        },
    }
}

/// The choices a run makes before it starts.
#[derive(Debug, Clone, Copy, PartialEq, Eq, Structural)]
pub struct RunPlan {
    /// Whether the operator skips contents whose sums already match, which it
    /// does on the first synchronization of a workspace.
    pub avoid_same_sums: bool,
    /// Whether the run goes on listening to events after the startup
    /// synchronization.
    pub listen_after_sync: bool,
}

/// A synchronization is the first one when the workspace has no database
/// yet; the run listens after the startup synchronization unless asked to
/// exit after it.
pub fn run_plan(database_exists: bool, exit_after_sync: bool) -> (plan: RunPlan)
    ensures
        plan.avoid_same_sums == !database_exists,
        plan.listen_after_sync == !exit_after_sync,
{
    RunPlan { avoid_same_sums: !database_exists, listen_after_sync: !exit_after_sync }
}

/// The startup synchronization asks the sync politic to approve the changes
/// exactly when there is at least one, remote or local.
pub fn sync_needs_approval(remote_changes: usize, local_changes: usize) -> (r: bool)
    ensures
        r == (remote_changes > 0 || local_changes > 0),
{
    remote_changes != 0 || local_changes != 0
}

} // verus!
