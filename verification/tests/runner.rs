use trsync::runner::{
    operational_step, run_plan, supervisor_step, sync_needs_approval, LoopExit,
    OperationalStep, Reception, RunOutcome, RunPlan, SupervisorStep,
};

#[test]
fn closed_channel_ends_the_operational_loop() {
    for stop in [false, true] {
        for restart in [false, true] {
            assert_eq!(
                operational_step(Reception::Disconnected, stop, restart),
                OperationalStep::Exit(LoopExit::ChannelClosed)
            );
        }
    }
}

#[test]
fn stop_takes_precedence_over_restart() {
    for reception in [Reception::Event, Reception::Timeout] {
        assert_eq!(
            operational_step(reception, true, true),
            OperationalStep::Exit(LoopExit::StopSignal)
        );
        assert_eq!(
            operational_step(reception, true, false),
            OperationalStep::Exit(LoopExit::StopSignal)
        );
        assert_eq!(
            operational_step(reception, false, true),
            OperationalStep::Exit(LoopExit::RestartSignal)
        );
    }
}

#[test]
fn events_are_processed_and_timeouts_waited() {
    assert_eq!(operational_step(Reception::Event, false, false), OperationalStep::Process);
    assert_eq!(operational_step(Reception::Timeout, false, false), OperationalStep::Wait);
}

#[test]
fn supervisor_decisions() {
    assert_eq!(supervisor_step(RunOutcome::FailedNoDecision, false), SupervisorStep::Exit);
    assert_eq!(supervisor_step(RunOutcome::FailedNoDecision, true), SupervisorStep::Exit);
    assert_eq!(supervisor_step(RunOutcome::Completed, true), SupervisorStep::ExitClearingStop);
    assert_eq!(
        supervisor_step(RunOutcome::FailedRestartAsked, true),
        SupervisorStep::ExitClearingStop
    );
    assert_eq!(supervisor_step(RunOutcome::Completed, false), SupervisorStep::RunAgain);
    assert_eq!(supervisor_step(RunOutcome::FailedRestartAsked, false), SupervisorStep::RunAgain);
}

#[test]
fn first_sync_and_exit_after_sync_plan() {
    assert_eq!(
        run_plan(false, false),
        RunPlan { avoid_same_sums: true, listen_after_sync: true }
    );
    assert_eq!(
        run_plan(true, true),
        RunPlan { avoid_same_sums: false, listen_after_sync: false }
    );
}

#[test]
fn approval_asked_only_when_there_are_changes() {
    assert!(!sync_needs_approval(0, 0));
    assert!(sync_needs_approval(1, 0));
    assert!(sync_needs_approval(0, 3));
    assert!(sync_needs_approval(2, 2));
}
