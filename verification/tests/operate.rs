use trsync::operate::{ChangeOutcome, OperateChanges, OperateStep};

/// Drives a batch with the outcomes that `outcome_of` gives, returning the
/// order in which changes were operated and the final step.
fn drive(
    changes: Vec<usize>,
    mut outcome_of: impl FnMut(usize, usize) -> ChangeOutcome,
) -> (Vec<usize>, OperateStep) {
    let mut batch = OperateChanges::new(changes);
    let mut step = batch.begin();
    let mut order = Vec::new();
    let mut attempts = 0;
    loop {
        match step {
            OperateStep::Operate(id) => {
                attempts += 1;
                assert!(attempts < 1000);
                order.push(id);
                let outcome = outcome_of(id, attempts);
                step = batch.record(outcome);
            }
            other => return (order, other),
        }
    }
}

#[test]
fn empty_batch_is_finished_at_once() {
    let (order, step) = drive(vec![], |_, _| ChangeOutcome::Applied);
    assert!(order.is_empty());
    assert_eq!(step, OperateStep::Finished);
}

#[test]
fn all_applied_in_one_pass() {
    let (order, step) = drive(vec![0, 1, 2], |_, _| ChangeOutcome::Applied);
    assert_eq!(order, vec![0, 1, 2]);
    assert_eq!(step, OperateStep::Finished);
}

#[test]
fn missing_parents_are_retried_in_order() {
    // Change 0 needs change 2 (its parent) and change 1 needs change 0.
    let mut applied = std::collections::HashSet::new();
    let (order, step) = drive(vec![0, 1, 2], |id, _| {
        let ready = match id {
            0 => applied.contains(&2),
            1 => applied.contains(&0),
            _ => true,
        };
        if ready {
            applied.insert(id);
            ChangeOutcome::Applied
        } else {
            ChangeOutcome::MissingParent
        }
    });
    assert_eq!(order, vec![0, 1, 2, 0, 1]);
    assert_eq!(step, OperateStep::Finished);
}

#[test]
fn chain_of_parents_needs_one_pass_per_level() {
    // Each change needs the one after it.
    let mut applied = std::collections::HashSet::new();
    let (order, step) = drive(vec![0, 1, 2, 3], |id, _| {
        if id == 3 || applied.contains(&(id + 1)) {
            applied.insert(id);
            ChangeOutcome::Applied
        } else {
            ChangeOutcome::MissingParent
        }
    });
    assert_eq!(order, vec![0, 1, 2, 3, 0, 1, 2, 0, 1, 0]);
    assert_eq!(step, OperateStep::Finished);
    // At most 4 + 3 + 2 + 1 outcomes for four changes.
    assert!(order.len() <= 10);
}

#[test]
fn pass_without_progress_is_stuck() {
    let (order, step) = drive(vec![5, 6], |_, _| ChangeOutcome::MissingParent);
    assert_eq!(order, vec![5, 6]);
    assert_eq!(step, OperateStep::Stuck(vec![5, 6]));
}

#[test]
fn stuck_after_some_progress_reports_the_rest() {
    let (order, step) = drive(vec![0, 1, 2], |id, _| {
        if id == 1 {
            ChangeOutcome::Applied
        } else {
            ChangeOutcome::MissingParent
        }
    });
    assert_eq!(order, vec![0, 1, 2, 0, 2]);
    assert_eq!(step, OperateStep::Stuck(vec![0, 2]));
}

#[test]
fn other_failure_aborts_at_once() {
    let (order, step) = drive(vec![0, 1, 2], |id, _| {
        if id == 1 {
            ChangeOutcome::Failed
        } else {
            ChangeOutcome::Applied
        }
    });
    assert_eq!(order, vec![0, 1]);
    assert_eq!(step, OperateStep::Aborted(1));
}

#[test]
fn failure_in_a_retry_pass_aborts() {
    let (order, step) = drive(vec![0, 1], |id, attempt| {
        if id == 0 && attempt == 1 {
            ChangeOutcome::MissingParent
        } else if id == 0 {
            ChangeOutcome::Failed
        } else {
            ChangeOutcome::Applied
        }
    });
    assert_eq!(order, vec![0, 1, 0]);
    assert_eq!(step, OperateStep::Aborted(0));
}
