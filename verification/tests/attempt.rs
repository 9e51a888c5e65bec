use vault_unseal::attempt::{AttemptOutcome, UnsealAttempt, UnsealResponse, run_attempt};

fn resp(sealed: bool, threshold: u64, progress: u64) -> UnsealResponse {
    UnsealResponse { sealed, threshold, progress }
}

#[test]
fn unseals_on_first_sealed_false_and_skips_the_rest() {
    // Three shares; the second submission already unseals the node, so the
    // third share is never submitted.
    let responses = vec![resp(true, 2, 1), resp(false, 2, 2)];
    let rep = run_attempt(3, &responses);
    assert_eq!(rep.submitted, 2);
    assert_eq!(rep.outcome, Some(AttemptOutcome::Unsealed));
}

#[test]
fn halts_with_insufficient_shares_when_threshold_exceeds_total() {
    // Two shares, but the node wants three distinct shares: the attempt
    // aborts after the first answer and the second share is never submitted.
    let responses = vec![resp(true, 3, 1)];
    let rep = run_attempt(2, &responses);
    assert_eq!(rep.submitted, 1);
    assert_eq!(rep.outcome, Some(AttemptOutcome::InsufficientShares));
}

#[test]
fn fails_to_unseal_when_shares_are_exhausted() {
    // One share, and the node still reports itself sealed afterwards.
    let responses = vec![resp(true, 1, 1)];
    let rep = run_attempt(1, &responses);
    assert_eq!(rep.submitted, 1);
    assert_eq!(rep.outcome, Some(AttemptOutcome::FailedToUnseal));
}

#[test]
fn submits_every_share_before_giving_up() {
    // Three shares, all accepted but never enough: the sweep uses all three,
    // in order, and only then reports failure.
    let responses = vec![resp(true, 3, 1), resp(true, 3, 2), resp(true, 3, 3)];
    let rep = run_attempt(3, &responses);
    assert_eq!(rep.submitted, 3);
    assert_eq!(rep.outcome, Some(AttemptOutcome::FailedToUnseal));
}

#[test]
fn threshold_equal_to_total_does_not_abort() {
    // A threshold exactly equal to the share count is within reach.
    let responses = vec![resp(true, 2, 1), resp(false, 2, 2)];
    let rep = run_attempt(2, &responses);
    assert_eq!(rep.submitted, 2);
    assert_eq!(rep.outcome, Some(AttemptOutcome::Unsealed));
}

#[test]
fn exhausted_script_leaves_attempt_without_outcome() {
    // No answer to the first submission: the scripted stand-in for a
    // transport failure mid-attempt.
    let responses = vec![];
    let rep = run_attempt(2, &responses);
    assert_eq!(rep.submitted, 0);
    assert_eq!(rep.outcome, None);
}

#[test]
fn zero_shares_submit_nothing() {
    let responses = vec![resp(true, 1, 0)];
    let rep = run_attempt(0, &responses);
    assert_eq!(rep.submitted, 0);
    assert_eq!(rep.outcome, None);
}

#[test]
fn attempt_machine_steps_in_order() {
    let mut att = UnsealAttempt::new(2);
    assert_eq!(att.next_index(), Some(0));
    att.record(&resp(true, 2, 1));
    assert_eq!(att.outcome, None);
    assert_eq!(att.next_index(), Some(1));
    att.record(&resp(false, 2, 2));
    assert_eq!(att.outcome, Some(AttemptOutcome::Unsealed));
    assert_eq!(att.next_index(), None);
}
