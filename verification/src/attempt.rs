//! The unseal attempt state machine.
//!
//! One attempt is a sweep over the escrowed shares of a split master key,
//! submitted to a sealed node in the provider's order. The node answers each
//! submission with whether it is still sealed and with the threshold of
//! distinct shares it requires. The attempt ends the first time the node
//! reports itself unsealed, or as soon as the reported threshold exceeds the
//! shares available, or when the shares are exhausted.

use vstd::prelude::*;

verus! {

/// A node's answer to one share submission.
#[derive(Clone, Copy, Debug, PartialEq, Eq, Structural)]
pub struct UnsealResponse {
    /// Whether the node is still sealed after this submission.
    pub sealed: bool,
    /// Minimum number of distinct shares the node requires.
    pub threshold: u64,
    /// Number of shares the node has accepted towards the threshold.
    pub progress: u64,
}

/// How one unseal attempt ended.
#[derive(Clone, Copy, Debug, PartialEq, Eq, Structural)]
pub enum AttemptOutcome {
    /// The node reported `sealed == false`; the remaining shares are not submitted.
    Unsealed,
    /// The node asks for more distinct shares than exist; submitting the rest
    /// can never succeed, so the attempt stops at once.
    InsufficientShares,
    /// Every share was submitted and the node still reports itself sealed.
    FailedToUnseal,
}

/// The decision taken after submission `index` (0-based) out of `total`
/// shares was answered with `r`: `None` to submit the next share, `Some`
/// to end the attempt.
///
/// For every submission but the last, a threshold above the number of
/// available shares ends the attempt before the unsealed flag is looked at.
/// The answer to the last share is judged on the unsealed flag alone: there
/// is nothing left to save by aborting early.
pub open spec fn step_decision(total: int, index: int, r: UnsealResponse) -> Option<AttemptOutcome> {
    if index + 1 < total {
        if r.threshold as int > total {
            Some(AttemptOutcome::InsufficientShares)
        } else if !r.sealed {
            Some(AttemptOutcome::Unsealed)
        } else {
            None
        }
    } else {
        if !r.sealed {
            Some(AttemptOutcome::Unsealed)
        } else {
            Some(AttemptOutcome::FailedToUnseal)
        }
    }
}

/// State of one unseal attempt over a fixed number of shares.
///
/// The caller asks `next_index` which share to submit, performs the
/// submission, and feeds the node's answer back through `record`.
#[derive(Clone, Copy, Debug, PartialEq, Eq)]
pub struct UnsealAttempt {
    /// Number of shares available to this attempt.
    pub total: usize,
    /// Number of shares submitted so far.
    pub submitted: usize,
    /// Set once the attempt has ended.
    pub outcome: Option<AttemptOutcome>,
}

impl UnsealAttempt {
    /// Start an attempt over `total` shares.
    pub fn new(total: usize) -> (a: Self)
        ensures
            a == (UnsealAttempt { total, submitted: 0, outcome: None::<AttemptOutcome> }),
    {
        UnsealAttempt { total, submitted: 0, outcome: None }
    }

    /// The index of the next share to submit, or `None` once the attempt has
    /// ended or no share is left.
    pub fn next_index(&self) -> (r: Option<usize>)
        ensures
            r == (if self.outcome is None && self.submitted < self.total {
                Some(self.submitted)
            } else {
                None::<usize>
            }),
    {
        if self.outcome.is_none() && self.submitted < self.total {
            Some(self.submitted)
        } else {
            None
        }
    }

    /// Record the node's answer to the submission of share `submitted`.
    pub fn record(&mut self, r: &UnsealResponse)
        requires
            old(self).outcome is None,
            old(self).submitted < old(self).total,
        ensures
            final(self).total == old(self).total,
            final(self).submitted == old(self).submitted + 1,
            final(self).outcome == step_decision(
                old(self).total as int,
                old(self).submitted as int,
                *r,
            ),
    {
        let idx = self.submitted;
        let decision: Option<AttemptOutcome> = if idx + 1 < self.total {
            if r.threshold > self.total as u64 {
                Some(AttemptOutcome::InsufficientShares)
            } else if !r.sealed {
                Some(AttemptOutcome::Unsealed)
            } else {
                None
            }
        } else {
            if !r.sealed {
                Some(AttemptOutcome::Unsealed)
            } else {
                Some(AttemptOutcome::FailedToUnseal)
            }
        };
        self.submitted = idx + 1;
        self.outcome = decision;
    }
}

/// Submissions made and final outcome of an attempt over `total` shares that
/// has already made `i` submissions and keeps going, when the node answers
/// submission `j` with `responses[j]`.
///
/// A first component short of `total` with a `None` outcome means the
/// scripted answers ran out before the attempt ended, which stands for a
/// transport failure mid-attempt.
pub open spec fn attempt_trace(total: int, i: int, responses: Seq<UnsealResponse>) -> (int, Option<
    AttemptOutcome,
>)
    decreases total - i,
{
    if i < 0 || i >= total || i >= responses.len() {
        (i, None::<AttemptOutcome>)
    } else {
        match step_decision(total, i, responses[i]) {
            Some(o) => (i + 1, Some(o)),
            None => attempt_trace(total, i + 1, responses),
        }
    }
}

/// How many shares a full attempt over `total` shares submits.
pub open spec fn attempt_submissions(total: int, responses: Seq<UnsealResponse>) -> int {
    attempt_trace(total, 0, responses).0
}

/// How a full attempt over `total` shares ends.
pub open spec fn attempt_outcome(total: int, responses: Seq<UnsealResponse>) -> Option<
    AttemptOutcome,
> {
    attempt_trace(total, 0, responses).1
}

/// What one scripted attempt did: how many shares went out and how it ended.
#[derive(Clone, Copy, Debug, PartialEq, Eq)]
pub struct AttemptReport {
    /// Number of shares submitted before the attempt ended.
    pub submitted: usize,
    /// How the attempt ended; `None` when the script ran out of answers.
    pub outcome: Option<AttemptOutcome>,
}

/// Run one unseal attempt against a scripted node: submission `i` is answered
/// with `responses[i]`. This is the deterministic stand-in for a node that
/// the attempt machine is exercised against; a live node is driven through
/// the same [`UnsealAttempt`] steps.
pub fn run_attempt(total: usize, responses: &Vec<UnsealResponse>) -> (rep: AttemptReport)
    ensures
        rep.submitted as int == attempt_submissions(total as int, responses@),
        rep.outcome == attempt_outcome(total as int, responses@),
{
    let mut att = UnsealAttempt::new(total);
    while att.outcome.is_none() && att.submitted < total && att.submitted < responses.len()
        invariant
            att.total == total,
            att.submitted <= total,
            attempt_trace(total as int, 0, responses@) == (if att.outcome is Some {
                (att.submitted as int, att.outcome)
            } else {
                attempt_trace(total as int, att.submitted as int, responses@)
            }),
        decreases total - att.submitted,
    {
        let i = att.submitted;
        att.record(&responses[i]);
    }
    AttemptReport { submitted: att.submitted, outcome: att.outcome }
}

/// An attempt never submits more shares than exist, whatever the node
/// answers: the first part of the bound that every sweep respects.
pub proof fn lemma_trace_bounds(total: int, i: int, responses: Seq<UnsealResponse>)
    requires
        0 <= i <= total,
    ensures
        i <= attempt_trace(total, i, responses).0 <= total,
    decreases total - i,
{
    if i < total && i < responses.len() {
        if step_decision(total, i, responses[i]) is None {
            lemma_trace_bounds(total, i + 1, responses);
        }
    }
}

/// For shares of size `N`, an attempt submits at most `N` shares.
pub proof fn lemma_submissions_bounded(total: int, responses: Seq<UnsealResponse>)
    requires
        0 <= total,
    ensures
        0 <= attempt_submissions(total, responses) <= total,
{
    lemma_trace_bounds(total, 0, responses);
}

/// An attempt halts at the first `sealed == false` answer: while every
/// earlier answer reported a threshold within reach and the node still
/// sealed, the submission answered with `sealed == false` is the last one,
/// and the attempt ends unsealed.
pub proof fn lemma_halts_at_first_unsealed(total: int, k: int, responses: Seq<UnsealResponse>)
    requires
        0 <= k < total,
        k < responses.len(),
        forall|j: int| 0 <= j <= k ==> #[trigger] responses[j].threshold as int <= total,
        forall|j: int| 0 <= j < k ==> #[trigger] responses[j].sealed,
        !responses[k].sealed,
    ensures
        attempt_submissions(total, responses) == k + 1,
        attempt_outcome(total, responses) == Some(AttemptOutcome::Unsealed),
{
    lemma_trace_runs_to(total, 0, k, responses);
}

/// As soon as a node, with at least one share still unsubmitted, reports a
/// threshold above the number of available shares, the attempt halts with
/// `InsufficientShares` and submits no further share.
///
/// The answer to the last available share is judged on the unsealed flag
/// alone (see [`step_decision`]): there, a threshold above the share count
/// ends the attempt just as finally, but as `Unsealed` or `FailedToUnseal`.
pub proof fn lemma_insufficient_shares_halts(total: int, k: int, responses: Seq<UnsealResponse>)
    requires
        0 <= k,
        k + 1 < total,
        k < responses.len(),
        forall|j: int| 0 <= j < k ==> #[trigger] responses[j].threshold as int <= total,
        forall|j: int| 0 <= j < k ==> #[trigger] responses[j].sealed,
        responses[k].threshold as int > total,
    ensures
        attempt_submissions(total, responses) == k + 1,
        attempt_outcome(total, responses) == Some(AttemptOutcome::InsufficientShares),
{
    lemma_trace_runs_to(total, 0, k, responses);
}

/// From any submission `i` not past `k`, an attempt whose answers keep it
/// going until `k` reaches submission `k` and ends on its answer there.
proof fn lemma_trace_runs_to(total: int, i: int, k: int, responses: Seq<UnsealResponse>)
    requires
        0 <= i <= k < total,
        k < responses.len(),
        forall|j: int| i <= j < k ==> #[trigger] responses[j].threshold as int <= total,
        forall|j: int| i <= j < k ==> #[trigger] responses[j].sealed,
        step_decision(total, k, responses[k]) is Some,
    ensures
        attempt_trace(total, i, responses) == (k + 1, step_decision(total, k, responses[k])),
    decreases k - i,
{
    if i < k {
        lemma_trace_runs_to(total, i + 1, k, responses);
    }
}

} // verus!
