//! Per-tick decisions of one unseal worker.
//!
//! A worker owns one node. On every cycle it races the shutdown signal
//! against the poll timer; when the timer wins it checks the node's state and
//! only a `Sealed` answer starts an unseal attempt. The decision logic lives
//! here as plain functions of the observed event, so the loop around it only
//! performs what was decided; a scripted runner exercises whole worker
//! histories against a deterministic node.

use vstd::prelude::*;

use crate::attempt::AttemptOutcome;
use crate::attempt::UnsealResponse;
use crate::attempt::attempt_outcome;
use crate::attempt::attempt_submissions;
use crate::attempt::lemma_submissions_bounded;
use crate::attempt::run_attempt;

verus! {

/// Operational state of a node, as one status check reports it.
#[derive(Clone, Copy, Debug, PartialEq, Eq, Structural)]
pub enum ServerState {
    /// The node has never been initialized.
    Uninitialized,
    /// The node is sealed and waiting for shares.
    Sealed,
    /// The node is unsealed and standing by.
    Standby,
    /// The node is unsealed and serving.
    Active,
    /// Any other answer: not ready, recovering, or unrecognized.
    Unknown,
}

/// Errors a worker can meet, at the granularity the worker logs them.
#[derive(Clone, Copy, Debug, PartialEq, Eq, Structural)]
pub enum Error {
    /// A network round trip to the node failed.
    ClientError,
    /// The node client could not be built from its settings.
    ClientSettingError,
    /// An unseal attempt ended without unsealing the node.
    UnsealError,
}

/// What a worker observes at the top of one poll cycle: the race between the
/// shutdown signal and the poll timer, and, when the timer won, the answer of
/// the status check.
#[derive(Clone, Copy, Debug, PartialEq, Eq, Structural)]
pub enum TickEvent {
    /// The shutdown signal won the race against the poll timer.
    Cancelled,
    /// The poll timer fired and the status check answered with a state.
    Status(ServerState),
    /// The poll timer fired and the status check failed on the wire.
    StatusError,
}

/// What the worker does with the rest of the cycle.
#[derive(Clone, Copy, Debug, PartialEq, Eq, Structural)]
pub enum CycleAction {
    /// Leave the poll loop for good.
    Exit,
    /// Do nothing until the next tick.
    Wait,
    /// Run one unseal attempt, then wait for the next tick.
    Unseal,
}

/// The decision a worker takes on one observed event. Only a node that
/// reports itself `Sealed` receives shares this cycle; every other answer,
/// and a failed status check, waits for the next tick, and only the shutdown
/// signal ends the loop.
pub open spec fn spec_cycle_action(ev: TickEvent) -> CycleAction {
    match ev {
        TickEvent::Cancelled => CycleAction::Exit,
        TickEvent::Status(ServerState::Sealed) => CycleAction::Unseal,
        TickEvent::Status(_) => CycleAction::Wait,
        TickEvent::StatusError => CycleAction::Wait,
    }
}

/// Decide one poll cycle from the observed event.
pub fn cycle_action(ev: &TickEvent) -> (a: CycleAction)
    ensures
        a == spec_cycle_action(*ev),
{
    match ev {
        TickEvent::Cancelled => CycleAction::Exit,
        TickEvent::Status(ServerState::Sealed) => CycleAction::Unseal,
        TickEvent::Status(_) => CycleAction::Wait,
        TickEvent::StatusError => CycleAction::Wait,
    }
}

/// A node already standing by or actively serving never receives a share
/// that cycle: the decision on those states is to wait, never to unseal.
pub proof fn lemma_standby_active_never_unsealed(ev: TickEvent)
    requires
        ev == TickEvent::Status(ServerState::Standby) || ev == TickEvent::Status(
            ServerState::Active,
        ),
    ensures
        spec_cycle_action(ev) == CycleAction::Wait,
{
}

/// One scripted poll cycle of the deterministic node fake: what the worker
/// observes at the top of the cycle, and the answers the node would give to
/// share submissions within it.
#[derive(Clone, Debug)]
pub struct ScriptedCycle {
    /// The event the worker observes this cycle.
    pub event: TickEvent,
    /// The node's answer to submission `i` of an attempt run this cycle.
    pub responses: Vec<UnsealResponse>,
}

/// What one executed poll cycle did on the wire.
#[derive(Clone, Copy, Debug, PartialEq, Eq)]
pub struct CycleReport {
    /// Network round trips this cycle: one status check plus one per share.
    pub network_calls: usize,
    /// Shares submitted this cycle.
    pub submitted: usize,
    /// How the cycle's attempt ended; `None` when no attempt ran or the
    /// script ran out of answers.
    pub outcome: Option<AttemptOutcome>,
}

/// Shares a scripted cycle submits: a full attempt when the node reported
/// itself sealed, none otherwise.
pub open spec fn spec_cycle_submissions(total: int, c: ScriptedCycle) -> int {
    if c.event == TickEvent::Status(ServerState::Sealed) {
        attempt_submissions(total, c.responses@)
    } else {
        0
    }
}

/// How a scripted cycle's attempt ends, if one ran.
pub open spec fn spec_cycle_outcome(total: int, c: ScriptedCycle) -> Option<AttemptOutcome> {
    if c.event == TickEvent::Status(ServerState::Sealed) {
        attempt_outcome(total, c.responses@)
    } else {
        None::<AttemptOutcome>
    }
}

/// Run one worker against a scripted node, over `total` available shares:
/// cycles run in order until the script ends or the shutdown signal is
/// observed, and each cycle reports what it put on the wire.
///
/// A shutdown observed at the top of a cycle ends the worker before any
/// network call of that cycle: in particular, a worker cancelled before its
/// first tick reports no cycle and makes no network call at all.
pub fn run_worker(total: usize, script: &Vec<ScriptedCycle>) -> (reports: Vec<CycleReport>)
    requires
        total < usize::MAX,
    ensures
        reports@.len() <= script@.len(),
        forall|j: int| 0 <= j < reports@.len() ==> !((#[trigger] script@[j]).event is Cancelled),
        reports@.len() < script@.len() ==> script@[reports@.len() as int].event is Cancelled,
        forall|j: int|
            0 <= j < reports@.len() ==> {
                let rep = #[trigger] reports@[j];
                &&& rep.submitted as int == spec_cycle_submissions(total as int, script@[j])
                &&& rep.network_calls == rep.submitted + 1
                &&& rep.outcome == spec_cycle_outcome(total as int, script@[j])
            },
        script@.len() > 0 && script@[0].event is Cancelled ==> reports@.len() == 0,
{
    let mut reports: Vec<CycleReport> = Vec::new();
    let mut i: usize = 0;
    let mut stopped = false;
    while i < script.len() && !stopped
        invariant
            total < usize::MAX,
            i <= script@.len(),
            reports@.len() == i,
            forall|j: int| 0 <= j < i ==> !((#[trigger] script@[j]).event is Cancelled),
            forall|j: int|
                0 <= j < i ==> {
                    let rep = #[trigger] reports@[j];
                    &&& rep.submitted as int == spec_cycle_submissions(total as int, script@[j])
                    &&& rep.network_calls == rep.submitted + 1
                    &&& rep.outcome == spec_cycle_outcome(total as int, script@[j])
                },
            stopped ==> i < script@.len() && script@[i as int].event is Cancelled,
        decreases script@.len() - i + (if stopped { 0int } else { 1int }),
    {
        let cycle = &script[i];
        match cycle_action(&cycle.event) {
            CycleAction::Exit => {
                stopped = true;
            },
            CycleAction::Wait => {
                reports.push(CycleReport { network_calls: 1, submitted: 0, outcome: None });
                i = i + 1;
            },
            CycleAction::Unseal => {
                let rep = run_attempt(total, &cycle.responses);
                proof {
                    lemma_submissions_bounded(total as int, cycle.responses@);
                }
                reports.push(
                    CycleReport {
                        network_calls: rep.submitted + 1,
                        submitted: rep.submitted,
                        outcome: rep.outcome,
                    },
                );
                i = i + 1;
            },
        }
    }
    reports
}

/// One full unseal sweep as the worker runs it after a `Sealed` status,
/// against a scripted node: the shares are the provider's snapshot, and
/// submission `i` is answered with `responses[i]`. An empty snapshot and an
/// exhausted attempt are unseal failures; a script that runs out of answers
/// stands for a transport failure mid-attempt.
pub fn unseal_from_script(shares: &Vec<String>, responses: &Vec<UnsealResponse>) -> (r: Result<
    (),
    Error,
>)
    ensures
        shares@.len() == 0 ==> r == Err::<(), Error>(Error::UnsealError),
        shares@.len() > 0 ==> r == (match attempt_outcome(shares@.len() as int, responses@) {
            Some(AttemptOutcome::Unsealed) => Ok::<(), Error>(()),
            Some(_) => Err::<(), Error>(Error::UnsealError),
            None => Err::<(), Error>(Error::ClientError),
        }),
{
    if shares.len() == 0 {
        return Err(Error::UnsealError);
    }
    let rep = run_attempt(shares.len(), responses);
    match rep.outcome {
        Some(AttemptOutcome::Unsealed) => Ok(()),
        Some(_) => Err(Error::UnsealError),
        None => Err(Error::ClientError),
    }
}

} // verus!
