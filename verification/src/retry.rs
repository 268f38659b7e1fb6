//! One fetch as a state machine. The caller reports what happened; the
//! machine says what to do next: wait, send, stay away, deliver or give up.
//! Fetches that go through one fetcher share its state, and are let through
//! one at a time.

use crate::errors::FetchError;
use crate::fetch::{
    block_backoff, block_backoff_secs, failure_backoff_secs, is_block_notice, is_soft_block,
    send_time, FetchState, MIN_DELAY_MS,
};
use vstd::prelude::*;

verus! {

/// How long, in milliseconds, a fetch waits before it asks again whether the
/// fetcher is free.
pub const QUEUE_POLL_MS: u64 = 250;

/// Where one fetch stands.
#[derive(Debug, Clone, Copy, PartialEq, Eq, Structural)]
pub enum FetchPhase {
    /// Nothing has been done yet.
    Idle,
    /// The wait that keeps requests apart is running.
    Delaying,
    /// A request is on its way.
    Requesting,
    /// The last attempt met a block notice; the time to stay away is running.
    BlockedRetry,
    /// The last attempt failed on the network; the time to stay away is
    /// running.
    FailedRetry,
    /// A body was delivered.
    Success,
    /// No attempt is left, or the fetch was given up.
    Exhausted,
}

/// One fetch: its phase, the index of the attempt it is at, how many attempts
/// it may make, and the time before which its request may not be sent.
#[derive(Debug, Clone, Copy, PartialEq, Eq, Structural)]
pub struct FetchRun {
    pub phase: FetchPhase,
    pub attempt: u32,
    pub max_attempts: u32,
    pub due_ms: u64,
}

/// What happened outside since the last step of a fetch. Every event that
/// depends on time carries the clock's reading.
#[derive(Debug, Clone, Copy)]
pub enum FetchEvent<'a> {
    /// The fetch may go on: it has just begun, it has stayed away for as long
    /// as it was told, or it has waited for the fetcher to be free. `nanos` is
    /// a reading of the clock's nanoseconds.
    Ready { now_ms: u64, nanos: u32 },
    /// The wait before the request is over.
    Waited { now_ms: u64 },
    /// The request ended with a body.
    Responded { body: &'a str, now_ms: u64 },
    /// The request ended without a body: it did not get through, timed out,
    /// or was refused.
    Failed { now_ms: u64 },
    /// The caller gives the fetch up.
    Abandoned { now_ms: u64 },
}

/// What to do next for a fetch.
#[derive(Debug, Clone, Copy, PartialEq, Eq, Structural)]
pub enum FetchAction {
    /// Another request of the same fetcher is under way: wait for so many
    /// milliseconds, then report `Ready` again.
    Queue { ms: u64 },
    /// Wait for so many milliseconds, then report `Waited`.
    Delay { ms: u64 },
    /// Send the request, then report how it ended.
    Send,
    /// The attempt did not deliver, for the reason given: stay away for so
    /// many seconds, then report `Ready`.
    BackOff { secs: u64, cause: FetchError },
    /// Hand the body that just came to the caller.
    Deliver,
    /// Report the failure to the caller.
    Fail(FetchError),
    /// Nothing is to be done: the event does not belong to the phase, or the
    /// fetch was given up.
    Ignore,
}

/// What a step of a fetch comes to: the fetch and the fetcher's state after
/// it, and what the caller is to do.
pub struct FetchStep {
    pub run: FetchRun,
    pub shared: FetchState,
    pub action: FetchAction,
}

/// The later of two times.
pub open spec fn later(a: u64, b: u64) -> u64 {
    if a >= b {
        a
    } else {
        b
    }
}

impl FetchRun {
    /// Whether the fetch is over.
    pub open spec fn is_terminal(self) -> bool {
        self.phase == FetchPhase::Success || self.phase == FetchPhase::Exhausted
    }

    /// Whether the fetch is the one that its fetcher is busy with: it is
    /// waiting to send its request, or has sent it.
    pub open spec fn holds_fetcher(self) -> bool {
        self.phase == FetchPhase::Delaying || self.phase == FetchPhase::Requesting
    }

    /// Whether the fetch waits to be let through by its fetcher.
    pub open spec fn awaits_admission(self) -> bool {
        self.phase == FetchPhase::Idle || self.phase == FetchPhase::BlockedRetry || self.phase
            == FetchPhase::FailedRetry
    }

    /// Whether the attempt that the fetch is at may be followed by another.
    pub open spec fn may_retry(self) -> bool {
        self.attempt + 1 < self.max_attempts
    }

    /// The index of the attempt that follows the one that the fetch is at.
    pub open spec fn next_attempt(self) -> u32 {
        if self.phase == FetchPhase::Idle || self.attempt == u32::MAX {
            self.attempt
        } else {
            (self.attempt + 1) as u32
        }
    }

    /// The fetcher's state once the request of this fetch has ended at
    /// `now_ms`: it is free again, and the request counts as ended at that
    /// time, or at the time before which it could not be sent, if that is
    /// later.
    pub open spec fn released(self, shared: FetchState, now_ms: u64) -> FetchState {
        FetchState {
            last_completed_ms: later(shared.last_completed_ms, later(now_ms, self.due_ms)),
            busy: false,
        }
    }

    /// What a step comes to when the fetch asks to be let through.
    pub open spec fn on_ready(self, shared: FetchState, now_ms: u64, nanos: u32) -> FetchStep {
        if self.max_attempts == 0 {
            FetchStep {
                run: FetchRun { phase: FetchPhase::Exhausted, ..self },
                shared,
                action: FetchAction::Fail(FetchError::RetriesExhausted),
            }
        } else if shared.busy {
            FetchStep { run: self, shared, action: FetchAction::Queue { ms: QUEUE_POLL_MS } }
        } else {
            let due = send_time(shared.last_completed_ms, now_ms, nanos) as u64;
            FetchStep {
                run: FetchRun {
                    phase: FetchPhase::Delaying,
                    attempt: self.next_attempt(),
                    due_ms: due,
                    ..self
                },
                shared: FetchState { busy: true, ..shared },
                action: FetchAction::Delay { ms: (due - now_ms) as u64 },
            }
        }
    }

    /// What a step comes to when the request of the fetch has ended, with a
    /// block notice or without a body.
    pub open spec fn on_setback(self, shared: FetchState, now_ms: u64, blocked: bool) -> FetchStep {
        if self.may_retry() {
            FetchStep {
                run: FetchRun {
                    phase: if blocked {
                        FetchPhase::BlockedRetry
                    } else {
                        FetchPhase::FailedRetry
                    },
                    ..self
                },
                shared: self.released(shared, now_ms),
                action: if blocked {
                    FetchAction::BackOff {
                        secs: block_backoff_secs(self.attempt) as u64,
                        cause: FetchError::SoftBlock,
                    }
                } else {
                    FetchAction::BackOff {
                        secs: failure_backoff_secs(self.attempt) as u64,
                        cause: FetchError::NetworkFailure,
                    }
                },
            }
        } else {
            FetchStep {
                run: FetchRun { phase: FetchPhase::Exhausted, ..self },
                shared: self.released(shared, now_ms),
                action: FetchAction::Fail(FetchError::RetriesExhausted),
            }
        }
    }

    /// What a step comes to: the fetch and its fetcher after `event`, and what
    /// the caller is to do.
    pub open spec fn next(self, shared: FetchState, event: FetchEvent) -> FetchStep {
        match event {
            FetchEvent::Ready { now_ms, nanos } => if self.awaits_admission() {
                self.on_ready(shared, now_ms, nanos)
            } else {
                FetchStep { run: self, shared, action: FetchAction::Ignore }
            },
            FetchEvent::Waited { now_ms } => if self.phase == FetchPhase::Delaying {
                if now_ms >= self.due_ms {
                    FetchStep {
                        run: FetchRun { phase: FetchPhase::Requesting, ..self },
                        shared,
                        action: FetchAction::Send,
                    }
                } else {
                    FetchStep {
                        run: self,
                        shared,
                        action: FetchAction::Delay { ms: (self.due_ms - now_ms) as u64 },
                    }
                }
            } else {
                FetchStep { run: self, shared, action: FetchAction::Ignore }
            },
            FetchEvent::Responded { body, now_ms } => if self.phase == FetchPhase::Requesting {
                if is_block_notice(body@) {
                    self.on_setback(shared, now_ms, true)
                } else {
                    FetchStep {
                        run: FetchRun { phase: FetchPhase::Success, ..self },
                        shared: self.released(shared, now_ms),
                        action: FetchAction::Deliver,
                    }
                }
            } else {
                FetchStep { run: self, shared, action: FetchAction::Ignore }
            },
            FetchEvent::Failed { now_ms } => if self.phase == FetchPhase::Requesting {
                self.on_setback(shared, now_ms, false)
            } else {
                FetchStep { run: self, shared, action: FetchAction::Ignore }
            },
            FetchEvent::Abandoned { now_ms } => if self.is_terminal() {
                FetchStep { run: self, shared, action: FetchAction::Ignore }
            } else {
                FetchStep {
                    run: FetchRun { phase: FetchPhase::Exhausted, ..self },
                    shared: if self.phase == FetchPhase::Requesting {
                        self.released(shared, now_ms)
                    } else if self.phase == FetchPhase::Delaying {
                        FetchState { busy: false, ..shared }
                    } else {
                        shared
                    },
                    action: FetchAction::Ignore,
                }
            },
        }
    }

    /// A fetch that has not begun and may make `max_attempts` attempts.
    pub fn new(max_attempts: u32) -> (run: FetchRun)
        ensures
            run == (FetchRun { phase: FetchPhase::Idle, attempt: 0, max_attempts, due_ms: 0 }),
    {
        FetchRun { phase: FetchPhase::Idle, attempt: 0, max_attempts, due_ms: 0 }
    }

    /// Frees the fetcher and notes when the request of this fetch ended.
    fn release(&self, shared: &mut FetchState, now_ms: u64)
        ensures
            *final(shared) == self.released(*old(shared), now_ms),
    {
        let ended = if now_ms >= self.due_ms {
            now_ms
        } else {
            self.due_ms
        };
        shared.record_completion(ended);
        shared.busy = false;
    }

    /// Takes in that the request ended with a block notice or without a
    /// body.
    fn setback(&mut self, shared: &mut FetchState, now_ms: u64, blocked: bool) -> (action:
        FetchAction)
        ensures
            *final(self) == old(self).on_setback(*old(shared), now_ms, blocked).run,
            *final(shared) == old(self).on_setback(*old(shared), now_ms, blocked).shared,
            action == old(self).on_setback(*old(shared), now_ms, blocked).action,
    {
        self.release(shared, now_ms);
        if self.attempt < u32::MAX && self.attempt + 1 < self.max_attempts {
            if blocked {
                self.phase = FetchPhase::BlockedRetry;
                FetchAction::BackOff {
                    secs: block_backoff(self.attempt),
                    cause: FetchError::SoftBlock,
                }
            } else {
                self.phase = FetchPhase::FailedRetry;
                FetchAction::BackOff {
                    secs: 1 + self.attempt as u64,
                    cause: FetchError::NetworkFailure,
                }
            }
        } else {
            self.phase = FetchPhase::Exhausted;
            FetchAction::Fail(FetchError::RetriesExhausted)
        }
    }

    /// Takes in what happened and says what to do next. `shared` is the state
    /// of the fetcher that the fetch goes through.
    pub fn step(&mut self, shared: &mut FetchState, event: FetchEvent) -> (action: FetchAction)
        ensures
            *final(self) == old(self).next(*old(shared), event).run,
            *final(shared) == old(self).next(*old(shared), event).shared,
            action == old(self).next(*old(shared), event).action,
    {
        match event {
            FetchEvent::Ready { now_ms, nanos } => {
                let waiting = match self.phase {
                    FetchPhase::Idle | FetchPhase::BlockedRetry | FetchPhase::FailedRetry => true,
                    _ => false,
                };
                if !waiting {
                    FetchAction::Ignore
                } else if self.max_attempts == 0 {
                    self.phase = FetchPhase::Exhausted;
                    FetchAction::Fail(FetchError::RetriesExhausted)
                } else if shared.busy {
                    FetchAction::Queue { ms: QUEUE_POLL_MS }
                } else {
                    let due = shared.send_at(now_ms, nanos);
                    let retried = match self.phase {
                        FetchPhase::Idle => false,
                        _ => true,
                    };
                    if retried && self.attempt < u32::MAX {
                        self.attempt = self.attempt + 1;
                    }
                    self.phase = FetchPhase::Delaying;
                    self.due_ms = due;
                    shared.busy = true;
                    FetchAction::Delay { ms: due - now_ms }
                }
            },
            FetchEvent::Waited { now_ms } => {
                match self.phase {
                    FetchPhase::Delaying => {
                        if now_ms >= self.due_ms {
                            self.phase = FetchPhase::Requesting;
                            FetchAction::Send
                        } else {
                            FetchAction::Delay { ms: self.due_ms - now_ms }
                        }
                    },
                    _ => FetchAction::Ignore,
                }
            },
            FetchEvent::Responded { body, now_ms } => {
                match self.phase {
                    FetchPhase::Requesting => {
                        if is_soft_block(body) {
                            self.setback(shared, now_ms, true)
                        } else {
                            self.release(shared, now_ms);
                            self.phase = FetchPhase::Success;
                            FetchAction::Deliver
                        }
                    },
                    _ => FetchAction::Ignore,
                }
            },
            FetchEvent::Failed { now_ms } => {
                match self.phase {
                    FetchPhase::Requesting => self.setback(shared, now_ms, false),
                    _ => FetchAction::Ignore,
                }
            },
            FetchEvent::Abandoned { now_ms } => {
                match self.phase {
                    FetchPhase::Success | FetchPhase::Exhausted => {},
                    FetchPhase::Requesting => {
                        self.release(shared, now_ms);
                        self.phase = FetchPhase::Exhausted;
                    },
                    FetchPhase::Delaying => {
                        shared.busy = false;
                        self.phase = FetchPhase::Exhausted;
                    },
                    _ => {
                        self.phase = FetchPhase::Exhausted;
                    },
                }
                FetchAction::Ignore
            },
        }
    }
}

/// Whether the fetches that go through one fetcher agree with its state: the
/// fetcher is busy exactly when one of them holds it, no two of them hold it,
/// and the one that holds it may not send its request before
/// [`MIN_DELAY_MS`] have passed since the last request ended (or the clock
/// has reached the largest time that it can show).
pub open spec fn fetches_agree(runs: Seq<FetchRun>, shared: FetchState) -> bool {
    &&& shared.busy <==> exists|i: int| 0 <= i < runs.len() && (#[trigger] runs[i]).holds_fetcher()
    &&& forall|i: int, j: int|
        0 <= i < runs.len() && 0 <= j < runs.len() && (#[trigger] runs[i]).holds_fetcher() && (
        #[trigger] runs[j]).holds_fetcher() ==> i == j
    &&& forall|i: int|
        0 <= i < runs.len() && (#[trigger] runs[i]).holds_fetcher() ==> runs[i].due_ms
            >= shared.last_completed_ms + MIN_DELAY_MS || runs[i].due_ms == u64::MAX
}

/// Fetches that have not begun agree with a fetcher that is free.
pub proof fn lemma_new_fetches_agree(runs: Seq<FetchRun>, shared: FetchState)
    requires
        !shared.busy,
        forall|i: int| 0 <= i < runs.len() ==> (#[trigger] runs[i]).phase == FetchPhase::Idle,
    ensures
        fetches_agree(runs, shared),
{
}

/// Whatever happens to whichever fetch, the fetches that go through one
/// fetcher go on agreeing with its state; and whenever a request ends, it
/// ends at least [`MIN_DELAY_MS`] after the request that ended before it (or
/// the clock has reached the largest time that it can show). So no two
/// requests of one fetcher are under way at once, and none ends within
/// [`MIN_DELAY_MS`] of another.
pub proof fn lemma_requests_end_apart(
    runs: Seq<FetchRun>,
    shared: FetchState,
    k: int,
    event: FetchEvent,
)
    requires
        fetches_agree(runs, shared),
        0 <= k < runs.len(),
    ensures
        fetches_agree(runs.update(k, runs[k].next(shared, event).run), runs[k].next(shared, event).shared),
        runs[k].next(shared, event).shared.last_completed_ms == shared.last_completed_ms
            || runs[k].next(shared, event).shared.last_completed_ms >= shared.last_completed_ms
            + MIN_DELAY_MS || runs[k].next(shared, event).shared.last_completed_ms == u64::MAX,
        runs[k].next(shared, event).action == FetchAction::Send ==> forall|i: int|
            0 <= i < runs.len() && i != k ==> (#[trigger] runs[i]).phase != FetchPhase::Requesting,
{
    let step = runs[k].next(shared, event);
    let after = runs.update(k, step.run);
    assert(runs[k].holds_fetcher() ==> shared.busy);
    if step.run.holds_fetcher() {
        assert(after[k].holds_fetcher());
    }
    if step.shared.busy {
        if runs[k].holds_fetcher() {
            assert(after[k].holds_fetcher());
        } else if shared.busy {
            let h = choose|i: int| 0 <= i < runs.len() && (#[trigger] runs[i]).holds_fetcher();
            assert(h != k);
            assert(after[h].holds_fetcher());
        } else {
            assert(after[k].holds_fetcher());
        }
    }
    assert forall|i: int| 0 <= i < after.len() && (#[trigger] after[i]).holds_fetcher() implies
        after[i].due_ms >= step.shared.last_completed_ms + MIN_DELAY_MS || after[i].due_ms
        == u64::MAX by {
        if i != k {
            assert(runs[i].holds_fetcher());
        }
    }
    assert forall|i: int, j: int|
        0 <= i < after.len() && 0 <= j < after.len() && (#[trigger] after[i]).holds_fetcher() && (
        #[trigger] after[j]).holds_fetcher() implies i == j by {
        if i != k {
            assert(runs[i].holds_fetcher());
        }
        if j != k {
            assert(runs[j].holds_fetcher());
        }
    }
}

/// A fetch that is over stays as it is: whatever happens, nothing is asked of
/// the caller and the fetcher's state is kept.
pub proof fn lemma_terminal_phases_are_final(run: FetchRun, shared: FetchState, event: FetchEvent)
    requires
        run.is_terminal(),
    ensures
        run.next(shared, event).run == run,
        run.next(shared, event).shared == shared,
        run.next(shared, event).action == FetchAction::Ignore,
{
}

/// A fetch never goes on to an attempt that it may not make: while the index
/// of its attempt is below the number allowed, it stays so after any event,
/// and a fetch that stays away to try again has an attempt left.
pub proof fn lemma_attempts_stay_within_limit(run: FetchRun, shared: FetchState, event: FetchEvent)
    requires
        run.attempt < run.max_attempts,
        run.phase == FetchPhase::BlockedRetry || run.phase == FetchPhase::FailedRetry
            ==> run.may_retry(),
    ensures
        run.next(shared, event).run.attempt < run.next(shared, event).run.max_attempts,
        run.next(shared, event).run.max_attempts == run.max_attempts,
        run.next(shared, event).run.phase == FetchPhase::BlockedRetry || run.next(
            shared,
            event,
        ).run.phase == FetchPhase::FailedRetry ==> run.next(shared, event).run.may_retry(),
{
}

} // verus!
