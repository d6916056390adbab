//! When to dial, when to wait and when to give up. The connection itself is
//! the caller's business: it performs each action and reports what came of it.

use crate::error::ClientError;
use vstd::prelude::*;

verus! {

/// How long a client that retries waits after a failed dial, in milliseconds.
pub const RETRY_DELAY_MS: u64 = 1000;

/// How much patience a client has with a node that does not answer.
#[derive(Clone, Copy, Debug, PartialEq, Eq, Structural)]
pub enum RetryPolicy {
    /// One dial; its failure is final.
    Once,
    /// Up to `max_attempts` dials, with a wait of `delay_ms` after each failure.
    Bounded { max_attempts: usize, delay_ms: u64 },
}

/// Where a client stands in establishing its connection. Attempts are
/// numbered from zero.
#[derive(Clone, Copy, Debug, PartialEq, Eq, Structural)]
pub enum Phase {
    /// The TLS context is yet to be built; nothing was dialled.
    Preparing,
    /// Attempt number `attempt` is under way.
    Dialing { attempt: usize },
    /// Attempt number `attempt` failed, and the wait that follows it is not over.
    Waiting { attempt: usize, millis: u64 },
    /// The channel is up.
    Connected,
    /// The only attempt failed.
    Refused,
    /// The credentials could not be used.
    Rejected,
    /// Every permitted attempt failed.
    Exhausted,
}

/// What the caller reports back.
#[derive(Clone, Copy, Debug, PartialEq, Eq, Structural)]
pub enum Event {
    /// The TLS context was built from the PEM material.
    Prepared,
    /// The TLS context could not be built from the PEM material.
    CredentialsRejected,
    /// The dial and the handshake succeeded.
    Connected,
    /// The dial or the handshake failed.
    DialFailed,
    /// The wait is over.
    SleepDone,
}

/// What the caller is asked to do next.
#[derive(Debug, PartialEq, Eq)]
pub enum Action {
    /// Build the TLS context from the credentials.
    Prepare,
    /// Dial the target and shake hands.
    Dial,
    /// Wait for `millis` milliseconds; `attempt` is the attempt that failed.
    Sleep { millis: u64, attempt: usize },
    /// Nothing: the channel is up and requests can be sent.
    Ready,
    /// Nothing more: the connection could not be established.
    Fail(ClientError),
}

/// Whether `policy` permits no dial at all.
pub open spec fn permits_nothing(policy: RetryPolicy) -> bool {
    policy matches RetryPolicy::Bounded { max_attempts, .. } && max_attempts == 0
}

/// The phase in which a client starts.
pub open spec fn first_phase(policy: RetryPolicy) -> Phase {
    if permits_nothing(policy) {
        Phase::Exhausted
    } else {
        Phase::Preparing
    }
}

/// The phase that follows `phase` when the caller reports `event`. A report
/// that the phase does not wait for changes nothing.
pub open spec fn next_phase(policy: RetryPolicy, phase: Phase, event: Event) -> Phase {
    match (phase, event) {
        (Phase::Preparing, Event::Prepared) => if permits_nothing(policy) {
            Phase::Exhausted
        } else {
            Phase::Dialing { attempt: 0 }
        },
        (Phase::Preparing, Event::CredentialsRejected) => Phase::Rejected,
        (Phase::Dialing { .. }, Event::Connected) => Phase::Connected,
        (Phase::Dialing { attempt }, Event::DialFailed) => match policy {
            RetryPolicy::Once => Phase::Refused,
            RetryPolicy::Bounded { delay_ms, .. } => Phase::Waiting { attempt, millis: delay_ms },
        },
        (Phase::Waiting { attempt, .. }, Event::SleepDone) => match policy {
            RetryPolicy::Bounded { max_attempts, .. } if attempt + 1 < max_attempts => Phase::Dialing {
                attempt: (attempt + 1) as usize,
            },
            _ => Phase::Exhausted,
        },
        _ => phase,
    }
}

/// What a client in `phase` asks of its caller.
pub open spec fn pending_action(phase: Phase) -> Action {
    match phase {
        Phase::Preparing => Action::Prepare,
        Phase::Dialing { .. } => Action::Dial,
        Phase::Waiting { attempt, millis } => Action::Sleep { millis, attempt },
        Phase::Connected => Action::Ready,
        Phase::Refused => Action::Fail(ClientError::Connection),
        Phase::Rejected => Action::Fail(ClientError::Credential),
        Phase::Exhausted => Action::Fail(ClientError::ExhaustedRetries),
    }
}

/// Whether `phase` asks for nothing more.
pub open spec fn is_settled(phase: Phase) -> bool {
    match phase {
        Phase::Preparing | Phase::Dialing { .. } | Phase::Waiting { .. } => false,
        _ => true,
    }
}

impl RetryPolicy {
    /// The phase in which a client with this policy starts.
    pub fn first(self) -> (phase: Phase)
        ensures
            phase == first_phase(self),
    {
        match self {
            RetryPolicy::Bounded { max_attempts: 0, .. } => Phase::Exhausted,
            _ => Phase::Preparing,
        }
    }

    /// The phase that follows `phase` when the caller reports `event`.
    pub fn next(self, phase: Phase, event: Event) -> (after: Phase)
        ensures
            after == next_phase(self, phase, event),
    {
        match phase {
            Phase::Preparing => match event {
                Event::Prepared => match self {
                    RetryPolicy::Bounded { max_attempts: 0, .. } => Phase::Exhausted,
                    _ => Phase::Dialing { attempt: 0 },
                },
                Event::CredentialsRejected => Phase::Rejected,
                _ => phase,
            },
            Phase::Dialing { attempt } => match event {
                Event::Connected => Phase::Connected,
                Event::DialFailed => match self {
                    RetryPolicy::Once => Phase::Refused,
                    RetryPolicy::Bounded { delay_ms, .. } => Phase::Waiting {
                        attempt,
                        millis: delay_ms,
                    },
                },
                _ => phase,
            },
            Phase::Waiting { attempt, .. } => match event {
                Event::SleepDone => match self {
                    RetryPolicy::Once => Phase::Exhausted,
                    RetryPolicy::Bounded { max_attempts, .. } => {
                        if attempt < max_attempts && max_attempts - attempt > 1 {
                            Phase::Dialing { attempt: attempt + 1 }
                        } else {
                            Phase::Exhausted
                        }
                    },
                },
                _ => phase,
            },
            _ => phase,
        }
    }
}

impl Phase {
    /// What a client in this phase asks of its caller.
    pub fn pending(self) -> (action: Action)
        ensures
            action == pending_action(self),
    {
        match self {
            Phase::Preparing => Action::Prepare,
            Phase::Dialing { .. } => Action::Dial,
            Phase::Waiting { attempt, millis } => Action::Sleep { millis, attempt },
            Phase::Connected => Action::Ready,
            Phase::Refused => Action::Fail(ClientError::Connection),
            Phase::Rejected => Action::Fail(ClientError::Credential),
            Phase::Exhausted => Action::Fail(ClientError::ExhaustedRetries),
        }
    }
}

/// Whether `phase` is one that a client with `policy` can be in: no attempt
/// is numbered beyond those that the policy permits, and a wait lasts as long
/// as the policy says.
pub open spec fn within_policy(policy: RetryPolicy, phase: Phase) -> bool {
    match (policy, phase) {
        (RetryPolicy::Once, Phase::Dialing { attempt }) => attempt == 0,
        (RetryPolicy::Once, Phase::Waiting { .. }) => false,
        (RetryPolicy::Once, Phase::Exhausted) => false,
        (RetryPolicy::Bounded { max_attempts, .. }, Phase::Preparing) => 0 < max_attempts,
        (RetryPolicy::Bounded { max_attempts, .. }, Phase::Dialing { attempt }) => attempt
            < max_attempts,
        (RetryPolicy::Bounded { max_attempts, delay_ms }, Phase::Waiting { attempt, millis }) => {
            attempt < max_attempts && millis == delay_ms
        },
        (RetryPolicy::Bounded { .. }, Phase::Refused) => false,
        _ => true,
    }
}

/// A client starts within its policy and no report takes it out of it.
pub proof fn lemma_stays_within_policy(policy: RetryPolicy, phase: Phase, event: Event)
    ensures
        within_policy(policy, first_phase(policy)),
        within_policy(policy, phase) ==> within_policy(policy, next_phase(policy, phase, event)),
{
}

/// A settled client stays as it is, whatever is reported to it.
pub proof fn lemma_settled_is_final(policy: RetryPolicy, phase: Phase, event: Event)
    requires
        is_settled(phase),
    ensures
        next_phase(policy, phase, event) == phase,
{
}

/// What a caller has done by the time its client asks for nothing more.
pub ghost struct Run {
    /// How many times it dialled.
    pub dials: nat,
    /// How many times it waited.
    pub sleeps: nat,
    /// For how many milliseconds it waited in all.
    pub waited_ms: nat,
    /// The phase in which it stopped.
    pub end: Phase,
}

/// A run in which nothing was done.
pub open spec fn idle(end: Phase) -> Run {
    Run { dials: 0, sleeps: 0, waited_ms: 0, end }
}

/// The run of a caller that starts in `phase` and does what its client asks.
/// Its credentials are fit for a TLS context if `usable` says so, and its
/// dials go as `outcomes` says, `true` for a dial that connects. The run
/// stops when the client is settled, or at a dial for which `outcomes` has
/// no entry left.
pub open spec fn run(policy: RetryPolicy, phase: Phase, usable: bool, outcomes: Seq<bool>) -> Run
    decreases outcomes.len(), rank(phase),
{
    match phase {
        Phase::Preparing => {
            let event = if usable {
                Event::Prepared
            } else {
                Event::CredentialsRejected
            };
            run(policy, next_phase(policy, phase, event), usable, outcomes)
        },
        Phase::Dialing { .. } => {
            if outcomes.len() == 0 {
                idle(phase)
            } else {
                let event = if outcomes[0] {
                    Event::Connected
                } else {
                    Event::DialFailed
                };
                let rest = run(
                    policy,
                    next_phase(policy, phase, event),
                    usable,
                    outcomes.drop_first(),
                );
                Run { dials: rest.dials + 1, ..rest }
            }
        },
        Phase::Waiting { millis, .. } => {
            let rest = run(policy, next_phase(policy, phase, Event::SleepDone), usable, outcomes);
            Run { sleeps: rest.sleeps + 1, waited_ms: rest.waited_ms + millis as nat, ..rest }
        },
        _ => idle(phase),
    }
}

/// How far a phase is from the next dial, for `run` to be seen to end.
pub open spec fn rank(phase: Phase) -> nat {
    match phase {
        Phase::Preparing | Phase::Waiting { .. } => 1,
        _ => 0,
    }
}

proof fn lemma_run_all_fail(max_attempts: usize, delay_ms: u64, attempt: usize, outcomes: Seq<bool>)
    requires
        attempt < max_attempts,
        outcomes.len() >= max_attempts - attempt,
        forall|i: int| 0 <= i < max_attempts - attempt ==> !outcomes[i],
    ensures
        run(
            RetryPolicy::Bounded { max_attempts, delay_ms },
            Phase::Dialing { attempt },
            true,
            outcomes,
        ) == (Run {
            dials: (max_attempts - attempt) as nat,
            sleeps: (max_attempts - attempt) as nat,
            waited_ms: ((max_attempts - attempt) * delay_ms) as nat,
            end: Phase::Exhausted,
        }),
    decreases max_attempts - attempt,
{
    let policy = RetryPolicy::Bounded { max_attempts, delay_ms };
    let left = max_attempts - attempt;
    let rest = outcomes.drop_first();
    let waiting = Phase::Waiting { attempt, millis: delay_ms };
    let after = next_phase(policy, waiting, Event::SleepDone);
    let tail = run(policy, after, true, rest);
    assert(!outcomes[0]);
    assert(next_phase(policy, Phase::Dialing { attempt }, Event::DialFailed) == waiting);
    assert(run(policy, waiting, true, rest) == (Run {
        sleeps: tail.sleeps + 1,
        waited_ms: tail.waited_ms + delay_ms as nat,
        ..tail
    }));
    assert(run(policy, Phase::Dialing { attempt }, true, outcomes) == (Run {
        dials: tail.dials + 1,
        sleeps: tail.sleeps + 1,
        waited_ms: tail.waited_ms + delay_ms as nat,
        end: tail.end,
    }));
    assert(left * delay_ms == (left - 1) * delay_ms + delay_ms) by (nonlinear_arith);
    if attempt + 1 < max_attempts {
        assert(after == Phase::Dialing { attempt: (attempt + 1) as usize });
        assert forall|i: int| 0 <= i < left - 1 implies !rest[i] by {
            assert(rest[i] == outcomes[i + 1]);
        }
        lemma_run_all_fail(max_attempts, delay_ms, (attempt + 1) as usize, rest);
    } else {
        assert(after == Phase::Exhausted);
        assert(tail == idle(Phase::Exhausted));
        assert((left - 1) * delay_ms == 0) by (nonlinear_arith)
            requires
                left == 1,
        ;
    }
}

proof fn lemma_run_first_success(
    max_attempts: usize,
    delay_ms: u64,
    attempt: usize,
    outcomes: Seq<bool>,
    k: nat,
)
    requires
        attempt + k < max_attempts,
        k < outcomes.len(),
        forall|i: int| 0 <= i < k ==> !outcomes[i],
        outcomes[k as int],
    ensures
        run(
            RetryPolicy::Bounded { max_attempts, delay_ms },
            Phase::Dialing { attempt },
            true,
            outcomes,
        ) == (Run {
            dials: k + 1,
            sleeps: k,
            waited_ms: (k * delay_ms) as nat,
            end: Phase::Connected,
        }),
    decreases k,
{
    let policy = RetryPolicy::Bounded { max_attempts, delay_ms };
    let rest = outcomes.drop_first();
    if k > 0 {
        let waiting = Phase::Waiting { attempt, millis: delay_ms };
        let after = Phase::Dialing { attempt: (attempt + 1) as usize };
        let tail = run(policy, after, true, rest);
        assert(!outcomes[0]);
        assert(next_phase(policy, Phase::Dialing { attempt }, Event::DialFailed) == waiting);
        assert(next_phase(policy, waiting, Event::SleepDone) == after);
        assert(run(policy, waiting, true, rest) == (Run {
            sleeps: tail.sleeps + 1,
            waited_ms: tail.waited_ms + delay_ms as nat,
            ..tail
        }));
        assert(run(policy, Phase::Dialing { attempt }, true, outcomes) == (Run {
            dials: tail.dials + 1,
            sleeps: tail.sleeps + 1,
            waited_ms: tail.waited_ms + delay_ms as nat,
            end: tail.end,
        }));
        assert(k * delay_ms == (k - 1) * delay_ms + delay_ms) by (nonlinear_arith);
        assert forall|i: int| 0 <= i < k - 1 implies !rest[i] by {
            assert(rest[i] == outcomes[i + 1]);
        }
        assert(rest[k - 1] == outcomes[k as int]);
        lemma_run_first_success(max_attempts, delay_ms, (attempt + 1) as usize, rest, (k - 1) as nat);
    } else {
        assert(next_phase(policy, Phase::Dialing { attempt }, Event::Connected) == Phase::Connected);
        assert(run(policy, Phase::Connected, true, rest) == idle(Phase::Connected));
        assert(k * delay_ms == 0) by (nonlinear_arith)
            requires
                k == 0,
        ;
    }
}

/// A client that may try `max_attempts` times and finds every dial to fail
/// dials exactly `max_attempts` times, waits the set delay after each
/// failure, the last one too, and ends with its retries exhausted.
pub proof fn lemma_all_fail_exhausts(max_attempts: usize, delay_ms: u64, outcomes: Seq<bool>)
    requires
        outcomes.len() >= max_attempts,
        forall|i: int| 0 <= i < max_attempts ==> !outcomes[i],
    ensures
        ({
            let policy = RetryPolicy::Bounded { max_attempts, delay_ms };
            run(policy, first_phase(policy), true, outcomes) == (Run {
                dials: max_attempts as nat,
                sleeps: max_attempts as nat,
                waited_ms: (max_attempts * delay_ms) as nat,
                end: Phase::Exhausted,
            })
        }),
        pending_action(Phase::Exhausted) == Action::Fail(ClientError::ExhaustedRetries),
{
    let policy = RetryPolicy::Bounded { max_attempts, delay_ms };
    if max_attempts > 0 {
        assert(next_phase(policy, Phase::Preparing, Event::Prepared) == Phase::Dialing {
            attempt: 0,
        });
        assert(run(policy, Phase::Preparing, true, outcomes) == run(
            policy,
            Phase::Dialing { attempt: 0 },
            true,
            outcomes,
        ));
        lemma_run_all_fail(max_attempts, delay_ms, 0, outcomes);
    } else {
        assert(max_attempts * delay_ms == 0) by (nonlinear_arith)
            requires
                max_attempts == 0,
        ;
    }
}

/// A client whose first `k` dials fail and whose next one connects, with
/// `k` less than the attempts it may make, dials exactly `k + 1` times,
/// waits the set delay after each failure, and ends connected.
pub proof fn lemma_first_success_connects(
    max_attempts: usize,
    delay_ms: u64,
    outcomes: Seq<bool>,
    k: nat,
)
    requires
        k < max_attempts,
        k < outcomes.len(),
        forall|i: int| 0 <= i < k ==> !outcomes[i],
        outcomes[k as int],
    ensures
        ({
            let policy = RetryPolicy::Bounded { max_attempts, delay_ms };
            run(policy, first_phase(policy), true, outcomes) == (Run {
                dials: k + 1,
                sleeps: k,
                waited_ms: (k * delay_ms) as nat,
                end: Phase::Connected,
            })
        }),
        pending_action(Phase::Connected) == Action::Ready,
{
    let policy = RetryPolicy::Bounded { max_attempts, delay_ms };
    assert(next_phase(policy, Phase::Preparing, Event::Prepared) == Phase::Dialing { attempt: 0 });
    assert(run(policy, Phase::Preparing, true, outcomes) == run(
        policy,
        Phase::Dialing { attempt: 0 },
        true,
        outcomes,
    ));
    lemma_run_first_success(max_attempts, delay_ms, 0, outcomes, k);
}

/// A client that tries once dials once and never waits: it ends connected
/// if the dial connects, and refused if not.
pub proof fn lemma_once_dials_once(outcomes: Seq<bool>)
    requires
        outcomes.len() >= 1,
    ensures
        run(RetryPolicy::Once, first_phase(RetryPolicy::Once), true, outcomes) == (Run {
            dials: 1,
            sleeps: 0,
            waited_ms: 0,
            end: if outcomes[0] {
                Phase::Connected
            } else {
                Phase::Refused
            },
        }),
        pending_action(Phase::Refused) == Action::Fail(ClientError::Connection),
{
    reveal_with_fuel(run, 3);
}

/// A client whose credentials are unfit never dials and never waits: it
/// ends with them rejected, unless its policy let it do nothing to begin
/// with.
pub proof fn lemma_unfit_credentials_stop(policy: RetryPolicy, outcomes: Seq<bool>)
    ensures
        run(policy, first_phase(policy), false, outcomes) == idle(
            if permits_nothing(policy) {
                Phase::Exhausted
            } else {
                Phase::Rejected
            },
        ),
        pending_action(Phase::Rejected) == Action::Fail(ClientError::Credential),
{
    reveal_with_fuel(run, 2);
}

} // verus!
