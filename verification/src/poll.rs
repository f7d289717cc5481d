//! The polling state machine behind `wait_for_sms_code`.
//!
//! One polling run is modelled as a machine that alternates between asking
//! its driver for work (a cancellation/timeout check, a poll call, a cancel
//! call, a sleep) and consuming the result as an event. The machine itself
//! is pure, so every property of the loop — cancellation beats timeout
//! beats polling, every non-success exit asks for exactly one cancel call,
//! a failed cancel is never reported as an ordinary timeout — is proved
//! here once and holds for any driver.

use vstd::prelude::*;

use crate::config::SmsSolverServiceConfig;
use crate::types::SmsCode;

verus! {

/// Why the machine is asking for a cancel call.
#[derive(Debug, Clone, Copy, PartialEq, Eq, Structural)]
pub enum CancelReason {
    /// The caller raised the cancellation signal.
    CancelRequested,
    /// The configured timeout elapsed.
    TimedOut,
    /// A poll failed with a non-retryable error.
    PermanentFailure { should_retry_operation: bool },
}

/// One poll call's result, as the machine classifies it.
#[derive(Debug, Clone)]
pub enum PollReply {
    /// The code arrived.
    Code { code: SmsCode },
    /// Not received yet; keep polling.
    NotYet,
    /// The poll call failed, with the error's two retryability flags.
    Failed { is_retryable: bool, should_retry_operation: bool },
}

/// What the driver reports back to the machine.
#[derive(Debug, Clone)]
pub enum PollEvent {
    /// The cancellation flag and the elapsed wall-clock time, read together
    /// at the top of an iteration.
    Check { cancelled: bool, elapsed_ms: u64 },
    /// A poll call returned.
    PollReturned { reply: PollReply },
    /// A cancel call returned (`ok` false means the cancel itself failed).
    CancelReturned { ok: bool },
    /// The inter-poll sleep finished.
    Slept,
}

/// The terminal result of one polling run.
#[derive(Debug, Clone)]
pub enum PollOutcome {
    /// A code arrived.
    Success { code: SmsCode },
    /// The caller cancelled, and the rented number was released.
    Cancelled,
    /// The timeout elapsed, and the rented number was released.
    TimedOut,
    /// A poll failed permanently, and the rented number was released.
    ProviderFailure { should_retry_operation: bool },
    /// The cancel call issued on the way out failed itself; the reason that
    /// triggered it is preserved so it is never mistaken for clean exit.
    CancelFailed { reason: CancelReason },
}

/// What the machine is waiting for.
#[derive(Debug, Clone)]
pub enum PollPhase {
    /// Owed a `Check` event: the cancellation/timeout check that starts
    /// every iteration.
    Checking,
    /// Owed a `PollReturned` event for the poll call just requested.
    AwaitingPoll,
    /// Owed a `CancelReturned` event for the cancel call just requested.
    AwaitingCancel { reason: CancelReason },
    /// Owed a `Slept` event for the inter-poll pause.
    AwaitingSleep,
    /// The run is over.
    Finished { outcome: PollOutcome },
}

/// The state of one polling run.
#[derive(Debug, Clone)]
pub struct PollMachine {
    /// The timeout / poll-interval pair this run uses.
    pub config: SmsSolverServiceConfig,
    /// What the machine is waiting for.
    pub phase: PollPhase,
    /// Poll calls requested so far (saturating).
    pub poll_count: u32,
    /// Cancel calls requested so far.
    pub cancel_calls: u32,
    /// The elapsed time most recently reported by a `Check` event.
    pub elapsed_ms: u64,
}

/// The machine at the start of a run.
pub open spec fn initial_machine(config: SmsSolverServiceConfig) -> PollMachine {
    PollMachine {
        config,
        phase: PollPhase::Checking,
        poll_count: 0,
        cancel_calls: 0,
        elapsed_ms: 0,
    }
}

/// `n + 1`, stopping at the largest `u32`.
pub open spec fn saturating_inc(n: u32) -> u32 {
    if n == u32::MAX {
        n
    } else {
        (n + 1) as u32
    }
}

/// The machine's transition function. An event that does not answer the
/// phase's question leaves the machine unchanged.
pub open spec fn step_spec(m: PollMachine, event: PollEvent) -> PollMachine {
    match (m.phase, event) {
        (PollPhase::Checking, PollEvent::Check { cancelled, elapsed_ms }) => {
            if cancelled {
                PollMachine {
                    phase: PollPhase::AwaitingCancel { reason: CancelReason::CancelRequested },
                    cancel_calls: saturating_inc(m.cancel_calls),
                    elapsed_ms,
                    ..m
                }
            } else if elapsed_ms >= m.config.timeout_ms {
                PollMachine {
                    phase: PollPhase::AwaitingCancel { reason: CancelReason::TimedOut },
                    cancel_calls: saturating_inc(m.cancel_calls),
                    elapsed_ms,
                    ..m
                }
            } else {
                PollMachine {
                    phase: PollPhase::AwaitingPoll,
                    poll_count: saturating_inc(m.poll_count),
                    elapsed_ms,
                    ..m
                }
            }
        },
        (PollPhase::AwaitingPoll, PollEvent::PollReturned { reply }) => {
            match reply {
                PollReply::Code { code } => PollMachine {
                    phase: PollPhase::Finished { outcome: PollOutcome::Success { code } },
                    ..m
                },
                PollReply::NotYet => PollMachine { phase: PollPhase::AwaitingSleep, ..m },
                PollReply::Failed { is_retryable, should_retry_operation } => {
                    if is_retryable {
                        // transient: stay in the loop, the wall clock bounds it
                        PollMachine { phase: PollPhase::AwaitingSleep, ..m }
                    } else {
                        PollMachine {
                            phase: PollPhase::AwaitingCancel {
                                reason: CancelReason::PermanentFailure { should_retry_operation },
                            },
                            cancel_calls: saturating_inc(m.cancel_calls),
                            ..m
                        }
                    }
                },
            }
        },
        (PollPhase::AwaitingCancel { reason }, PollEvent::CancelReturned { ok }) => {
            if ok {
                let outcome = match reason {
                    CancelReason::CancelRequested => PollOutcome::Cancelled,
                    CancelReason::TimedOut => PollOutcome::TimedOut,
                    CancelReason::PermanentFailure { should_retry_operation } =>
                        PollOutcome::ProviderFailure { should_retry_operation },
                };
                PollMachine { phase: PollPhase::Finished { outcome }, ..m }
            } else {
                PollMachine {
                    phase: PollPhase::Finished { outcome: PollOutcome::CancelFailed { reason } },
                    ..m
                }
            }
        },
        (PollPhase::AwaitingSleep, PollEvent::Slept) => PollMachine {
            phase: PollPhase::Checking,
            ..m
        },
        _ => m,
    }
}

/// The machine after consuming `events` in order.
pub open spec fn run_machine(m0: PollMachine, events: Seq<PollEvent>) -> PollMachine
    decreases events.len(),
{
    if events.len() == 0 {
        m0
    } else {
        step_spec(run_machine(m0, events.drop_last()), events.last())
    }
}

impl PollMachine {
    /// The machine at the start of a run.
    pub fn new(config: SmsSolverServiceConfig) -> (r: Self)
        ensures
            r == initial_machine(config),
    {
        PollMachine {
            config,
            phase: PollPhase::Checking,
            poll_count: 0,
            cancel_calls: 0,
            elapsed_ms: 0,
        }
    }

    /// Consume one event.
    pub fn step(self, event: PollEvent) -> (r: Self)
        ensures
            r == step_spec(self, event),
    {
        match (self.phase, event) {
            (PollPhase::Checking, PollEvent::Check { cancelled, elapsed_ms }) => {
                if cancelled {
                    PollMachine {
                        phase: PollPhase::AwaitingCancel { reason: CancelReason::CancelRequested },
                        cancel_calls: saturating_inc_exec(self.cancel_calls),
                        elapsed_ms,
                        ..self
                    }
                } else if elapsed_ms >= self.config.timeout_ms {
                    PollMachine {
                        phase: PollPhase::AwaitingCancel { reason: CancelReason::TimedOut },
                        cancel_calls: saturating_inc_exec(self.cancel_calls),
                        elapsed_ms,
                        ..self
                    }
                } else {
                    PollMachine {
                        phase: PollPhase::AwaitingPoll,
                        poll_count: saturating_inc_exec(self.poll_count),
                        elapsed_ms,
                        ..self
                    }
                }
            },
            (PollPhase::AwaitingPoll, PollEvent::PollReturned { reply }) => {
                match reply {
                    PollReply::Code { code } => PollMachine {
                        phase: PollPhase::Finished { outcome: PollOutcome::Success { code } },
                        ..self
                    },
                    PollReply::NotYet => PollMachine { phase: PollPhase::AwaitingSleep, ..self },
                    PollReply::Failed { is_retryable, should_retry_operation } => {
                        if is_retryable {
                            PollMachine { phase: PollPhase::AwaitingSleep, ..self }
                        } else {
                            PollMachine {
                                phase: PollPhase::AwaitingCancel {
                                    reason: CancelReason::PermanentFailure {
                                        should_retry_operation,
                                    },
                                },
                                cancel_calls: saturating_inc_exec(self.cancel_calls),
                                ..self
                            }
                        }
                    },
                }
            },
            (PollPhase::AwaitingCancel { reason }, PollEvent::CancelReturned { ok }) => {
                if ok {
                    let outcome = match reason {
                        CancelReason::CancelRequested => PollOutcome::Cancelled,
                        CancelReason::TimedOut => PollOutcome::TimedOut,
                        CancelReason::PermanentFailure { should_retry_operation } =>
                            PollOutcome::ProviderFailure { should_retry_operation },
                    };
                    PollMachine { phase: PollPhase::Finished { outcome }, ..self }
                } else {
                    PollMachine {
                        phase: PollPhase::Finished {
                            outcome: PollOutcome::CancelFailed { reason },
                        },
                        ..self
                    }
                }
            },
            (PollPhase::AwaitingSleep, PollEvent::Slept) => PollMachine {
                phase: PollPhase::Checking,
                ..self
            },
            (phase, _) => PollMachine { phase, ..self },
        }
    }
}

/// `n + 1`, stopping at the largest `u32`.
fn saturating_inc_exec(n: u32) -> (r: u32)
    ensures
        r == saturating_inc(n),
{
    if n == u32::MAX {
        n
    } else {
        n + 1
    }
}

// =========================================================================
// Invariants and laws
// =========================================================================
/// The release discipline: the machine asks for a cancel call exactly when
/// it leaves the polling loop other than with a code, and never more than
/// once. A timeout is only ever reported with the timeout really elapsed.
pub open spec fn machine_inv(m: PollMachine) -> bool {
    &&& match m.phase {
        PollPhase::Checking | PollPhase::AwaitingPoll | PollPhase::AwaitingSleep => m.cancel_calls
            == 0,
        PollPhase::AwaitingCancel { .. } => m.cancel_calls == 1,
        PollPhase::Finished { outcome } => match outcome {
            PollOutcome::Success { .. } => m.cancel_calls == 0,
            _ => m.cancel_calls == 1,
        },
    }
    &&& (m.phase matches PollPhase::AwaitingCancel { reason: CancelReason::TimedOut }
        ==> m.elapsed_ms >= m.config.timeout_ms)
    &&& (m.phase matches PollPhase::Finished { outcome: PollOutcome::TimedOut } ==> m.elapsed_ms
        >= m.config.timeout_ms)
    &&& (m.phase matches PollPhase::Finished {
        outcome: PollOutcome::CancelFailed { reason: CancelReason::TimedOut },
    } ==> m.elapsed_ms >= m.config.timeout_ms)
}

/// One step preserves the release discipline.
pub proof fn lemma_step_preserves_inv(m: PollMachine, event: PollEvent)
    requires
        machine_inv(m),
    ensures
        machine_inv(step_spec(m, event)),
{
}

/// Every reachable state obeys the release discipline. In particular a run
/// that ends in `Cancelled`, `TimedOut`, `ProviderFailure` or `CancelFailed`
/// has asked for exactly one cancel call, a run that ends in `Success` has
/// asked for none, and a run that ends in `TimedOut` saw the timeout truly
/// elapsed.
pub proof fn lemma_run_machine_inv(config: SmsSolverServiceConfig, events: Seq<PollEvent>)
    ensures
        machine_inv(run_machine(initial_machine(config), events)),
    decreases events.len(),
{
    if events.len() == 0 {
    } else {
        lemma_run_machine_inv(config, events.drop_last());
        lemma_step_preserves_inv(run_machine(initial_machine(config), events.drop_last()),
            events.last());
    }
}

/// Extending a run's trace by one event steps the machine once.
pub proof fn lemma_trace_extends(
    m0: PollMachine,
    trace: Seq<PollEvent>,
    m: PollMachine,
    event: PollEvent,
)
    requires
        m == run_machine(m0, trace),
    ensures
        run_machine(m0, trace.push(event)) == step_spec(m, event),
{
    assert(trace.push(event).drop_last() =~= trace);
    assert(trace.push(event).last() == event);
}

/// A run consumes concatenated event sequences one after the other.
pub proof fn lemma_run_machine_append(m0: PollMachine, a: Seq<PollEvent>, b: Seq<PollEvent>)
    ensures
        run_machine(m0, a + b) == run_machine(run_machine(m0, a), b),
    decreases b.len(),
{
    if b.len() == 0 {
        assert(a + b =~= a);
    } else {
        lemma_run_machine_append(m0, a, b.drop_last());
        assert((a + b).drop_last() =~= a + b.drop_last());
        assert((a + b).last() == b.last());
    }
}

/// The configuration never changes during a run.
pub proof fn lemma_run_machine_config(m0: PollMachine, events: Seq<PollEvent>)
    ensures
        run_machine(m0, events).config == m0.config,
    decreases events.len(),
{
    if events.len() > 0 {
        lemma_run_machine_config(m0, events.drop_last());
    }
}

// =========================================================================
// Named rounds of the loop
// =========================================================================
/// One fruitless iteration: the check passes, the poll says "not yet" (or
/// fails with a transient error when `transient_failure` is set), and the
/// machine sleeps.
pub open spec fn fruitless_round(elapsed_ms: u64, transient_failure: bool) -> Seq<PollEvent> {
    seq![
        PollEvent::Check { cancelled: false, elapsed_ms },
        PollEvent::PollReturned {
            reply: if transient_failure {
                PollReply::Failed { is_retryable: true, should_retry_operation: true }
            } else {
                PollReply::NotYet
            },
        },
        PollEvent::Slept,
    ]
}

/// Fruitless iterations at the given elapsed times, in order.
pub open spec fn fruitless_rounds(elapsed: Seq<u64>, transient_failure: bool) -> Seq<PollEvent>
    decreases elapsed.len(),
{
    if elapsed.len() == 0 {
        Seq::empty()
    } else {
        fruitless_rounds(elapsed.drop_last(), transient_failure) + fruitless_round(
            elapsed.last(),
            transient_failure,
        )
    }
}

/// One fruitless iteration within the timeout moves the machine from one
/// check to the next, adding one poll call and touching nothing else.
pub proof fn lemma_fruitless_round(m: PollMachine, elapsed_ms: u64, transient_failure: bool)
    requires
        m.phase == PollPhase::Checking,
        elapsed_ms < m.config.timeout_ms,
    ensures
        run_machine(m, fruitless_round(elapsed_ms, transient_failure)) == (PollMachine {
            phase: PollPhase::Checking,
            poll_count: saturating_inc(m.poll_count),
            elapsed_ms,
            ..m
        }),
{
    reveal_with_fuel(run_machine, 5);
    let r = fruitless_round(elapsed_ms, transient_failure);
    assert(r.drop_last().drop_last().drop_last() =~= Seq::<PollEvent>::empty());
    assert(r.drop_last().drop_last() =~= seq![
        PollEvent::Check { cancelled: false, elapsed_ms },
    ]);
    assert(r.drop_last() =~= seq![
        PollEvent::Check { cancelled: false, elapsed_ms },
        PollEvent::PollReturned {
            reply: if transient_failure {
                PollReply::Failed { is_retryable: true, should_retry_operation: true }
            } else {
                PollReply::NotYet
            },
        },
    ]);
}

/// Any number of fruitless iterations within the timeout leaves the machine
/// checking, having polled once per iteration, with no cancel requested.
pub proof fn lemma_fruitless_rounds(
    config: SmsSolverServiceConfig,
    elapsed: Seq<u64>,
    transient_failure: bool,
)
    requires
        forall|i: int| 0 <= i < elapsed.len() ==> #[trigger] elapsed[i] < config.timeout_ms,
        elapsed.len() < u32::MAX,
    ensures
        run_machine(initial_machine(config), fruitless_rounds(elapsed, transient_failure))
            == (PollMachine {
            config,
            phase: PollPhase::Checking,
            poll_count: elapsed.len() as u32,
            cancel_calls: 0,
            elapsed_ms: if elapsed.len() == 0 {
                0
            } else {
                elapsed.last()
            },
        }),
    decreases elapsed.len(),
{
    if elapsed.len() == 0 {
    } else {
        lemma_fruitless_rounds(config, elapsed.drop_last(), transient_failure);
        lemma_run_machine_append(
            initial_machine(config),
            fruitless_rounds(elapsed.drop_last(), transient_failure),
            fruitless_round(elapsed.last(), transient_failure),
        );
        lemma_fruitless_round(
            run_machine(
                initial_machine(config),
                fruitless_rounds(elapsed.drop_last(), transient_failure),
            ),
            elapsed.last(),
            transient_failure,
        );
    }
}

// =========================================================================
// The laws of the polling loop
// =========================================================================
/// After any number of fruitless polls within the timeout, a poll that
/// returns the code ends the run in `Success`, with one poll per iteration
/// plus the successful one, and no cancel call.
pub proof fn lemma_success_after_fruitless_polls(
    config: SmsSolverServiceConfig,
    elapsed: Seq<u64>,
    final_elapsed_ms: u64,
    code: SmsCode,
)
    requires
        forall|i: int| 0 <= i < elapsed.len() ==> #[trigger] elapsed[i] < config.timeout_ms,
        elapsed.len() + 1 < u32::MAX,
        final_elapsed_ms < config.timeout_ms,
    ensures
        ({
            let events = fruitless_rounds(elapsed, false) + seq![
                PollEvent::Check { cancelled: false, elapsed_ms: final_elapsed_ms },
                PollEvent::PollReturned { reply: PollReply::Code { code } },
            ];
            run_machine(initial_machine(config), events) == (PollMachine {
                config,
                phase: PollPhase::Finished { outcome: PollOutcome::Success { code } },
                poll_count: (elapsed.len() + 1) as u32,
                cancel_calls: 0,
                elapsed_ms: final_elapsed_ms,
            })
        }),
{
    reveal_with_fuel(run_machine, 4);
    let tail = seq![
        PollEvent::Check { cancelled: false, elapsed_ms: final_elapsed_ms },
        PollEvent::PollReturned { reply: PollReply::Code { code } },
    ];
    lemma_fruitless_rounds(config, elapsed, false);
    lemma_run_machine_append(
        initial_machine(config),
        fruitless_rounds(elapsed, false),
        tail,
    );
    let m = run_machine(initial_machine(config), fruitless_rounds(elapsed, false));
    assert(tail.drop_last() =~= seq![
        PollEvent::Check { cancelled: false, elapsed_ms: final_elapsed_ms },
    ]);
    assert(tail.drop_last().drop_last() =~= Seq::<PollEvent>::empty());
}

/// After any number of fruitless polls, a check that sees the timeout
/// elapsed, followed by a successful cancel call, ends the run in
/// `TimedOut`: the elapsed time is at least the timeout and exactly one
/// cancel call was asked for.
pub proof fn lemma_timeout_after_fruitless_polls(
    config: SmsSolverServiceConfig,
    elapsed: Seq<u64>,
    final_elapsed_ms: u64,
)
    requires
        forall|i: int| 0 <= i < elapsed.len() ==> #[trigger] elapsed[i] < config.timeout_ms,
        elapsed.len() < u32::MAX,
        final_elapsed_ms >= config.timeout_ms,
    ensures
        ({
            let events = fruitless_rounds(elapsed, false) + seq![
                PollEvent::Check { cancelled: false, elapsed_ms: final_elapsed_ms },
                PollEvent::CancelReturned { ok: true },
            ];
            run_machine(initial_machine(config), events) == (PollMachine {
                config,
                phase: PollPhase::Finished { outcome: PollOutcome::TimedOut },
                poll_count: elapsed.len() as u32,
                cancel_calls: 1,
                elapsed_ms: final_elapsed_ms,
            })
        }),
{
    reveal_with_fuel(run_machine, 4);
    let tail = seq![
        PollEvent::Check { cancelled: false, elapsed_ms: final_elapsed_ms },
        PollEvent::CancelReturned { ok: true },
    ];
    lemma_fruitless_rounds(config, elapsed, false);
    lemma_run_machine_append(
        initial_machine(config),
        fruitless_rounds(elapsed, false),
        tail,
    );
    assert(tail.drop_last() =~= seq![
        PollEvent::Check { cancelled: false, elapsed_ms: final_elapsed_ms },
    ]);
    assert(tail.drop_last().drop_last() =~= Seq::<PollEvent>::empty());
}

/// A cancellation seen before any poll ends the run in `Cancelled` with a
/// poll count of zero and exactly one cancel call.
pub proof fn lemma_cancel_before_first_poll(config: SmsSolverServiceConfig, elapsed_ms: u64)
    ensures
        ({
            let events = seq![
                PollEvent::Check { cancelled: true, elapsed_ms },
                PollEvent::CancelReturned { ok: true },
            ];
            run_machine(initial_machine(config), events) == (PollMachine {
                config,
                phase: PollPhase::Finished { outcome: PollOutcome::Cancelled },
                poll_count: 0,
                cancel_calls: 1,
                elapsed_ms,
            })
        }),
{
    reveal_with_fuel(run_machine, 4);
    let events = seq![
        PollEvent::Check { cancelled: true, elapsed_ms },
        PollEvent::CancelReturned { ok: true },
    ];
    assert(events.drop_last() =~= seq![PollEvent::Check { cancelled: true, elapsed_ms }]);
    assert(events.drop_last().drop_last() =~= Seq::<PollEvent>::empty());
}

/// If the cancel call issued on the timeout path fails, the run ends in
/// `CancelFailed`, not in `TimedOut` — a cleanup failure is never silently
/// reported as an ordinary timeout. The same holds on the cancellation and
/// permanent-failure paths.
pub proof fn lemma_cancel_failure_is_reported(m: PollMachine, reason: CancelReason)
    requires
        m.phase == (PollPhase::AwaitingCancel { reason }),
    ensures
        step_spec(m, PollEvent::CancelReturned { ok: false }).phase == (PollPhase::Finished {
            outcome: PollOutcome::CancelFailed { reason },
        }),
        step_spec(m, PollEvent::CancelReturned { ok: true }).phase != (PollPhase::Finished {
            outcome: PollOutcome::CancelFailed { reason },
        }),
{
}

/// The priority of the loop's checks: a raised cancellation signal wins
/// over an elapsed timeout, and both forbid issuing another poll call.
pub proof fn lemma_check_priority(m: PollMachine, cancelled: bool, elapsed_ms: u64)
    requires
        m.phase == PollPhase::Checking,
    ensures
        cancelled ==> step_spec(m, PollEvent::Check { cancelled, elapsed_ms }).phase
            == (PollPhase::AwaitingCancel { reason: CancelReason::CancelRequested }),
        !cancelled && elapsed_ms >= m.config.timeout_ms ==> step_spec(
            m,
            PollEvent::Check { cancelled, elapsed_ms },
        ).phase == (PollPhase::AwaitingCancel { reason: CancelReason::TimedOut }),
        (cancelled || elapsed_ms >= m.config.timeout_ms) ==> step_spec(
            m,
            PollEvent::Check { cancelled, elapsed_ms },
        ).poll_count == m.poll_count,
{
}

} // verus!
