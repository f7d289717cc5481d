//! Scenario tests driving the polling state machine directly.

use sms_solvers::config::SmsSolverServiceConfig;
use sms_solvers::poll::{
    CancelReason, PollEvent, PollMachine, PollOutcome, PollPhase, PollReply,
};
use sms_solvers::types::SmsCode;

fn config(timeout_ms: u64, poll_interval_ms: u64) -> SmsSolverServiceConfig {
    SmsSolverServiceConfig {
        timeout_ms,
        poll_interval_ms,
    }
}

fn check(m: PollMachine, cancelled: bool, elapsed_ms: u64) -> PollMachine {
    m.step(PollEvent::Check {
        cancelled,
        elapsed_ms,
    })
}

fn not_yet_round(m: PollMachine, elapsed_ms: u64) -> PollMachine {
    let m = check(m, false, elapsed_ms);
    let m = m.step(PollEvent::PollReturned {
        reply: PollReply::NotYet,
    });
    m.step(PollEvent::Slept)
}

#[test]
fn test_code_on_later_poll_is_success() {
    // "not yet" for three polls, then the code on the fourth, all inside
    // the timeout: Success with a poll count of four and no cancel call
    let mut m = PollMachine::new(config(60_000, 10));
    for k in 0..3u64 {
        m = not_yet_round(m, k * 10);
    }
    m = check(m, false, 30);
    m = m.step(PollEvent::PollReturned {
        reply: PollReply::Code {
            code: SmsCode::new("123456"),
        },
    });
    match m.phase {
        PollPhase::Finished {
            outcome: PollOutcome::Success { code },
        } => assert_eq!(code.as_str(), "123456"),
        other => panic!("expected success, got {:?}", other),
    }
    assert_eq!(m.poll_count, 4);
    assert_eq!(m.cancel_calls, 0);
}

#[test]
fn test_never_a_code_times_out_with_one_cancel() {
    // the provider never has the code: the run ends in TimedOut with the
    // elapsed time at least the timeout and exactly one cancel call
    let mut m = PollMachine::new(config(50, 10));
    for k in 0..5u64 {
        m = not_yet_round(m, k * 10);
    }
    m = check(m, false, 50);
    assert!(matches!(
        m.phase,
        PollPhase::AwaitingCancel {
            reason: CancelReason::TimedOut
        }
    ));
    m = m.step(PollEvent::CancelReturned { ok: true });
    assert!(matches!(
        m.phase,
        PollPhase::Finished {
            outcome: PollOutcome::TimedOut
        }
    ));
    assert!(m.elapsed_ms >= 50);
    assert_eq!(m.cancel_calls, 1);
    assert_eq!(m.poll_count, 5);
}

#[test]
fn test_cancel_before_first_poll() {
    // cancelling before any poll: Cancelled with a poll count of zero and
    // exactly one cancel call
    let m = PollMachine::new(config(60_000, 10));
    let m = check(m, true, 0);
    assert!(matches!(
        m.phase,
        PollPhase::AwaitingCancel {
            reason: CancelReason::CancelRequested
        }
    ));
    let m = m.step(PollEvent::CancelReturned { ok: true });
    assert!(matches!(
        m.phase,
        PollPhase::Finished {
            outcome: PollOutcome::Cancelled
        }
    ));
    assert_eq!(m.poll_count, 0);
    assert_eq!(m.cancel_calls, 1);
}

#[test]
fn test_failed_cancel_on_timeout_is_cancel_failed() {
    // the cancel call after a timeout fails: the terminal outcome is
    // CancelFailed, not TimedOut
    let m = PollMachine::new(config(50, 10));
    let m = check(m, false, 50);
    let m = m.step(PollEvent::CancelReturned { ok: false });
    assert!(matches!(
        m.phase,
        PollPhase::Finished {
            outcome: PollOutcome::CancelFailed {
                reason: CancelReason::TimedOut
            }
        }
    ));
}

#[test]
fn test_permanent_poll_failure_cancels_once() {
    // a non-retryable poll error leaves the loop through one cancel call,
    // with both flags carried out
    let m = PollMachine::new(config(60_000, 10));
    let m = check(m, false, 0);
    let m = m.step(PollEvent::PollReturned {
        reply: PollReply::Failed {
            is_retryable: false,
            should_retry_operation: true,
        },
    });
    assert!(matches!(
        m.phase,
        PollPhase::AwaitingCancel {
            reason: CancelReason::PermanentFailure {
                should_retry_operation: true
            }
        }
    ));
    let m = m.step(PollEvent::CancelReturned { ok: true });
    assert!(matches!(
        m.phase,
        PollPhase::Finished {
            outcome: PollOutcome::ProviderFailure {
                should_retry_operation: true
            }
        }
    ));
    assert_eq!(m.cancel_calls, 1);
}

#[test]
fn test_transient_poll_failure_keeps_polling() {
    // a retryable poll error is absorbed: the machine goes back to the
    // clock check, nothing is cancelled
    let m = PollMachine::new(config(60_000, 10));
    let m = check(m, false, 0);
    let m = m.step(PollEvent::PollReturned {
        reply: PollReply::Failed {
            is_retryable: true,
            should_retry_operation: true,
        },
    });
    assert!(matches!(m.phase, PollPhase::AwaitingSleep));
    let m = m.step(PollEvent::Slept);
    assert!(matches!(m.phase, PollPhase::Checking));
    assert_eq!(m.cancel_calls, 0);
}

#[test]
fn test_scenario_short_timeout_polls_four_to_six_times() {
    // timeout 50 ms, poll every 10 ms, the code never arrives and cancel
    // succeeds: TimedOut with a poll count between 4 and 6
    let mut m = PollMachine::new(config(50, 10));
    let mut elapsed = 0u64;
    loop {
        m = check(m, false, elapsed);
        match m.phase {
            PollPhase::AwaitingCancel { .. } => break,
            _ => {}
        }
        m = m.step(PollEvent::PollReturned {
            reply: PollReply::NotYet,
        });
        m = m.step(PollEvent::Slept);
        elapsed += 10;
    }
    let m = m.step(PollEvent::CancelReturned { ok: true });
    match m.phase {
        PollPhase::Finished {
            outcome: PollOutcome::TimedOut,
        } => {}
        other => panic!("expected timeout, got {:?}", other),
    }
    assert!(
        m.poll_count >= 4 && m.poll_count <= 6,
        "poll count {} outside 4..=6",
        m.poll_count
    );
    assert_eq!(m.cancel_calls, 1);
}

#[test]
fn test_scenario_code_on_third_poll() {
    // timeout 60 s, poll every 10 ms, "not yet" twice then the code: the
    // run succeeds with a poll count of exactly three
    let mut m = PollMachine::new(config(60_000, 10));
    m = not_yet_round(m, 0);
    m = not_yet_round(m, 10);
    m = check(m, false, 20);
    m = m.step(PollEvent::PollReturned {
        reply: PollReply::Code {
            code: SmsCode::new("123456"),
        },
    });
    match m.phase {
        PollPhase::Finished {
            outcome: PollOutcome::Success { code },
        } => assert_eq!(code.as_str(), "123456"),
        other => panic!("expected success, got {:?}", other),
    }
    assert_eq!(m.poll_count, 3);
}
