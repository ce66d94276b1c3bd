use whatsapp_cloud::classify::{ClassifiedOutcome, ErrorClassifier, RawResponse, RetryReason};
use whatsapp_cloud::dispatch::{Action, DispatchError, DispatchFailure, Dispatcher, Phase};
use whatsapp_cloud::error::{HttpFailure, WhatsAppError};
use whatsapp_cloud::rate_limiter::RateLimiter;
use whatsapp_cloud::retry::{Backoff, RetryConfig};

fn settings(max_retries: u32) -> RetryConfig {
    RetryConfig {
        max_retries,
        base_delay_ms: 1_000,
        retry_on_throttle: true,
        backoff: Backoff::Exponential,
        max_delay_ms: u64::MAX,
    }
}

fn response(status: u16, retry_after: Option<&str>, body: &str) -> Result<RawResponse, HttpFailure> {
    Ok(RawResponse { status, retry_after: retry_after.map(|v| v.to_string()), body: body.to_string() })
}

#[test]
fn first_attempt_succeeds() {
    let mut limiter = RateLimiter::new(10);
    let classifier = ErrorClassifier::new();
    let mut call = Dispatcher::new(settings(3), None, 100);
    assert_eq!(call.phase(), Phase::Waiting);
    assert_eq!(call.advance(&mut limiter, 100), Action::Perform { attempt: 0 });
    assert_eq!(call.phase(), Phase::InFlight);
    assert_eq!(
        call.complete(&mut limiter, &classifier, response(200, None, "{\"id\":1}"), 150),
        Action::Finish(Ok("{\"id\":1}".to_string()))
    );
    assert_eq!(call.phase(), Phase::Done);
    assert_eq!(call.attempts(), 1);
    assert_eq!(call.waited_ms(), 0);
}

#[test]
fn persistent_500_makes_three_attempts() {
    let mut limiter = RateLimiter::new(10);
    let classifier = ErrorClassifier::new();
    let mut call = Dispatcher::new(settings(2), None, 0);
    let mut now = 0u64;
    let mut performed = 0;
    let mut action = call.advance(&mut limiter, now);
    let error = loop {
        match action {
            Action::Perform { attempt } => {
                assert_eq!(attempt, performed);
                performed += 1;
                now += 10;
                action = call.complete(&mut limiter, &classifier, response(500, None, "oops"), now);
            }
            Action::Wait { ms } => {
                now += ms;
                action = call.advance(&mut limiter, now);
            }
            Action::Finish(result) => break result.unwrap_err(),
            Action::Ignore => panic!("a step was ignored"),
        }
    };
    assert_eq!(performed, 3);
    assert_eq!(call.attempts(), 3);
    assert_eq!(call.waited_ms(), 3_000);
    assert_eq!(
        error,
        DispatchError {
            failure: DispatchFailure::RetriesExhausted {
                last: RetryReason::ServerUnavailable { status: 500 }
            },
            attempts: 3,
            last_status: Some(500),
            elapsed_ms: 3_030,
        }
    );
    assert_eq!(limiter.in_flight(), 3);
}

#[test]
fn exhausted_differs_from_a_plain_500() {
    let mut limiter = RateLimiter::new(10);
    let classifier = ErrorClassifier::with_transient(Vec::new());
    let mut call = Dispatcher::new(settings(2), None, 0);
    assert_eq!(call.advance(&mut limiter, 0), Action::Perform { attempt: 0 });
    let action = call.complete(&mut limiter, &classifier, response(500, None, "oops"), 5);
    assert_eq!(
        action,
        Action::Finish(Err(DispatchError {
            failure: DispatchFailure::Rejected(WhatsAppError::HttpError(HttpFailure {
                status: Some(500),
                timed_out: false,
                message: "oops".to_string()
            })),
            attempts: 1,
            last_status: Some(500),
            elapsed_ms: 5,
        }))
    );
}

#[test]
fn throttle_ends_the_call_when_retries_are_switched_off() {
    let mut limiter = RateLimiter::new(10);
    let classifier = ErrorClassifier::new();
    let mut config = settings(3);
    config.retry_on_throttle = false;
    let mut call = Dispatcher::new(config, None, 0);
    assert_eq!(call.advance(&mut limiter, 0), Action::Perform { attempt: 0 });
    let action = call.complete(&mut limiter, &classifier, response(429, Some("5"), ""), 20);
    assert_eq!(
        action,
        Action::Finish(Err(DispatchError {
            failure: DispatchFailure::Rejected(WhatsAppError::RateLimitExceeded {
                retry_after_secs: 5
            }),
            attempts: 1,
            last_status: Some(429),
            elapsed_ms: 20,
        }))
    );
    assert_eq!(call.phase(), Phase::Done);
    assert_eq!(call.advance(&mut limiter, 10_000), Action::Ignore);
    assert_eq!(call.attempts(), 1);
}

#[test]
fn retry_after_five_delays_the_next_attempt_by_five_seconds() {
    let mut limiter = RateLimiter::new(10);
    let classifier = ErrorClassifier::new();
    let mut call = Dispatcher::new(settings(3), None, 0);
    assert_eq!(call.advance(&mut limiter, 0), Action::Perform { attempt: 0 });
    assert_eq!(
        call.complete(&mut limiter, &classifier, response(429, Some("5"), ""), 40),
        Action::Wait { ms: 5_000 }
    );
    assert_eq!(call.phase(), Phase::Waiting);
    assert_eq!(call.advance(&mut limiter, 5_039), Action::Wait { ms: 1 });
    assert_eq!(call.advance(&mut limiter, 5_040), Action::Perform { attempt: 1 });
    assert_eq!(call.waited_ms(), 5_001);
}

#[test]
fn server_cooldown_holds_for_other_calls() {
    let mut limiter = RateLimiter::new(10);
    let classifier = ErrorClassifier::new();
    let mut first = Dispatcher::new(settings(3), None, 0);
    let mut second = Dispatcher::new(settings(3), None, 0);
    assert_eq!(first.advance(&mut limiter, 0), Action::Perform { attempt: 0 });
    assert_eq!(
        first.complete(&mut limiter, &classifier, response(429, Some("5"), ""), 0),
        Action::Wait { ms: 5_000 }
    );
    assert_eq!(second.advance(&mut limiter, 1_000), Action::Wait { ms: 4_000 });
}

#[test]
fn retries_pass_the_limiter() {
    let mut limiter = RateLimiter::new(1);
    let classifier = ErrorClassifier::new();
    let mut call = Dispatcher::new(settings(3), None, 0);
    assert_eq!(call.advance(&mut limiter, 0), Action::Perform { attempt: 0 });
    assert_eq!(
        call.complete(&mut limiter, &classifier, response(503, None, ""), 100),
        Action::Wait { ms: 1_000 }
    );
    assert_eq!(call.advance(&mut limiter, 1_100), Action::Wait { ms: 58_900 });
    assert_eq!(call.advance(&mut limiter, 60_000), Action::Perform { attempt: 1 });
    assert_eq!(call.attempts(), 2);
    assert_eq!(call.waited_ms(), 59_900);
}

#[test]
fn network_timeout_is_retried() {
    let mut limiter = RateLimiter::new(10);
    let classifier = ErrorClassifier::new();
    let mut call = Dispatcher::new(settings(1), None, 0);
    let timeout = HttpFailure { status: None, timed_out: true, message: "timed out".to_string() };
    assert_eq!(call.advance(&mut limiter, 0), Action::Perform { attempt: 0 });
    assert_eq!(
        call.complete(&mut limiter, &classifier, Err(timeout.clone()), 30_000),
        Action::Wait { ms: 1_000 }
    );
    assert_eq!(call.advance(&mut limiter, 31_000), Action::Perform { attempt: 1 });
    assert_eq!(
        call.complete(&mut limiter, &classifier, Err(timeout), 61_000),
        Action::Finish(Err(DispatchError {
            failure: DispatchFailure::RetriesExhausted { last: RetryReason::NetworkTimeout },
            attempts: 2,
            last_status: None,
            elapsed_ms: 61_000,
        }))
    );
}

#[test]
fn connection_failure_is_not_retried() {
    let mut limiter = RateLimiter::new(10);
    let classifier = ErrorClassifier::new();
    let mut call = Dispatcher::new(settings(3), None, 0);
    let failure = HttpFailure { status: None, timed_out: false, message: "refused".to_string() };
    assert_eq!(call.advance(&mut limiter, 0), Action::Perform { attempt: 0 });
    assert_eq!(
        call.complete(&mut limiter, &classifier, Err(failure.clone()), 3),
        Action::Finish(Err(DispatchError {
            failure: DispatchFailure::Rejected(WhatsAppError::HttpError(failure)),
            attempts: 1,
            last_status: None,
            elapsed_ms: 3,
        }))
    );
}

#[test]
fn fatal_api_error_ends_the_call() {
    let mut limiter = RateLimiter::new(10);
    let classifier = ErrorClassifier::new();
    let mut call = Dispatcher::new(settings(3), None, 0);
    let body = "{\"error\":{\"message\":\"bad\",\"type\":\"GraphMethodException\",\"code\":100,\"fbtrace_id\":\"t\"}}";
    assert_eq!(call.advance(&mut limiter, 0), Action::Perform { attempt: 0 });
    match call.complete(&mut limiter, &classifier, response(400, None, body), 9) {
        Action::Finish(Err(error)) => {
            assert_eq!(error.attempts, 1);
            assert_eq!(error.last_status, Some(400));
            match error.failure {
                DispatchFailure::Rejected(WhatsAppError::ApiError { code, solution, .. }) => {
                    assert_eq!(code, 100);
                    assert!(solution.unwrap().starts_with("One or more parameters"));
                }
                other => panic!("unexpected failure {:?}", other),
            }
        }
        other => panic!("unexpected action {:?}", other),
    }
}

#[test]
fn waiting_for_admission_counts_against_the_ceiling() {
    let mut limiter = RateLimiter::new(1);
    let mut first = Dispatcher::new(settings(3), Some(30_000), 0);
    let mut second = Dispatcher::new(settings(3), Some(30_000), 0);
    assert_eq!(first.advance(&mut limiter, 0), Action::Perform { attempt: 0 });
    assert_eq!(
        second.advance(&mut limiter, 0),
        Action::Finish(Err(DispatchError {
            failure: DispatchFailure::TimedOut { waited_ms: 0 },
            attempts: 0,
            last_status: None,
            elapsed_ms: 0,
        }))
    );
    assert_eq!(second.phase(), Phase::Done);
}

#[test]
fn backoff_counts_against_the_ceiling() {
    let mut limiter = RateLimiter::new(10);
    let mut call = Dispatcher::new(settings(5), Some(3_000), 0);
    let failed = || ClassifiedOutcome::Retryable {
        reason: RetryReason::ServerUnavailable { status: 502 },
        server_delay_ms: None,
    };
    assert_eq!(call.advance(&mut limiter, 0), Action::Perform { attempt: 0 });
    assert_eq!(call.settle(&mut limiter, Some(502), failed(), 0), Action::Wait { ms: 1_000 });
    assert_eq!(call.advance(&mut limiter, 1_000), Action::Perform { attempt: 1 });
    assert_eq!(call.settle(&mut limiter, Some(502), failed(), 1_000), Action::Wait { ms: 2_000 });
    assert_eq!(call.advance(&mut limiter, 3_000), Action::Perform { attempt: 2 });
    assert_eq!(
        call.settle(&mut limiter, Some(502), failed(), 3_000),
        Action::Finish(Err(DispatchError {
            failure: DispatchFailure::TimedOut { waited_ms: 3_000 },
            attempts: 3,
            last_status: Some(502),
            elapsed_ms: 3_000,
        }))
    );
}

#[test]
fn a_wait_that_just_fits_is_taken() {
    let mut limiter = RateLimiter::new(10);
    let mut call = Dispatcher::new(settings(5), Some(1_000), 0);
    assert_eq!(call.advance(&mut limiter, 0), Action::Perform { attempt: 0 });
    let failed = ClassifiedOutcome::Retryable {
        reason: RetryReason::NetworkTimeout,
        server_delay_ms: None,
    };
    assert_eq!(call.settle(&mut limiter, None, failed, 0), Action::Wait { ms: 1_000 });
    assert_eq!(call.waited_ms(), 1_000);
}

#[test]
fn steps_that_do_not_fit_are_ignored() {
    let mut limiter = RateLimiter::new(10);
    let mut call = Dispatcher::new(settings(3), None, 0);
    assert_eq!(
        call.settle(&mut limiter, Some(200), ClassifiedOutcome::Success("x".to_string()), 0),
        Action::Ignore
    );
    assert_eq!(call.phase(), Phase::Waiting);
    assert_eq!(call.advance(&mut limiter, 0), Action::Perform { attempt: 0 });
    assert_eq!(call.advance(&mut limiter, 0), Action::Ignore);
    assert_eq!(limiter.in_flight(), 1);
    assert_eq!(
        call.settle(&mut limiter, Some(200), ClassifiedOutcome::Success("x".to_string()), 1),
        Action::Finish(Ok("x".to_string()))
    );
    assert_eq!(
        call.settle(&mut limiter, Some(200), ClassifiedOutcome::Success("y".to_string()), 2),
        Action::Ignore
    );
    assert_eq!(call.attempts(), 1);
}

#[test]
fn attempts_never_exceed_retries_plus_one() {
    for max_retries in 0u32..6 {
        let mut limiter = RateLimiter::new(2);
        let mut call = Dispatcher::new(settings(max_retries), None, 0);
        let mut now = 0u64;
        let mut performed = 0u64;
        for round in 0..200u32 {
            let action = if round % 3 == 2 {
                call.settle(
                    &mut limiter,
                    Some(429),
                    ClassifiedOutcome::Retryable {
                        reason: RetryReason::Throttled,
                        server_delay_ms: Some(10),
                    },
                    now,
                )
            } else {
                call.advance(&mut limiter, now)
            };
            if let Action::Perform { .. } = action {
                performed += 1;
            }
            now += 7_000;
            assert_eq!(call.attempts(), performed);
            assert!(performed <= max_retries as u64 + 1);
        }
        assert_eq!(performed, max_retries as u64 + 1);
        assert_eq!(call.phase(), Phase::Done);
    }
}

#[test]
fn elapsed_time_never_underflows() {
    let mut limiter = RateLimiter::new(10);
    let mut call = Dispatcher::new(settings(0), None, 1_000);
    assert_eq!(call.advance(&mut limiter, 1_000), Action::Perform { attempt: 0 });
    let failed = ClassifiedOutcome::Retryable {
        reason: RetryReason::NetworkTimeout,
        server_delay_ms: None,
    };
    match call.settle(&mut limiter, None, failed, 10) {
        Action::Finish(Err(error)) => assert_eq!(error.elapsed_ms, 0),
        other => panic!("unexpected action {:?}", other),
    }
}
