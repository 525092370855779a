use retry_policies::policies::ExponentialBackoff;
use retry_policies::{Jitter, RetryPolicy};
use rquest_middleware::retry::{annotate, give_up, sleep_nanos};
use rquest_middleware::{
    replay, Body, DefaultRetryableStrategy, Error, Replay, Request, Response, RetryDecision,
    RetryError, RetryTransientMiddleware, Step, TransportError, TransportErrorKind, Version,
};
use std::sync::Arc;
use std::time::{Duration, SystemTime, UNIX_EPOCH};

fn response(status: u16) -> Response {
    Response::new(status, Version::Http11, http::HeaderMap::new(), "http://example.com/".to_string(), vec![])
}

fn request() -> Request {
    Request::new("GET".to_string(), "http://example.com/".to_string())
        .with_body(Body::Buffered(Arc::new(b"payload".to_vec())))
}

fn nanos(t: SystemTime) -> u64 {
    t.duration_since(UNIX_EPOCH).unwrap().as_nanos() as u64
}

fn decision(d: retry_policies::RetryDecision) -> RetryDecision {
    match d {
        retry_policies::RetryDecision::Retry { execute_after } => {
            RetryDecision::Retry { execute_after_nanos: nanos(execute_after) }
        }
        retry_policies::RetryDecision::DoNotRetry => RetryDecision::DoNotRetry,
    }
}

fn policy_decisions(policy: &ExponentialBackoff, n: u32) -> Vec<RetryDecision> {
    let start = SystemTime::now();
    (0..n).map(|i| decision(policy.should_retry(start, i))).collect()
}

fn zero_delay_policy(max_retries: u32) -> ExponentialBackoff {
    ExponentialBackoff::builder()
        .retry_bounds(Duration::from_millis(0), Duration::from_millis(0))
        .jitter(Jitter::None)
        .build_with_max_retries(max_retries)
}

#[test]
fn e2e_retries_two_503s_then_succeeds() {
    let policy = zero_delay_policy(2);
    let outcomes = vec![Ok(response(503)), Ok(response(503)), Ok(response(200))];
    let decisions = policy_decisions(&policy, 3);
    match replay(request(), &DefaultRetryableStrategy, outcomes, decisions) {
        Replay::Finished { sends, result: Ok(r), retries } => {
            assert_eq!(sends, 3);
            assert_eq!(retries, 2);
            assert_eq!(r.status(), 200);
        }
        other => panic!("unexpected {:?}", other),
    }
}

#[test]
fn e2e_always_500_exhausts_retries() {
    let policy = zero_delay_policy(1);
    let outcomes = vec![Ok(response(500)), Ok(response(500)), Ok(response(500))];
    let decisions = policy_decisions(&policy, 3);
    match replay(request(), &DefaultRetryableStrategy, outcomes, decisions) {
        Replay::Finished { sends: 2, result: Err(Error::Retry(e)), retries: 1 } => {
            assert!(matches!(*e, RetryError::WithRetries { retries: 1, err: Error::Status(500) }));
        }
        other => panic!("unexpected {:?}", other),
    }
}

#[test]
fn e2e_always_500_as_error_exhausts_retries() {
    let policy = zero_delay_policy(1);
    let timeout = || Err(Error::Transport(TransportError { kind: TransportErrorKind::Timeout, message: "500".to_string() }));
    let outcomes = vec![timeout(), timeout(), timeout()];
    let decisions = policy_decisions(&policy, 3);
    match replay(request(), &DefaultRetryableStrategy, outcomes, decisions) {
        Replay::Finished { sends: 2, result: Err(Error::Retry(e)), retries: 1 } => {
            assert!(matches!(*e, RetryError::WithRetries { retries: 1, .. }));
        }
        other => panic!("unexpected {:?}", other),
    }
}

#[test]
fn e2e_streaming_body_fails_before_sending() {
    let req = Request::new("POST".to_string(), "http://example.com/".to_string())
        .with_body(Body::Streaming);
    let outcomes = vec![Ok(response(200))];
    let decisions = policy_decisions(&zero_delay_policy(3), 3);
    assert!(matches!(replay(req, &DefaultRetryableStrategy, outcomes, decisions), Replay::NotCloneable));
}

#[test]
fn streaming_body_gives_configuration_error() {
    let mw = RetryTransientMiddleware::new_with_policy(zero_delay_policy(3));
    let req = Request::new("POST".to_string(), "http://example.com/".to_string())
        .with_body(Body::Streaming);
    let ex = mw.executor(req);
    match ex.start_attempt() {
        Step::Finish { result: Err(e), retries: 0 } => assert!(e.is_configuration()),
        other => panic!("unexpected {:?}", other),
    }
}

#[test]
fn attempt_counting_with_five_transient_outcomes() {
    let n = 5usize;
    let mut outcomes: Vec<Result<Response, Error>> = (0..n).map(|_| Ok(response(502))).collect();
    outcomes.push(Ok(response(201)));
    let decisions = vec![RetryDecision::Retry { execute_after_nanos: 0 }; n];
    match replay(request(), &DefaultRetryableStrategy, outcomes, decisions) {
        Replay::Finished { sends, result: Ok(r), retries } => {
            assert_eq!(sends, n + 1);
            assert_eq!(retries, n as u32);
            assert_eq!(r.status(), 201);
        }
        other => panic!("unexpected {:?}", other),
    }
}

#[test]
fn give_up_on_first_decision_returns_plain_error() {
    let outcomes = vec![
        Err(Error::Transport(TransportError { kind: TransportErrorKind::Connect, message: "refused".to_string() })),
        Ok(response(200)),
    ];
    let decisions = vec![RetryDecision::DoNotRetry];
    match replay(request(), &DefaultRetryableStrategy, outcomes, decisions) {
        Replay::Finished { sends: 1, result: Err(Error::Transport(t)), retries: 0 } => {
            assert_eq!(t.kind, TransportErrorKind::Connect);
        }
        other => panic!("unexpected {:?}", other),
    }
}

#[test]
fn give_up_on_first_transient_response_returns_status_error() {
    let outcomes = vec![Ok(response(503))];
    let decisions = vec![RetryDecision::DoNotRetry];
    match replay(request(), &DefaultRetryableStrategy, outcomes, decisions) {
        Replay::Finished { sends: 1, result: Err(Error::Status(503)), retries: 0 } => {}
        other => panic!("unexpected {:?}", other),
    }
}

#[test]
fn give_up_wraps_status_after_retries() {
    match give_up(Ok(response(408)), 3) {
        Err(Error::Retry(e)) => assert!(matches!(*e, RetryError::WithRetries { retries: 3, err: Error::Status(408) })),
        other => panic!("unexpected {:?}", other),
    }
    assert!(matches!(give_up(Err(Error::Status(1)), 0), Err(Error::Status(1))));
}

#[test]
fn fatal_error_after_retries_is_wrapped() {
    let outcomes = vec![Ok(response(503)), Err(Error::Middleware("bad".to_string()))];
    let decisions = vec![RetryDecision::Retry { execute_after_nanos: 0 }];
    match replay(request(), &DefaultRetryableStrategy, outcomes, decisions) {
        Replay::Finished { sends: 2, result: Err(e), retries: 1 } => {
            assert_eq!(e.retries(), 1);
            match e {
                Error::Retry(r) => assert!(matches!(r.inner(), Error::Middleware(_))),
                _ => panic!("not wrapped"),
            }
        }
        other => panic!("unexpected {:?}", other),
    }
}

#[test]
fn running_out_of_outcomes_is_unfinished() {
    let outcomes = vec![Ok(response(503))];
    let decisions = vec![RetryDecision::Retry { execute_after_nanos: 0 }];
    assert!(matches!(replay(request(), &DefaultRetryableStrategy, outcomes, decisions), Replay::Unfinished));
    assert!(matches!(replay(request(), &DefaultRetryableStrategy, vec![], vec![]), Replay::Unfinished));
}

#[test]
fn executor_steps() {
    let mw = RetryTransientMiddleware::new_with_policy(zero_delay_policy(3));
    let mut ex = mw.executor(request());
    assert_eq!(ex.attempts_so_far(), 0);
    let dup = match ex.start_attempt() {
        Step::Send(q) => q,
        other => panic!("unexpected {:?}", other),
    };
    assert_eq!(dup.url, "http://example.com/");
    match ex.on_outcome(Ok(response(503))) {
        Step::Consult { attempts_so_far: 0 } => {}
        other => panic!("unexpected {:?}", other),
    }
    assert!(ex.awaiting_decision());
    match ex.on_decision(RetryDecision::Retry { execute_after_nanos: 1_500 }, 1_000) {
        Step::Sleep { nanos: 500 } => {}
        other => panic!("unexpected {:?}", other),
    }
    assert_eq!(ex.attempts_so_far(), 1);
    assert!(matches!(ex.start_attempt(), Step::Send(_)));
    match ex.on_outcome(Ok(response(504))) {
        Step::Consult { attempts_so_far: 1 } => {}
        other => panic!("unexpected {:?}", other),
    }
    match ex.on_decision(RetryDecision::DoNotRetry, 2_000) {
        Step::Finish { result: Err(Error::Retry(e)), retries: 1 } => {
            assert!(matches!(*e, RetryError::WithRetries { retries: 1, err: Error::Status(504) }));
        }
        other => panic!("unexpected {:?}", other),
    }
}

#[test]
fn success_finishes_at_once() {
    let mw = RetryTransientMiddleware::new_with_policy_and_strategy(zero_delay_policy(3), DefaultRetryableStrategy);
    let mut ex = mw.executor(request());
    match ex.on_outcome(Ok(response(200))) {
        Step::Finish { result: Ok(r), retries: 0 } => assert_eq!(r.status(), 200),
        other => panic!("unexpected {:?}", other),
    }
    assert_eq!(mw.retry_policy().max_n_retries, Some(3));
}

#[test]
fn sleep_is_zero_once_time_has_passed() {
    assert_eq!(sleep_nanos(10, 3), 7);
    assert_eq!(sleep_nanos(10, 10), 0);
    assert_eq!(sleep_nanos(3, 10), 0);
}

#[test]
fn annotate_wraps_errors_only_after_retries() {
    assert!(matches!(annotate(Err(Error::Status(500)), 0), Err(Error::Status(500))));
    match annotate(Err(Error::Status(500)), 2) {
        Err(Error::Retry(r)) => assert!(matches!(*r, RetryError::WithRetries { retries: 2, err: Error::Status(500) })),
        other => panic!("unexpected {:?}", other),
    }
    assert!(matches!(annotate(Ok(response(200)), 4), Ok(_)));
}

#[test]
fn policy_decision_kind_is_repeatable() {
    let policy = zero_delay_policy(2);
    let start = SystemTime::now();
    for n in 0..4u32 {
        let a = decision(policy.should_retry(start, n));
        let b = decision(policy.should_retry(start, n));
        assert_eq!(matches!(a, RetryDecision::DoNotRetry), matches!(b, RetryDecision::DoNotRetry));
        assert_eq!(matches!(a, RetryDecision::DoNotRetry), n >= 2);
    }
}
