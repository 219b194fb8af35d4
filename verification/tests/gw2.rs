use gw2fashionista::gw2::doorway::Doorway;
use gw2fashionista::gw2::error::{EndpointFailure, Error, ErrorKind};
use gw2fashionista::gw2::fetch::{Gw2LibFetcher, Retry as FetchRetry};
use gw2fashionista::gw2::lookup::{resolved_name, Fallback, FallbackStep, StaticLookup};
use gw2fashionista::gw2::retry::{retryable, Retry};
use gw2fashionista::gw2_data::retry::Retry as LinearRetry;
use std::sync::Arc;

#[test]
fn failures_are_classified() {
    assert_eq!(ErrorKind::from_failure(&EndpointFailure::ApiStatus(404)), ErrorKind::NotFound);
    assert_eq!(ErrorKind::from_failure(&EndpointFailure::ApiStatus(500)), ErrorKind::Transient);
    assert_eq!(ErrorKind::from_failure(&EndpointFailure::ApiStatus(599)), ErrorKind::Transient);
    assert_eq!(ErrorKind::from_failure(&EndpointFailure::ApiStatus(600)), ErrorKind::Permanent);
    assert_eq!(ErrorKind::from_failure(&EndpointFailure::ApiStatus(400)), ErrorKind::Permanent);
    assert_eq!(ErrorKind::from_failure(&EndpointFailure::RateLimited), ErrorKind::Transient);
    assert_eq!(ErrorKind::from_failure(&EndpointFailure::RateLimiterCrashed), ErrorKind::Transient);
    assert_eq!(
        ErrorKind::from_failure(&EndpointFailure::RateLimiterBucketExceeded),
        ErrorKind::Transient
    );
    assert_eq!(ErrorKind::from_failure(&EndpointFailure::RequestFailed), ErrorKind::Transient);
    assert_eq!(ErrorKind::from_failure(&EndpointFailure::Other), ErrorKind::Permanent);
}

#[test]
fn errors_report_their_class() {
    let e = Error::from_failure("v2/skins", "single(id=42)".to_string(), EndpointFailure::ApiStatus(404));
    assert!(e.is_not_found());
    assert!(!e.is_transient());
    assert_eq!(e.kind(), ErrorKind::NotFound);
    assert_eq!(e.endpoint(), "v2/skins");
    assert_eq!(e.request(), "single(id=42)");
    let t = Error::from_kind(ErrorKind::Transient);
    assert!(t.is_transient());
    assert!(retryable(&t));
    assert!(!retryable(&e));
}

#[test]
fn fetch_retry_defaults_and_settings() {
    let r = FetchRetry::new(7u8);
    assert_eq!(r.max_retries(), 10);
    assert_eq!(r.sleep_millis(), 1000);
    assert_eq!(*r.inner(), 7);
    let r = r.with_max_retries(1).with_sleep_millis(10000);
    assert_eq!(r.max_retries(), 1);
    assert_eq!(r.sleep_millis(), 10000);
    let transient = Error::from_failure("x", String::new(), EndpointFailure::ApiStatus(500));
    let not_found = Error::from_failure("x", String::new(), EndpointFailure::ApiStatus(404));
    let permanent = Error::from_failure("x", String::new(), EndpointFailure::Other);
    assert!(r.should_retry(0, &transient));
    assert!(!r.should_retry(1, &transient));
    assert!(!r.should_retry(0, &not_found));
    assert!(!r.should_retry(0, &permanent));
}

#[test]
fn retry_defaults() {
    let r = Retry::default();
    assert_eq!(r, Retry::new(10, 1000));
    let transient = Error::from_kind(ErrorKind::Transient);
    assert!(r.should_retry(9, &transient));
    assert!(!r.should_retry(10, &transient));
}

#[test]
fn linear_retry_waits_longer_each_time() {
    let r = LinearRetry::default();
    assert_eq!(r, LinearRetry::new(10, 1000));
    assert_eq!(r.after_failure(0, &EndpointFailure::ApiStatus(503)), Some(1000));
    assert_eq!(r.after_failure(2, &EndpointFailure::RateLimited), Some(3000));
    assert_eq!(r.after_failure(9, &EndpointFailure::RequestFailed), Some(10000));
    assert_eq!(r.after_failure(10, &EndpointFailure::RequestFailed), None);
    assert_eq!(r.after_failure(0, &EndpointFailure::ApiStatus(404)), None);
    assert_eq!(r.after_failure(0, &EndpointFailure::Other), None);
    let big = LinearRetry::new(u32::MAX, u64::MAX);
    assert_eq!(
        big.after_failure(u32::MAX - 1, &EndpointFailure::RequestFailed),
        Some(u32::MAX as u128 * u64::MAX as u128)
    );
    assert!(!r.should_retry(&EndpointFailure::ApiStatus(499)));
}

#[test]
fn static_lookup_keeps_the_last_name() {
    let l = StaticLookup::new(vec![
        (1, "first".to_string()),
        (2, "two".to_string()),
        (1, "again".to_string()),
    ]);
    assert_eq!(l.resolve_name(1).as_deref(), Some("again"));
    assert_eq!(l.resolve_name(2).as_deref(), Some("two"));
    assert_eq!(l.resolve_name(3), None);
}

#[test]
fn fallback_asks_the_second_lookup_only_without_a_name() {
    let primary = StaticLookup::new(vec![(1, "Name 1 from primary".to_string())]);
    let fallback = StaticLookup::new(vec![
        (1, "Name 1 from fallback".to_string()),
        (2, "Name 2 from fallback".to_string()),
    ]);
    let lookup = Fallback::new(primary, fallback);
    let resolve = |id: u32| match Fallback::<StaticLookup, StaticLookup>::after_primary(Ok(lookup.primary.resolve_name(id))) {
        FallbackStep::Answer(name) => name,
        FallbackStep::AskFallback => lookup.fallback.resolve_name(id),
        FallbackStep::Fail(e) => panic!("unexpected failure {e:?}"),
    };
    assert_eq!(resolve(1).as_deref(), Some("Name 1 from primary"));
    assert_eq!(resolve(2).as_deref(), Some("Name 2 from fallback"));
    assert_eq!(resolve(3), None);
    let failed = Fallback::<StaticLookup, StaticLookup>::after_primary(Err(Error::from_kind(ErrorKind::Transient)));
    assert!(matches!(failed, FallbackStep::Fail(e) if e.is_transient()));
}

#[test]
fn doorways_are_known_by_id() {
    let l = Doorway::lookup();
    assert_eq!(l.resolve_name(2).as_deref(), Some("Kodan Conjured Doorway"));
    assert_eq!(l.resolve_name(5).as_deref(), Some("Choya Piñata Conjured Doorway"));
    assert_eq!(l.resolve_name(3), None);
}

#[test]
fn fetcher_keeps_its_client() {
    let client = Arc::new(5u32);
    let f: Gw2LibFetcher<u32, true> = Gw2LibFetcher::new(client.clone());
    let g = f.clone();
    assert!(Arc::ptr_eq(f.client(), &client));
    assert!(Arc::ptr_eq(g.client(), &client));
}

#[test]
fn error_messages_name_the_request() {
    let e = Error::from_failure("v2/skins", "single(id=42)".to_string(), EndpointFailure::ApiStatus(503));
    assert_eq!(e.message(), "GET v2/skins single(id=42): Transient");
    assert_eq!(ErrorKind::NotFound.name(), "NotFound");
}

/// Runs scripted answers under a fetch retry policy, as the retry loop does; gives
/// the outcome and how many requests were made.
fn run_scripted(policy: &FetchRetry<()>, script: &[Result<&'static str, u16>]) -> (Result<&'static str, Error>, usize) {
    let mut calls = 0;
    let mut retries = 0;
    loop {
        let answer = script[calls];
        calls += 1;
        match answer {
            Ok(v) => return (Ok(v), calls),
            Err(status) => {
                let e = Error::from_failure("peekaboo", "id=42".to_string(), EndpointFailure::ApiStatus(status));
                if !policy.should_retry(retries, &e) {
                    return (Err(e), calls);
                }
                retries += 1;
            }
        }
    }
}

#[test]
fn scripted_retries_follow_the_policy() {
    let policy = FetchRetry::new(());
    assert!(matches!(run_scripted(&policy, &[Ok("peekaboo")]), (Ok("peekaboo"), 1)));
    assert!(matches!(run_scripted(&policy, &[Err(500), Ok("peekaboo")]), (Ok("peekaboo"), 2)));
    let one = FetchRetry::new(()).with_max_retries(1);
    assert!(matches!(run_scripted(&one, &[Err(500), Ok("peekaboo")]), (Ok("peekaboo"), 2)));
    let (r, calls) = run_scripted(&one, &[Err(500), Err(500)]);
    assert!(r.unwrap_err().is_transient());
    assert_eq!(calls, 2);
    let (r, calls) = run_scripted(&policy, &[Err(404)]);
    assert!(r.unwrap_err().is_not_found());
    assert_eq!(calls, 1);
    let (r, calls) = run_scripted(&policy, &[Err(500), Err(404)]);
    assert!(r.unwrap_err().is_not_found());
    assert_eq!(calls, 2);
    let permanent = Error::from_failure("peekaboo", "id=42".to_string(), EndpointFailure::Other);
    assert!(!policy.should_retry(0, &permanent));
    assert!(!permanent.is_transient());
}

#[test]
fn unknown_objects_are_named_unknown() {
    let not_found = Error::from_failure("v2/skins", "single(id=1)".to_string(), EndpointFailure::ApiStatus(404));
    assert_eq!(resolved_name(Err(not_found)).unwrap(), "Unknown");
    assert_eq!(resolved_name(Ok("Kodan Hood".to_string())).unwrap(), "Kodan Hood");
    let down = Error::from_failure("v2/skins", "single(id=1)".to_string(), EndpointFailure::ApiStatus(503));
    let e = resolved_name(Err(down)).unwrap_err();
    assert!(e.is_transient());
    assert_eq!(e.request(), "single(id=1)");
}
