use bugwatch_core::aggregate::{IssueStatus, IssueStore};
use bugwatch_core::clock::parse_declared_time;
use bugwatch_core::fingerprint::{generate_fingerprint, short_hash, ExceptionInfo, StackFrame};
use bugwatch_core::ingest::{
    event_grouping, extract_api_key, rate_gate, ErrorEvent, EventLevel, IngestError, IngestStore, Ingestor, SdkInfo,
};
use bugwatch_core::rate_limit::{RateLimitResult, RateLimiter, Tier};

fn frame(lineno: u32) -> StackFrame {
    StackFrame {
        filename: "app.js".to_string(),
        function: "handler".to_string(),
        lineno,
        colno: 0,
        abs_path: None,
        context_line: None,
        pre_context: None,
        post_context: None,
        in_app: true,
    }
}

fn event(id: &str, lineno: u32) -> ErrorEvent {
    ErrorEvent {
        event_id: id.to_string(),
        timestamp: "2024-05-01T12:00:00Z".to_string(),
        level: EventLevel::Error,
        message: None,
        exception: Some(ExceptionInfo {
            exception_type: "TypeError".to_string(),
            value: "Cannot read property 'x' of undefined".to_string(),
            stacktrace: vec![frame(lineno)],
        }),
        environment: "production".to_string(),
        release: None,
        server_name: None,
        sdk: SdkInfo { name: "bugwatch-js".to_string(), version: "1.0.0".to_string() },
        platform: "javascript".to_string(),
        runtime: None,
    }
}

fn message_event(id: &str, message: Option<&str>) -> ErrorEvent {
    let mut e = event(id, 1);
    e.exception = None;
    e.message = message.map(|m| m.to_string());
    e
}

#[test]
fn same_error_on_other_lines_lands_on_one_issue() {
    let mut store = IngestStore::new();
    let first = store.ingest_event_at("p1", &event("abc", 10), "{}".to_string(), 1_000, "issue-1", None);
    let second = store.ingest_event_at("p1", &event("abd", 42), "{}".to_string(), 2_000, "issue-2", None);
    assert_eq!(first.response.status, "accepted");
    assert_eq!(second.response.status, "accepted");
    assert!(first.new_issue.is_some());
    assert!(second.new_issue.is_none());
    assert_eq!(store.issues.len(), 1);
    let issue = store.issues.get(0);
    assert_eq!(issue.count, 2);
    assert_eq!(issue.id, "issue-1");
    assert_eq!(issue.first_seen, 1_000);
    assert_eq!(issue.last_seen, 2_000);
    assert_eq!(issue.title, "TypeError: Cannot read property 'x' of undefined");
    assert_eq!(issue.level, "error");
    assert_eq!(issue.status, IssueStatus::Unresolved);
    let ex1 = event("abc", 10).exception.unwrap();
    let ex2 = event("abc", 11).exception.unwrap();
    assert_eq!(generate_fingerprint(&ex1), generate_fingerprint(&ex2));
    assert_eq!(issue.fingerprint, generate_fingerprint(&ex1));
}

#[test]
fn resubmitted_event_is_a_duplicate() {
    let mut store = IngestStore::new();
    let first = store.ingest_event_at("p1", &event("abc", 10), "{}".to_string(), 1_000, "issue-1", None);
    let again = store.ingest_event_at("p1", &event("abc", 99), "{}".to_string(), 2_000, "issue-2", None);
    assert_eq!(first.response.status, "accepted");
    assert_eq!(again.response.status, "duplicate");
    assert_eq!(again.response.id, "abc");
    assert!(again.new_issue.is_none());
    assert_eq!(store.event_count(), 1);
    assert_eq!(store.issues.get(0).count, 1);
    assert!(store.has_event("abc"));
    assert!(!store.has_event("abd"));
}

#[test]
fn many_occurrences_of_a_new_key_make_one_issue() {
    let mut issues = IssueStore::new();
    let n: u64 = 25;
    let mut created = 0;
    for i in 0..n {
        let (issue, is_new) = issues.find_or_create("p", "fp", "t", "error", i as i64, &format!("id-{}", i));
        if is_new {
            created += 1;
        }
        assert_eq!(issue.count, i + 1);
    }
    assert_eq!(created, 1);
    assert_eq!(issues.len(), 1);
    assert_eq!(issues.get(0).count, n);
    issues.find_or_create("other-project", "fp", "t", "error", 0, "x");
    assert_eq!(issues.len(), 2);
}

#[test]
fn message_events_group_by_message() {
    let (fp, title) = event_grouping(&message_event("m1", Some("disk full")));
    assert_eq!(fp, short_hash("disk full"));
    assert_eq!(title, "disk full");
    let (fp2, title2) = event_grouping(&message_event("m2", None));
    assert_eq!(fp2, short_hash("(no message)"));
    assert_eq!(title2, "(no message)");
}

#[test]
fn declared_time_is_read_or_replaced() {
    assert_eq!(parse_declared_time("2024-01-01T00:00:00Z"), Some(1_704_067_200_000));
    assert_eq!(parse_declared_time("2024-01-01T00:00:00.500"), Some(1_704_067_200_500));
    assert_eq!(parse_declared_time("yesterday"), None);
    assert_eq!(parse_declared_time("2024-01-01T01:00:00+0100"), Some(1_704_067_200_000));
    assert_eq!(parse_declared_time("2024-01-01T00:00:00.250+00:00"), Some(1_704_067_200_250));
    assert_eq!(parse_declared_time("2024-01-01 00:00:01"), Some(1_704_067_201_000));
    assert_eq!(parse_declared_time("2024-01-01T00:00:02"), Some(1_704_067_202_000));
    let mut store = IngestStore::new();
    store.ingest_event("p", &event("t1", 1), "{}".to_string(), "i1");
    assert_eq!(store.events[0].timestamp, 1_714_564_800_000);
    let mut e = event("t2", 1);
    e.timestamp = "garbage".to_string();
    store.ingest_event_at("p", &e, "{}".to_string(), 77, "i2", parse_declared_time(&e.timestamp));
    assert_eq!(store.events[1].timestamp, 77);
    assert_eq!(store.events[1].issue_id, "i1");
}

#[test]
fn bearer_credentials() {
    assert_eq!(extract_api_key(Some("Bearer key-123")), Ok("key-123".to_string()));
    assert_eq!(extract_api_key(Some("Bearer Bearer k")), Ok("k".to_string()));
    assert!(matches!(extract_api_key(None), Err(IngestError::Unauthorized(_))));
    assert!(matches!(extract_api_key(Some("Basic abc")), Err(IngestError::Unauthorized(_))));
    assert!(matches!(extract_api_key(Some("Bear")), Err(IngestError::Unauthorized(_))));
}

#[test]
fn denied_check_becomes_rate_limit_error() {
    let ok = RateLimitResult { allowed: true, remaining: 3, limit: 5, retry_after_secs: None };
    assert_eq!(rate_gate(&ok), Ok(()));
    let denied = RateLimitResult { allowed: false, remaining: 0, limit: 5, retry_after_secs: Some(7) };
    assert_eq!(
        rate_gate(&denied),
        Err(IngestError::RateLimitExceeded { retry_after_secs: 7, limit: 5, remaining: 0 })
    );
    let no_delay = RateLimitResult { allowed: false, remaining: 0, limit: 5, retry_after_secs: None };
    assert_eq!(
        rate_gate(&no_delay),
        Err(IngestError::RateLimitExceeded { retry_after_secs: 60, limit: 5, remaining: 0 })
    );
}

#[test]
fn gates_run_before_the_store() {
    let mut ing = Ingestor { limiter: RateLimiter::new(), store: IngestStore::new() };
    let unknown = ing.handle_at("k", None, Tier::Free, &event("e0", 1), "{}".to_string(), 0, "i0", None);
    assert!(matches!(unknown, Err(IngestError::Unauthorized(_))));
    for i in 0..5 {
        let id = format!("e{}", i + 1);
        let r = ing.handle_at("k", Some("p"), Tier::Free, &event(&id, 1), "{}".to_string(), 0, "i1", None);
        assert_eq!(r.unwrap().response.status, "accepted");
    }
    let limited = ing.handle_at("k", Some("p"), Tier::Free, &event("e6", 1), "{}".to_string(), 0, "i1", None);
    assert!(matches!(limited, Err(IngestError::RateLimitExceeded { limit: 5, remaining: 0, .. })));
    assert_eq!(ing.store.event_count(), 5);
    let again = ing.handle_at("k2", Some("p"), Tier::Free, &event("e1", 1), "{}".to_string(), 0, "i9", None).unwrap();
    assert_eq!(again.response.status, "duplicate");
    assert!(again.new_issue.is_none());
    assert_eq!(ing.store.issues.get(0).count, 5);
}

#[test]
fn status_changes_only_by_request() {
    let mut issues = IssueStore::new();
    issues.find_or_create("p", "fp", "t", "error", 0, "i1");
    issues.set_status(0, IssueStatus::Resolved);
    let (again, is_new) = issues.find_or_create("p", "fp", "t", "error", 5, "i2");
    assert!(!is_new);
    assert_eq!(again.status, IssueStatus::Resolved);
    assert_eq!(again.count, 2);
    issues.set_status(0, IssueStatus::Ignored);
    assert_eq!(issues.get(0).status, IssueStatus::Ignored);
}

#[test]
fn error_responses_carry_status_code_and_headers() {
    let rate = IngestError::RateLimitExceeded { retry_after_secs: 12, limit: 5, remaining: 0 };
    assert_eq!(rate.status(), 429);
    assert_eq!(rate.code(), "rate_limit_exceeded");
    assert_eq!(rate.caller_message(), "Rate limit exceeded. Try again in 12 seconds.");
    assert_eq!(rate.rate_limit_headers(), Some((12, 5, 0)));
    let unauth = IngestError::Unauthorized("Invalid API key".to_string());
    assert_eq!(unauth.status(), 401);
    assert_eq!(unauth.code(), "unauthorized");
    assert_eq!(unauth.caller_message(), "Invalid API key");
    assert_eq!(unauth.rate_limit_headers(), None);
    let internal = IngestError::Internal("db down at 10.0.0.3".to_string());
    assert_eq!(internal.status(), 500);
    assert_eq!(internal.code(), "internal_error");
    assert_eq!(internal.caller_message(), "An internal error occurred");
    let invalid = IngestError::Validation("missing event_id".to_string());
    assert_eq!(invalid.status(), 422);
    assert_eq!(invalid.code(), "validation_error");
}
