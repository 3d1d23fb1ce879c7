//! The ingestion path: credential, rate limit, duplicate check, grouping, aggregation and
//! storage of one reported event.
use vstd::prelude::*;
use vstd::string::*;
use crate::aggregate::{aggregated, key_present, landed, Issue, IssueStore, IssueView};
use crate::clock::{declared_millis, now_millis, parse_declared_time};
use crate::fingerprint::{
    fingerprint_of, generate_fingerprint, generate_title, short_digest, short_hash, title_of, ExceptionInfo,
};
use crate::rate_limit::{bucket_for, consume_result, consumed, RateLimitResult, RateLimiter, Tier};
use crate::digest::is_hex_text;
use crate::text::{copy_str, decimal, str_eq, to_decimal};

verus! {

/// Severity of a reported event.
#[derive(Debug, Clone, Copy, PartialEq, Eq, Structural)]
pub enum EventLevel {
    Fatal,
    Error,
    Warning,
    Info,
    Debug,
}

pub open spec fn level_text(l: EventLevel) -> Seq<char> {
    match l {
        EventLevel::Fatal => "fatal"@,
        EventLevel::Error => "error"@,
        EventLevel::Warning => "warning"@,
        EventLevel::Info => "info"@,
        EventLevel::Debug => "debug"@,
    }
}

impl EventLevel {
    /// The level's lowercase name.
    pub fn as_str(&self) -> (r: &'static str)
        ensures
            r@ == level_text(*self),
    {
        match self {
            EventLevel::Fatal => "fatal",
            EventLevel::Error => "error",
            EventLevel::Warning => "warning",
            EventLevel::Info => "info",
            EventLevel::Debug => "debug",
        }
    }
}

/// The SDK that sent an event.
pub struct SdkInfo {
    pub name: String,
    pub version: String,
}

/// The runtime an event came from.
pub struct RuntimeInfo {
    pub name: String,
    pub version: String,
}

/// The parts of a reported event that ingestion reads.
pub struct ErrorEvent {
    /// Chosen by the client, unique across all events.
    pub event_id: String,
    /// The time the client declares, as text.
    pub timestamp: String,
    pub level: EventLevel,
    pub message: Option<String>,
    pub exception: Option<ExceptionInfo>,
    pub environment: String,
    pub release: Option<String>,
    pub server_name: Option<String>,
    pub sdk: SdkInfo,
    pub platform: String,
    pub runtime: Option<RuntimeInfo>,
}

/// What the caller of ingestion receives on success.
pub struct IngestResponse {
    pub id: String,
    /// `accepted`, or `duplicate` for an event id already stored.
    pub status: String,
}

/// Why an ingestion request fails.
#[derive(Debug, Clone, PartialEq, Eq)]
pub enum IngestError {
    Unauthorized(String),
    RateLimitExceeded { retry_after_secs: u32, limit: u32, remaining: u32 },
    Validation(String),
    Internal(String),
}

/// The HTTP status of an ingestion error.
pub open spec fn status_of(e: IngestError) -> u16 {
    match e {
        IngestError::Unauthorized(_) => 401,
        IngestError::RateLimitExceeded { .. } => 429,
        IngestError::Validation(_) => 422,
        IngestError::Internal(_) => 500,
    }
}

/// The stable code of an ingestion error, which clients key their retries on.
pub open spec fn code_of(e: IngestError) -> Seq<char> {
    match e {
        IngestError::Unauthorized(_) => "unauthorized"@,
        IngestError::RateLimitExceeded { .. } => "rate_limit_exceeded"@,
        IngestError::Validation(_) => "validation_error"@,
        IngestError::Internal(_) => "internal_error"@,
    }
}

/// What the caller is told: the detail of an internal error is withheld.
pub open spec fn caller_message_of(e: IngestError) -> Seq<char> {
    match e {
        IngestError::Unauthorized(m) => m@,
        IngestError::RateLimitExceeded { retry_after_secs, .. } => "Rate limit exceeded. Try again in "@ + decimal(
            retry_after_secs as nat,
        ) + " seconds."@,
        IngestError::Validation(m) => m@,
        IngestError::Internal(_) => "An internal error occurred"@,
    }
}

impl IngestError {
    pub fn status(&self) -> (r: u16)
        ensures
            r == status_of(*self),
    {
        match self {
            IngestError::Unauthorized(_) => 401,
            IngestError::RateLimitExceeded { .. } => 429,
            IngestError::Validation(_) => 422,
            IngestError::Internal(_) => 500,
        }
    }

    pub fn code(&self) -> (r: &'static str)
        ensures
            r@ == code_of(*self),
    {
        match self {
            IngestError::Unauthorized(_) => "unauthorized",
            IngestError::RateLimitExceeded { .. } => "rate_limit_exceeded",
            IngestError::Validation(_) => "validation_error",
            IngestError::Internal(_) => "internal_error",
        }
    }

    pub fn caller_message(&self) -> (r: String)
        ensures
            r@ == caller_message_of(*self),
    {
        match self {
            IngestError::Unauthorized(m) => m.clone(),
            IngestError::RateLimitExceeded { retry_after_secs, .. } => {
                let mut s = copy_str("Rate limit exceeded. Try again in ");
                let n = to_decimal(*retry_after_secs as u64);
                s.append(n.as_str());
                s.append(" seconds.");
                s
            },
            IngestError::Validation(m) => m.clone(),
            IngestError::Internal(_) => "An internal error occurred".to_string(),
        }
    }

    /// `Retry-After`, `X-RateLimit-Limit` and `X-RateLimit-Remaining`, for a rate-limit error.
    pub fn rate_limit_headers(&self) -> (r: Option<(u32, u32, u32)>)
        ensures
            match *self {
                IngestError::RateLimitExceeded { retry_after_secs, limit, remaining } => r == Some(
                    (retry_after_secs, limit, remaining),
                ),
                _ => r is None,
            },
    {
        match self {
            IngestError::RateLimitExceeded { retry_after_secs, limit, remaining } => Some(
                (*retry_after_secs, *limit, *remaining),
            ),
            _ => None,
        }
    }
}

/// The text after every leading `Bearer ` is taken off.
pub open spec fn strip_bearer(s: Seq<char>) -> Seq<char>
    decreases s.len(),
{
    if s.len() >= 7 && s.take(7) == "Bearer "@ {
        strip_bearer(s.skip(7))
    } else {
        s
    }
}

/// The credential of an `Authorization` header value, if the header is a bearer one.
pub open spec fn credential_of(header: Option<Seq<char>>) -> Option<Seq<char>> {
    match header {
        Some(h) => if h.len() >= 7 && h.take(7) == "Bearer "@ {
            Some(strip_bearer(h))
        } else {
            None
        },
        None => None,
    }
}

fn starts_with_bearer(s: &str) -> (r: bool)
    ensures
        r == (s@.len() >= 7 && s@.take(7) == "Bearer "@),
{
    proof {
        reveal_strlit("Bearer ");
    }
    let n = s.unicode_len();
    if n < 7 {
        return false;
    }
    let head = s.substring_char(0, 7);
    str_eq(head, "Bearer ")
}

/// Reads the credential of an `Authorization` header: missing, or not a bearer token, it is
/// refused as unauthorized.
pub fn extract_api_key(header: Option<&str>) -> (r: Result<String, IngestError>)
    ensures
        match credential_of(
            match header {
                Some(h) => Some(h@),
                None => None,
            },
        ) {
            Some(k) => (r matches Ok(key) && key@ == k),
            None => (r matches Err(IngestError::Unauthorized(_))),
        },
{
    match header {
        None => Err(IngestError::Unauthorized("Missing Authorization header".to_string())),
        Some(h) => {
            if !starts_with_bearer(h) {
                return Err(IngestError::Unauthorized("Authorization header must be Bearer token".to_string()));
            }
            let mut rest = h;
            while starts_with_bearer(rest)
                invariant
                    strip_bearer(rest@) == strip_bearer(h@),
                decreases rest@.len(),
            {
                let n = rest.unicode_len();
                rest = rest.substring_char(7, n);
            }
            Ok(copy_str(rest))
        },
    }
}

/// The error of a denied rate-limit check; a denial without a delay asks for sixty seconds.
pub open spec fn rate_error(r: RateLimitResult) -> IngestError {
    IngestError::RateLimitExceeded {
        retry_after_secs: match r.retry_after_secs {
            Some(s) => s,
            None => 60,
        },
        limit: r.limit,
        remaining: r.remaining,
    }
}

/// Lets an allowed check through and turns a denied one into its error.
pub fn rate_gate(r: &RateLimitResult) -> (out: Result<(), IngestError>)
    ensures
        r.allowed ==> out is Ok,
        !r.allowed ==> out == Err::<(), IngestError>(rate_error(*r)),
{
    if r.allowed {
        Ok(())
    } else {
        Err(IngestError::RateLimitExceeded {
            retry_after_secs: match r.retry_after_secs {
                Some(s) => s,
                None => 60,
            },
            limit: r.limit,
            remaining: r.remaining,
        })
    }
}

/// The message of an event without an exception; `(no message)` when it has none.
pub open spec fn message_or_default(m: Option<String>) -> Seq<char> {
    match m {
        Some(s) => s@,
        None => "(no message)"@,
    }
}

/// The grouping key and title of an event: from its exception, or else from its message.
pub open spec fn grouping_of(e: ErrorEvent) -> (Seq<char>, Seq<char>) {
    match e.exception {
        Some(x) => (fingerprint_of(x), title_of(x)),
        None => (short_digest(message_or_default(e.message)), message_or_default(e.message)),
    }
}

/// Computes the grouping key and title of an event.
pub fn event_grouping(event: &ErrorEvent) -> (r: (String, String))
    ensures
        r.0@ == grouping_of(*event).0,
        r.0@.len() == 16,
        is_hex_text(r.0@),
        r.1@ == grouping_of(*event).1,
{
    match &event.exception {
        Some(x) => (generate_fingerprint(x), generate_title(x)),
        None => {
            let msg: &str = match &event.message {
                Some(m) => m.as_str(),
                None => "(no message)",
            };
            (short_hash(msg), copy_str(msg))
        },
    }
}

/// A stored event, owned by one issue.
pub struct StoredEvent {
    pub event_id: String,
    pub issue_id: String,
    pub timestamp: i64,
    pub payload: String,
}

pub ghost struct StoredEventView {
    pub event_id: Seq<char>,
    pub issue_id: Seq<char>,
    pub timestamp: i64,
    pub payload: Seq<char>,
}

impl View for StoredEvent {
    type V = StoredEventView;

    open spec fn view(&self) -> StoredEventView {
        StoredEventView {
            event_id: self.event_id@,
            issue_id: self.issue_id@,
            timestamp: self.timestamp,
            payload: self.payload@,
        }
    }
}

pub open spec fn event_stored(events: Seq<StoredEventView>, id: Seq<char>) -> bool {
    exists|i: int| 0 <= i < events.len() && (#[trigger] events[i]).event_id == id
}

/// The time an event is stored under: the declared one if it could be read, else `now`.
pub open spec fn stored_time(declared: Option<i64>, now: i64) -> i64 {
    match declared {
        Some(t) => t,
        None => now,
    }
}

/// Issues and the events stored against them.
pub struct IngestStore {
    pub issues: IssueStore,
    pub events: Vec<StoredEvent>,
}

/// What one ingestion did: the response, and the issue if the event created it.
pub struct IngestOutcome {
    pub response: IngestResponse,
    pub new_issue: Option<Issue>,
}

/// The store after one event: unchanged for an event id already stored; else the event is
/// counted into the issues of the project and stored against the issue it landed on.
pub open spec fn ingested(
    issues: Seq<IssueView>,
    events: Seq<StoredEventView>,
    project: Seq<char>,
    e: ErrorEvent,
    payload: Seq<char>,
    now: i64,
    new_id: Seq<char>,
    declared: Option<i64>,
) -> (Seq<IssueView>, Seq<StoredEventView>) {
    if event_stored(events, e.event_id@) {
        (issues, events)
    } else {
        let (fp, title) = grouping_of(e);
        let level = level_text(e.level);
        let issue = landed(issues, project, fp, title, level, now, new_id);
        (
            aggregated(issues, project, fp, title, level, now, new_id),
            events.push(
                StoredEventView {
                    event_id: e.event_id@,
                    issue_id: issue.id,
                    timestamp: stored_time(declared, now),
                    payload,
                },
            ),
        )
    }
}

/// What ingestion answers: the event's id; `duplicate` and no issue for an id already
/// stored; else `accepted`, with the issue exactly when the event created it.
pub open spec fn outcome_of(
    r: IngestOutcome,
    issues: Seq<IssueView>,
    events: Seq<StoredEventView>,
    project: Seq<char>,
    e: ErrorEvent,
    now: i64,
    new_id: Seq<char>,
) -> bool {
    &&& r.response.id@ == e.event_id@
    &&& event_stored(events, e.event_id@) ==> r.response.status@ == "duplicate"@ && r.new_issue is None
    &&& !event_stored(events, e.event_id@) ==> r.response.status@ == "accepted"@
    &&& !event_stored(events, e.event_id@) ==> match r.new_issue {
        Some(i) => !key_present(issues, project, grouping_of(e).0) && i@ == landed(
            issues,
            project,
            grouping_of(e).0,
            grouping_of(e).1,
            level_text(e.level),
            now,
            new_id,
        ),
        None => key_present(issues, project, grouping_of(e).0),
    }
}

impl IngestStore {
    pub closed spec fn events_view(&self) -> Seq<StoredEventView> {
        self.events@.map_values(|e: StoredEvent| e@)
    }

    pub open spec fn wf(&self) -> bool {
        self.issues.wf()
    }

    pub fn new() -> (r: IngestStore)
        ensures
            r.wf(),
            r.issues.view() == Seq::<IssueView>::empty(),
            r.events_view() == Seq::<StoredEventView>::empty(),
    {
        let r = IngestStore { issues: IssueStore::new(), events: Vec::new() };
        proof {
            assert(r.events_view() =~= Seq::<StoredEventView>::empty());
        }
        r
    }

    pub fn event_count(&self) -> (r: usize)
        ensures
            r == self.events_view().len(),
    {
        self.events.len()
    }

    /// Whether an event with this id is stored.
    pub fn has_event(&self, event_id: &str) -> (r: bool)
        ensures
            r == event_stored(self.events_view(), event_id@),
    {
        let mut i: usize = 0;
        while i < self.events.len()
            invariant
                i <= self.events@.len(),
                forall|j: int| 0 <= j < i ==> (#[trigger] self.events_view()[j]).event_id != event_id@,
            decreases self.events@.len() - i,
        {
            if str_eq(self.events[i].event_id.as_str(), event_id) {
                proof {
                    assert(self.events_view()[i as int].event_id == event_id@);
                }
                return true;
            }
            i += 1;
        }
        false
    }

    /// Ingests one event of a project at `now`. `new_id` names the issue if one is made;
    /// `declared` is the event's own time, if it could be read.
    pub fn ingest_event_at(
        &mut self,
        project_id: &str,
        event: &ErrorEvent,
        payload: String,
        now: i64,
        new_id: &str,
        declared: Option<i64>,
    ) -> (r: IngestOutcome)
        requires
            old(self).wf(),
        ensures
            final(self).wf(),
            (final(self).issues.view(), final(self).events_view()) == ingested(
                old(self).issues.view(),
                old(self).events_view(),
                project_id@,
                *event,
                payload@,
                now,
                new_id@,
                declared,
            ),
            outcome_of(r, old(self).issues.view(), old(self).events_view(), project_id@, *event, now, new_id@),
    {
        if self.has_event(event.event_id.as_str()) {
            return IngestOutcome {
                response: IngestResponse { id: event.event_id.clone(), status: "duplicate".to_string() },
                new_issue: None,
            };
        }
        let (fingerprint, title) = event_grouping(event);
        let level = event.level.as_str();
        let (issue, is_new) = self.issues.find_or_create(
            project_id,
            fingerprint.as_str(),
            title.as_str(),
            level,
            now,
            new_id,
        );
        let timestamp = match declared {
            Some(t) => t,
            None => now,
        };
        let ghost before = self.events_view();
        self.events.push(
            StoredEvent { event_id: event.event_id.clone(), issue_id: issue.id.clone(), timestamp, payload },
        );
        proof {
            assert(self.events_view() =~= before.push(self.events@.last()@));
        }
        let new_issue = if is_new {
            Some(issue)
        } else {
            None
        };
        IngestOutcome {
            response: IngestResponse { id: event.event_id.clone(), status: "accepted".to_string() },
            new_issue,
        }
    }

    /// Ingests one event of a project now, reading its declared time and naming a new issue
    /// with `new_id`.
    pub fn ingest_event(&mut self, project_id: &str, event: &ErrorEvent, payload: String, new_id: &str) -> (r:
        IngestOutcome)
        requires
            old(self).wf(),
        ensures
            final(self).wf(),
            exists|now: i64|
                {
                    &&& (final(self).issues.view(), final(self).events_view()) == #[trigger] ingested(
                        old(self).issues.view(),
                        old(self).events_view(),
                        project_id@,
                        *event,
                        payload@,
                        now,
                        new_id@,
                        declared_millis(event.timestamp@),
                    )
                    &&& outcome_of(r, old(self).issues.view(), old(self).events_view(), project_id@, *event, now, new_id@)
                },
    {
        let declared = parse_declared_time(event.timestamp.as_str());
        let now = now_millis();
        self.ingest_event_at(project_id, event, payload, now, new_id, declared)
    }
}

/// Submitting an event whose id is already stored changes nothing, whatever else differs:
/// so an event sent twice is stored and counted once, and the second submission is reported
/// as a duplicate.
pub proof fn lemma_resubmission_is_absorbed(
    issues: Seq<IssueView>,
    events: Seq<StoredEventView>,
    project: Seq<char>,
    e: ErrorEvent,
    payload: Seq<char>,
    now: i64,
    new_id: Seq<char>,
    declared: Option<i64>,
    project2: Seq<char>,
    payload2: Seq<char>,
    now2: i64,
    new_id2: Seq<char>,
    declared2: Option<i64>,
)
    ensures
        ({
            let (i1, e1) = ingested(issues, events, project, e, payload, now, new_id, declared);
            &&& event_stored(e1, e.event_id@)
            &&& ingested(i1, e1, project2, e, payload2, now2, new_id2, declared2) == (i1, e1)
        }),
{
    let (i1, e1) = ingested(issues, events, project, e, payload, now, new_id, declared);
    if !event_stored(events, e.event_id@) {
        assert(e1[events.len() as int].event_id == e.event_id@);
    }
}

/// Ingestion with its gates: the project that the credential resolved to (none: refused
/// as unauthorized), then the rate limit of the credential under its tier, then the store.
pub struct Ingestor {
    pub limiter: RateLimiter,
    pub store: IngestStore,
}

impl Ingestor {
    /// Handles one request at `now`. `project_id` is what the credential resolved to and
    /// `tier` the tier of its organization.
    pub fn handle_at(
        &mut self,
        api_key: &str,
        project_id: Option<&str>,
        tier: Tier,
        event: &ErrorEvent,
        payload: String,
        now: i64,
        new_id: &str,
        declared: Option<i64>,
    ) -> (r: Result<IngestOutcome, IngestError>)
        requires
            old(self).store.wf(),
        ensures
            final(self).store.wf(),
            project_id is None ==> (r matches Err(IngestError::Unauthorized(_))),
            project_id is None ==> final(self).limiter.view() == old(self).limiter.view()
                && final(self).store.issues.view() == old(self).store.issues.view()
                && final(self).store.events_view() == old(self).store.events_view(),
            project_id is Some ==> ({
                let b = bucket_for(old(self).limiter.view(), api_key@, tier, now);
                &&& final(self).limiter.view() == old(self).limiter.view().insert(api_key@, consumed(b, now))
                &&& !consume_result(b, now).allowed ==> r == Err::<IngestOutcome, IngestError>(
                    rate_error(consume_result(b, now)),
                ) && final(self).store.issues.view() == old(self).store.issues.view()
                    && final(self).store.events_view() == old(self).store.events_view()
                &&& consume_result(b, now).allowed ==> (r matches Ok(o) && outcome_of(
                    o,
                    old(self).store.issues.view(),
                    old(self).store.events_view(),
                    project_id->0@,
                    *event,
                    now,
                    new_id@,
                ))
                &&& consume_result(b, now).allowed ==> (
                    final(self).store.issues.view(),
                    final(self).store.events_view(),
                ) == ingested(
                    old(self).store.issues.view(),
                    old(self).store.events_view(),
                    project_id->0@,
                    *event,
                    payload@,
                    now,
                    new_id@,
                    declared,
                )
            }),
    {
        handle_request(&mut self.limiter, &mut self.store, api_key, project_id, tier, event, payload, now, new_id, declared)
    }
}

/// Handles one request at `now`: the project that the credential resolved to (none:
/// refused as unauthorized), then the rate limit of the credential under its tier, then the
/// store. `limiter` may be the shard of a larger limiter that holds the credential's key.
pub fn handle_request(
    limiter: &mut RateLimiter,
    store: &mut IngestStore,
    api_key: &str,
    project_id: Option<&str>,
    tier: Tier,
    event: &ErrorEvent,
    payload: String,
    now: i64,
    new_id: &str,
    declared: Option<i64>,
) -> (r: Result<IngestOutcome, IngestError>)
    requires
        old(store).wf(),
    ensures
        final(store).wf(),
        project_id is None ==> (r matches Err(IngestError::Unauthorized(_))),
        project_id is None ==> final(limiter).view() == old(limiter).view()
            && final(store).issues.view() == old(store).issues.view()
            && final(store).events_view() == old(store).events_view(),
        project_id is Some ==> ({
            let b = bucket_for(old(limiter).view(), api_key@, tier, now);
            &&& final(limiter).view() == old(limiter).view().insert(api_key@, consumed(b, now))
            &&& !consume_result(b, now).allowed ==> r == Err::<IngestOutcome, IngestError>(
                rate_error(consume_result(b, now)),
            ) && final(store).issues.view() == old(store).issues.view()
                && final(store).events_view() == old(store).events_view()
            &&& consume_result(b, now).allowed ==> (r matches Ok(o) && outcome_of(
                o,
                old(store).issues.view(),
                old(store).events_view(),
                project_id->0@,
                *event,
                now,
                new_id@,
            ))
            &&& consume_result(b, now).allowed ==> (
                final(store).issues.view(),
                final(store).events_view(),
            ) == ingested(
                old(store).issues.view(),
                old(store).events_view(),
                project_id->0@,
                *event,
                payload@,
                now,
                new_id@,
                declared,
            )
        }),
{
    let project = match project_id {
        Some(p) => p,
        None => {
            return Err(IngestError::Unauthorized("Invalid API key".to_string()));
        },
    };
    let checked = limiter.check_at(api_key, tier, now);
    match rate_gate(&checked) {
        Err(e) => Err(e),
        Ok(()) => Ok(store.ingest_event_at(project, event, payload, now, new_id, declared)),
    }
}

} // verus!
