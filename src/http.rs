//! The decisions of the request pipeline: which outcomes are retried, how an
//! HTTP status becomes an error, and what a dry run does instead of sending.

use vstd::prelude::*;
use std::time::Duration;
use backoff::backoff::Backoff;
use backoff::ExponentialBackoff;
use crate::error::AppError;
use crate::text::{decimal, joined, u64_text};

verus! {

/// `backoff::exponential::ExponentialBackoff`, held opaque: the retry state
/// that the delays between attempts come from.
#[verifier::external_type_specification]
#[verifier::external_body]
#[verifier::reject_recursive_types(C)]
pub struct ExExponentialBackoff<C>(backoff::exponential::ExponentialBackoff<C>);

/// `backoff::SystemClock`, held opaque: the clock of that retry state.
#[verifier::external_type_specification]
#[verifier::external_body]
pub struct ExSystemClock(backoff::SystemClock);

/// The ceiling on the time spent retrying one request, in milliseconds.
pub const RETRY_CEILING_MS: u64 = 30000;

/// Relies on `ExponentialBackoffBuilder::with_max_elapsed_time` and `build`: a
/// backoff that gives exponentially growing delays until `max_elapsed_ms` have
/// passed since it was built.
#[verifier::external_body]
fn backoff_with_ceiling(max_elapsed_ms: u64) -> (r: ExponentialBackoff) {
    backoff::ExponentialBackoffBuilder::new().with_max_elapsed_time(
        Some(Duration::from_millis(max_elapsed_ms)),
    ).build()
}

/// Relies on `Backoff::next_backoff` of `ExponentialBackoff`: the next delay in
/// milliseconds, or `None` once the elapsed-time ceiling is passed. The delay is
/// random and depends on the clock, so nothing is promised of it.
#[verifier::external_body]
fn next_delay_ms(b: &mut ExponentialBackoff) -> (r: Option<u64>) {
    match b.next_backoff() {
        Some(d) => Some(d.as_millis() as u64),
        None => None,
    }
}

/// What one attempt at a request came to.
#[derive(Debug, Clone)]
pub enum AttemptOutcome {
    /// The server answered with this status.
    Response(u16),
    /// No answer; `transient` where the failure was a timeout or a failed
    /// connection.
    Transport { transient: bool, message: String },
}

/// What the pipeline does after an attempt.
#[derive(Debug, Clone)]
pub enum RetryStep {
    /// Take the response with this status.
    Accept(u16),
    /// Wait this many milliseconds, then try again.
    RetryAfter(u64),
    /// Give up with this error.
    Fail(AppError),
}

pub open spec fn is_transient_status(status: u16) -> bool {
    status == 502 || status == 503 || status == 504
}

/// Gateway errors, timeouts and failed connections are worth another attempt.
pub open spec fn is_transient(o: AttemptOutcome) -> bool {
    match o {
        AttemptOutcome::Response(s) => is_transient_status(s),
        AttemptOutcome::Transport { transient, .. } => transient,
    }
}

/// The message of the network error that ends a request.
pub open spec fn failure_message(o: AttemptOutcome) -> Seq<char> {
    match o {
        AttemptOutcome::Response(s) => "Server error: "@ + decimal(s as nat) + " (retries exhausted)"@,
        AttemptOutcome::Transport { message, .. } => "Request failed: "@ + message@,
    }
}

/// The step taken after outcome `o`, given the next delay that the backoff
/// offers for a transient outcome (`None` once the ceiling is reached).
pub open spec fn step_for(o: AttemptOutcome, delay: Option<u64>, r: RetryStep) -> bool {
    match o {
        AttemptOutcome::Response(s) if !is_transient_status(s) => r == RetryStep::Accept(s),
        _ => if is_transient(o) && delay is Some {
            r == RetryStep::RetryAfter(delay.unwrap())
        } else {
            match r {
                RetryStep::Fail(AppError::Network { message, hint }) => message@ == failure_message(
                    o,
                ) && hint is None,
                _ => false,
            }
        },
    }
}

/// The step after outcome `o`, where `delay` is what the backoff offered.
pub fn decide(o: &AttemptOutcome, delay: Option<u64>) -> (r: RetryStep)
    ensures
        step_for(*o, delay, r),
{
    match o {
        AttemptOutcome::Response(s) => {
            if *s != 502 && *s != 503 && *s != 504 {
                return RetryStep::Accept(*s);
            }
            match delay {
                Some(d) => RetryStep::RetryAfter(d),
                None => {
                    let m = joined(
                        joined("Server error: ", u64_text(*s as u64).as_str()).as_str(),
                        " (retries exhausted)",
                    );
                    RetryStep::Fail(AppError::network(m.as_str()))
                },
            }
        },
        AttemptOutcome::Transport { transient, message } => {
            let m = joined("Request failed: ", message.as_str());
            if *transient {
                match delay {
                    Some(d) => RetryStep::RetryAfter(d),
                    None => RetryStep::Fail(AppError::network(m.as_str())),
                }
            } else {
                RetryStep::Fail(AppError::network(m.as_str()))
            }
        },
    }
}

/// The retry state of one logical request: a backoff bounded by
/// `RETRY_CEILING_MS` and the number of attempts seen.
pub struct RetrySession {
    pub backoff: ExponentialBackoff,
    pub attempts: u64,
}

impl RetrySession {
    pub fn new() -> (r: RetrySession)
        ensures
            r.attempts == 0,
    {
        RetrySession { backoff: backoff_with_ceiling(RETRY_CEILING_MS), attempts: 0 }
    }

    /// Records an attempt and says what to do next. Only a transient outcome
    /// consults the backoff; whatever delay it offers, the step is the one
    /// `step_for` gives for it.
    pub fn on_outcome(&mut self, o: &AttemptOutcome) -> (r: RetryStep)
        ensures
            final(self).attempts == if old(self).attempts < u64::MAX {
                old(self).attempts + 1
            } else {
                old(self).attempts as int
            },
            !is_transient(*o) ==> step_for(*o, None, r),
            is_transient(*o) ==> exists|d: Option<u64>| step_for(*o, d, r),
    {
        if self.attempts < u64::MAX {
            self.attempts = self.attempts + 1;
        }
        let transient = match o {
            AttemptOutcome::Response(s) => *s == 502 || *s == 503 || *s == 504,
            AttemptOutcome::Transport { transient, .. } => *transient,
        };
        if transient {
            let d = next_delay_ms(&mut self.backoff);
            decide(o, d)
        } else {
            decide(o, None)
        }
    }
}

/// Transient outcomes while the backoff still offers delays are retried, and
/// the first lasting response after them is accepted, once.
pub proof fn lemma_retry_then_accept(
    outcomes: Seq<AttemptOutcome>,
    delays: Seq<Option<u64>>,
    steps: Seq<RetryStep>,
    status: u16,
)
    requires
        outcomes.len() == delays.len() == steps.len(),
        outcomes.len() > 0,
        forall|i: int| 0 <= i < outcomes.len() ==> step_for(outcomes[i], delays[i], #[trigger] steps[i]),
        forall|i: int|
            0 <= i < outcomes.len() - 1 ==> is_transient(#[trigger] outcomes[i]) && delays[i] is Some,
        outcomes.last() == AttemptOutcome::Response(status),
        !is_transient_status(status),
    ensures
        forall|i: int| 0 <= i < steps.len() - 1 ==> (#[trigger] steps[i]) is RetryAfter,
        steps.last() == RetryStep::Accept(status),
{
    assert forall|i: int| 0 <= i < steps.len() - 1 implies (#[trigger] steps[i]) is RetryAfter by {
        assert(step_for(outcomes[i], delays[i], steps[i]));
        assert(is_transient(outcomes[i]));
    }
    assert(step_for(outcomes[outcomes.len() - 1], delays[outcomes.len() - 1], steps[outcomes.len() - 1]));
}

/// A transient outcome once the backoff has no delay left ends the request
/// with a network error.
pub proof fn lemma_retry_exhausted(o: AttemptOutcome, r: RetryStep)
    requires
        is_transient(o),
        step_for(o, None, r),
    ensures
        r matches RetryStep::Fail(AppError::Network { .. }),
{
}

/// What a 404 names: the kind of resource, the identifier asked for, and a
/// hint pointing at the matching list command.
#[derive(Debug, Clone)]
pub struct NotFoundContext {
    pub resource: String,
    pub id: String,
    pub hint: String,
}

pub open spec fn is_success(status: u16) -> bool {
    200 <= status < 300
}

/// The error, if any, that a response with `status` and `body` stands for. A
/// 404 is always a not-found error: it names the looked-up resource where
/// there is one, else the request path.
pub open spec fn status_maps_to(
    status: u16,
    context: Option<NotFoundContext>,
    path: Seq<char>,
    body: Seq<char>,
    r: Option<AppError>,
) -> bool {
    if is_success(status) {
        r is None
    } else if status == 401 {
        r is Some && r->Some_0 is Auth && r->Some_0->Auth_message@
            == "Invalid API key or unauthorized"@ && crate::error::opt_view(r->Some_0->Auth_hint)
            == Some("Check your API key with `rdm config show` or set REDMINE_API_KEY."@)
    } else if status == 403 {
        r is Some && r->Some_0 is Auth && r->Some_0->Auth_message@
            == "Access forbidden - check your permissions"@ && r->Some_0->Auth_hint is None
    } else if status == 404 && context is Some {
        r is Some && r->Some_0 is NotFound && r->Some_0->NotFound_resource@
            == context.unwrap().resource@ && r->Some_0->NotFound_id@ == context.unwrap().id@
            && crate::error::opt_view(r->Some_0->NotFound_hint) == Some(context.unwrap().hint@)
    } else if status == 404 {
        r is Some && r->Some_0 is NotFound && r->Some_0->NotFound_resource@ == "Resource"@
            && r->Some_0->NotFound_id@ == path && r->Some_0->NotFound_hint is None
    } else {
        r is Some && r->Some_0 is Api && r->Some_0->Api_message@ == "API request failed: "@
            + decimal(status as nat) + " - "@ + body && r->Some_0->Api_status == Some(status)
            && r->Some_0->Api_hint is None
    }
}

/// The lookup context of one issue: resource `Issue`, the decimal ID, and a
/// hint at the issue list.
pub fn issue_not_found(id: u32) -> (r: NotFoundContext)
    ensures
        r.resource@ == "Issue"@,
        r.id@ == decimal(id as nat),
        r.hint@ == "Use `rdm issue list` to find available issues."@,
{
    NotFoundContext {
        resource: String::from_str("Issue"),
        id: u64_text(id as u64),
        hint: String::from_str("Use `rdm issue list` to find available issues."),
    }
}

/// The lookup context of one time entry.
pub fn time_entry_not_found(id: u32) -> (r: NotFoundContext)
    ensures
        r.resource@ == "Time entry"@,
        r.id@ == decimal(id as nat),
        r.hint@ == "Use `rdm time list` to find available time entries."@,
{
    NotFoundContext {
        resource: String::from_str("Time entry"),
        id: u64_text(id as u64),
        hint: String::from_str("Use `rdm time list` to find available time entries."),
    }
}

/// The lookup context of one project, by ID or identifier.
pub fn project_not_found(id_or_identifier: &str) -> (r: NotFoundContext)
    ensures
        r.resource@ == "Project"@,
        r.id@ == id_or_identifier@,
        r.hint@ == "Use `rdm project list` to see available projects."@,
{
    NotFoundContext {
        resource: String::from_str("Project"),
        id: id_or_identifier.to_owned(),
        hint: String::from_str("Use `rdm project list` to see available projects."),
    }
}

/// The error that a response to a request for `path` stands for: 401 and
/// 403 are authentication errors, 404 is a missing resource, any other status
/// outside 2xx is an API error carrying the status and the body.
pub fn status_error(
    status: u16,
    context: Option<&NotFoundContext>,
    path: &str,
    body: &str,
) -> (r: Option<AppError>)
    ensures
        status_maps_to(
            status,
            match context {
                Some(c) => Some(*c),
                None => None,
            },
            path@,
            body@,
            r,
        ),
{
    if 200 <= status && status < 300 {
        None
    } else if status == 401 {
        Some(
            AppError::auth_with_hint(
                "Invalid API key or unauthorized",
                "Check your API key with `rdm config show` or set REDMINE_API_KEY.",
            ),
        )
    } else if status == 403 {
        Some(AppError::auth("Access forbidden - check your permissions"))
    } else if status == 404 {
        match context {
            Some(c) => Some(
                AppError::not_found_with_hint(c.resource.as_str(), c.id.as_str(), c.hint.as_str()),
            ),
            None => Some(AppError::not_found("Resource", path)),
        }
    } else {
        let m = joined(
            joined("API request failed: ", u64_text(status as u64).as_str()).as_str(),
            " - ",
        );
        Some(AppError::api(joined(m.as_str(), body).as_str(), Some(status)))
    }
}

/// A 401 is an authentication error; a 404 is a not-found error, which on the
/// lookup of an issue carries the ID asked for; a 500, which is not retried,
/// is an API error that carries the status.
pub proof fn lemma_status_codes(
    c: Option<NotFoundContext>,
    id: u32,
    issue: NotFoundContext,
    path: Seq<char>,
    body: Seq<char>,
    r401: Option<AppError>,
    r404: Option<AppError>,
    r404_issue: Option<AppError>,
    r500: Option<AppError>,
)
    requires
        issue.resource@ == "Issue"@,
        issue.id@ == decimal(id as nat),
        status_maps_to(401, c, path, body, r401),
        status_maps_to(404, c, path, body, r404),
        status_maps_to(404, Some(issue), path, body, r404_issue),
        status_maps_to(500, c, path, body, r500),
    ensures
        r401 is Some && r401.unwrap().spec_code() == "AUTH_ERROR"@,
        r401.unwrap().spec_exit_code().spec_value() == 3,
        r404 is Some && r404.unwrap().spec_code() == "NOT_FOUND"@,
        r404.unwrap().spec_exit_code().spec_value() == 4,
        r404_issue is Some && r404_issue.unwrap().spec_code() == "NOT_FOUND"@,
        r404_issue->Some_0->NotFound_resource@ == "Issue"@,
        r404_issue->Some_0->NotFound_id@ == decimal(id as nat),
        r404_issue.unwrap().spec_display() == "Not found: "@ + "Issue"@ + " #"@ + decimal(id as nat),
        r500 is Some && r500.unwrap().spec_code() == "API_ERROR"@ && r500->Some_0->Api_status == Some(
            500u16,
        ),
        !is_transient_status(500),
{
}

/// The error for a body that does not read as the expected JSON: it keeps the
/// reader's complaint and the body itself.
pub fn parse_failure(detail: &str, body: &str) -> (r: AppError)
    ensures
        r is Api,
        r->Api_message@ == "Failed to parse response: "@ + detail@ + " - body: "@ + body@,
        r->Api_status is None,
{
    let m = joined(joined("Failed to parse response: ", detail).as_str(), " - body: ");
    AppError::api(joined(m.as_str(), body).as_str(), None)
}

/// The outcome of a connectivity check.
#[derive(Debug, Clone)]
pub struct PingResponse {
    pub status: String,
    pub url: String,
}

/// What a connectivity check reports for the status the server gave: `ok` on
/// success, an authentication error on 401, else an API error with the
/// status.
pub fn ping_result(status: u16, base_url: &str) -> (r: Result<PingResponse, AppError>)
    ensures
        is_success(status) <==> r is Ok,
        r is Ok ==> r->Ok_0.status@ == "ok"@ && r->Ok_0.url@ == base_url@,
        status == 401 ==> r is Err && r->Err_0 is Auth && r->Err_0->Auth_message@
            == "Invalid API key"@ && crate::error::opt_view(r->Err_0->Auth_hint) == Some(
            "Check your API key with `rdm config show`."@,
        ),
        !is_success(status) && status != 401 ==> r is Err && r->Err_0 is Api && r->Err_0->Api_status
            == Some(status) && r->Err_0->Api_message@ == "Server returned "@ + decimal(
            status as nat,
        ),
{
    if 200 <= status && status < 300 {
        Ok(PingResponse { status: String::from_str("ok"), url: base_url.to_owned() })
    } else if status == 401 {
        Err(AppError::auth_with_hint("Invalid API key", "Check your API key with `rdm config show`."))
    } else {
        let m = joined("Server returned ", u64_text(status as u64).as_str());
        Err(AppError::api(m.as_str(), Some(status)))
    }
}

/// The kinds of operation, as a dry run treats them.
#[derive(Debug, Clone, Copy, PartialEq, Eq, Structural)]
pub enum Operation {
    /// The connectivity check.
    Ping,
    /// A listing: under a dry run, an empty page.
    List,
    /// A fetch of one resource or of the current user: nothing to simulate.
    Fetch,
    /// A create, update or delete: reported, never sent.
    Write,
}

/// What happens to an operation instead of a request, under a dry run.
#[derive(Debug, Clone)]
pub enum DryRun {
    /// Send the request as usual.
    Send,
    /// Answer with an empty result.
    Empty,
    /// Refuse with this error.
    Refuse(AppError),
}

/// The text that a dry run shows for a write: method and path, then the body
/// that would have been sent.
pub open spec fn dry_run_text(method: Seq<char>, path: Seq<char>, body: Option<Seq<char>>) -> Seq<
    char,
> {
    let head = "DRY RUN: "@ + method + " "@ + path;
    match body {
        Some(b) => head + "\n"@ + b,
        None => head,
    }
}

/// Under a dry run no request is sent: a listing answers empty, the
/// connectivity check reports itself, a fetch is refused, and a write ends the
/// command with a validation error whose message shows what would have been
/// sent.
pub fn dry_run_decision(
    dry_run: bool,
    op: Operation,
    action: &str,
    method: &str,
    path: &str,
    body: Option<&str>,
) -> (r: DryRun)
    ensures
        !dry_run ==> r is Send,
        dry_run ==> !(r is Send),
        dry_run && (op == Operation::List || op == Operation::Ping) ==> r is Empty,
        dry_run && op == Operation::Fetch ==> r is Refuse && r->Refuse_0 is Validation
            && r->Refuse_0->Validation_message@ == "Cannot use --dry-run with '"@ + action@
            + "' command"@,
        dry_run && op == Operation::Write ==> r is Refuse && r->Refuse_0 is Validation
            && r->Refuse_0->Validation_message@ == dry_run_text(
            method@,
            path@,
            match body {
                Some(b) => Some(b@),
                None => None,
            },
        ) + "\nDry run - no request sent"@,
{
    if !dry_run {
        return DryRun::Send;
    }
    match op {
        Operation::Ping => DryRun::Empty,
        Operation::List => DryRun::Empty,
        Operation::Fetch => {
            let m = joined(joined("Cannot use --dry-run with '", action).as_str(), "' command");
            DryRun::Refuse(AppError::validation(m.as_str()))
        },
        Operation::Write => {
            let mut t = joined(joined("DRY RUN: ", method).as_str(), " ");
            t.append(path);
            match body {
                Some(b) => {
                    t.append("\n");
                    t.append(b);
                },
                None => {},
            }
            t.append("\nDry run - no request sent");
            DryRun::Refuse(AppError::validation(t.as_str()))
        },
    }
}

/// The page metadata a listing answers with under a dry run: nothing found,
/// at the offset and limit asked for.
#[derive(Debug, Clone, Copy, PartialEq, Eq, Structural)]
pub struct PageCounts {
    pub total_count: Option<u32>,
    pub offset: Option<u32>,
    pub limit: Option<u32>,
}

pub fn empty_page(limit: u32, offset: u32) -> (r: PageCounts)
    ensures
        r == (PageCounts { total_count: Some(0), offset: Some(offset), limit: Some(limit) }),
{
    PageCounts { total_count: Some(0), offset: Some(offset), limit: Some(limit) }
}

} // verus!
