use rdm::error::{AppError, AppExitCode};
use rdm::http::{
    decide, dry_run_decision, empty_page, issue_not_found, parse_failure, ping_result,
    project_not_found, status_error, time_entry_not_found, AttemptOutcome, DryRun, Operation,
    RetrySession, RetryStep,
};
use rdm::models::{SearchResult, SearchResults};
use rdm::requests::{
    base_url, issue_path, issues_path, plan_search_fetch, project_path, projects_path,
    search_path, time_entries_path, time_entry_path, users_path, IssueFilters, TimeEntryFilters,
};

#[test]
fn status_401_is_auth_error() {
    let err = status_error(401, None, "/users/current.json", "").unwrap();
    assert_eq!(err.code(), "AUTH_ERROR");
    assert_eq!(err.exit_code(), AppExitCode::Auth);
    assert!(err.hint().is_some());
    assert_eq!(status_error(403, None, "/x.json", "").unwrap().code(), "AUTH_ERROR");
}

#[test]
fn status_404_names_resource_and_id() {
    let ctx = issue_not_found(99999);
    let err = status_error(404, Some(&ctx), "/issues/99999.json", "").unwrap();
    assert_eq!(err.code(), "NOT_FOUND");
    assert_eq!(err.display_text(), "Not found: Issue #99999");
    assert_eq!(err.hint(), Some("Use `rdm issue list` to find available issues."));
    let plain = status_error(404, None, "/projects.json?limit=25&offset=0", "").unwrap();
    assert_eq!(plain.code(), "NOT_FOUND");
    assert_eq!(plain.exit_code(), AppExitCode::NotFound);
    assert_eq!(plain.display_text(), "Not found: Resource #/projects.json?limit=25&offset=0");
}

#[test]
fn status_500_is_api_error_with_status() {
    let err = status_error(500, None, "/x.json", "boom").unwrap();
    assert_eq!(err.code(), "API_ERROR");
    assert_eq!(err.display_text(), "API error: API request failed: 500 - boom");
    match err {
        AppError::Api { status, .. } => assert_eq!(status, Some(500)),
        _ => panic!("expected an API error"),
    }
    assert!(status_error(200, None, "/x.json", "").is_none());
    assert!(status_error(204, Some(&issue_not_found(1)), "/issues/1.json", "").is_none());
}

#[test]
fn unreadable_body_keeps_body() {
    let err = parse_failure("expected value", "<html>");
    assert_eq!(
        err.display_text(),
        "API error: Failed to parse response: expected value - body: <html>"
    );
}

#[test]
fn retry_steps_follow_outcomes() {
    assert!(matches!(decide(&AttemptOutcome::Response(503), Some(120)), RetryStep::RetryAfter(120)));
    assert!(matches!(decide(&AttemptOutcome::Response(200), Some(5)), RetryStep::Accept(200)));
    assert!(matches!(decide(&AttemptOutcome::Response(500), Some(5)), RetryStep::Accept(500)));
    match decide(&AttemptOutcome::Response(504), None) {
        RetryStep::Fail(e) => {
            assert_eq!(e.code(), "NETWORK_ERROR");
            assert_eq!(e.display_text(), "Network error: Server error: 504 (retries exhausted)");
        }
        _ => panic!("expected failure"),
    }
    let refused = AttemptOutcome::Transport { transient: false, message: "tls".to_string() };
    match decide(&refused, Some(10)) {
        RetryStep::Fail(e) => assert_eq!(e.display_text(), "Network error: Request failed: tls"),
        _ => panic!("expected failure"),
    }
    let timeout = AttemptOutcome::Transport { transient: true, message: "timeout".to_string() };
    assert!(matches!(decide(&timeout, Some(7)), RetryStep::RetryAfter(7)));
}

#[test]
fn retry_sequence_503_503_200_accepts_once() {
    let mut session = RetrySession::new();
    let mut accepted = 0;
    for status in [503u16, 503, 200] {
        match session.on_outcome(&AttemptOutcome::Response(status)) {
            RetryStep::Accept(s) => {
                accepted += 1;
                assert_eq!(s, 200);
            }
            RetryStep::RetryAfter(_) => {}
            RetryStep::Fail(e) => panic!("unexpected failure: {:?}", e),
        }
    }
    assert_eq!(accepted, 1);
    assert_eq!(session.attempts, 3);
}

#[test]
fn retry_sequence_503_until_ceiling_is_network_error() {
    let outcomes = [Some(500u64), Some(1000), Some(2000), None];
    let mut last = None;
    for d in outcomes {
        last = Some(decide(&AttemptOutcome::Response(503), d));
    }
    match last.unwrap() {
        RetryStep::Fail(e) => assert_eq!(e.code(), "NETWORK_ERROR"),
        _ => panic!("expected a network error"),
    }
}

#[test]
fn dry_run_create_issue_reports_body() {
    let body = "{\n  \"issue\": {\n    \"project_id\": 1,\n    \"subject\": \"Hello\"\n  }\n}";
    match dry_run_decision(true, Operation::Write, "create", "POST", "/issues.json", Some(body)) {
        DryRun::Refuse(e) => {
            assert_eq!(e.exit_code().value(), 2);
            let text = e.display_text();
            assert!(text.contains("DRY RUN: POST /issues.json"));
            assert!(text.contains(body));
            assert!(text.contains("Dry run - no request sent"));
        }
        _ => panic!("a write under dry run must not be sent"),
    }
}

#[test]
fn dry_run_reads_and_fetches() {
    assert!(matches!(dry_run_decision(true, Operation::List, "list", "GET", "/p", None), DryRun::Empty));
    assert!(matches!(dry_run_decision(true, Operation::Ping, "ping", "GET", "/p", None), DryRun::Empty));
    match dry_run_decision(true, Operation::Fetch, "me", "GET", "/users/current.json", None) {
        DryRun::Refuse(e) => {
            assert_eq!(e.display_text(), "Validation error: Cannot use --dry-run with 'me' command")
        }
        _ => panic!("identity lookups refuse dry run"),
    }
    assert!(matches!(
        dry_run_decision(false, Operation::Write, "create", "POST", "/x", Some("{}")),
        DryRun::Send
    ));
}

#[test]
fn ping_maps_status() {
    let ok = ping_result(200, "https://r.example.com").unwrap();
    assert_eq!((ok.status.as_str(), ok.url.as_str()), ("ok", "https://r.example.com"));
    assert_eq!(ping_result(401, "u").unwrap_err().code(), "AUTH_ERROR");
    assert_eq!(ping_result(500, "u").unwrap_err().display_text(), "API error: Server returned 500");
}

#[test]
fn paths_with_filters() {
    let mut f = IssueFilters::new();
    assert_eq!(issues_path(&f), "/issues.json?limit=25&offset=0");
    f.project = Some("web".to_string());
    f.subject = Some("a b&c".to_string());
    f.custom_fields = vec![(5, "x y".to_string())];
    assert_eq!(
        issues_path(&f),
        "/issues.json?limit=25&offset=0&project_id=web&subject=a%20b%26c&cf_5=x%20y"
    );
    let mut t = TimeEntryFilters::new();
    t.issue = Some(456);
    t.from = Some("2024-01-01".to_string());
    assert_eq!(
        time_entries_path(&t),
        "/time_entries.json?limit=25&offset=0&issue_id=456&from=2024-01-01"
    );
    assert_eq!(projects_path(10, 20), "/projects.json?limit=10&offset=20");
    assert_eq!(users_path(Some(3), 25, 0), "/users.json?limit=25&offset=0&status=3");
    assert_eq!(
        search_path("bug fix", Some("my proj"), 25, 0),
        "/projects/my%20proj/search.json?q=bug%20fix&issues=1&limit=25&offset=0"
    );
    assert_eq!(search_path("x", None, 5, 0), "/search.json?q=x&issues=1&limit=5&offset=0");
    assert_eq!(issue_path(123), "/issues/123.json");
    assert_eq!(time_entry_path(456), "/time_entries/456.json");
    assert_eq!(project_path("test-project"), "/projects/test-project.json");
    assert_eq!(base_url("https://r.example.com//"), "https://r.example.com");
    assert_eq!(base_url("https://r.example.com"), "https://r.example.com");
}

fn hit(id: u32, kind: &str) -> SearchResult {
    SearchResult {
        id,
        title: format!("#{}", id),
        result_type: kind.to_string(),
        url: String::new(),
        description: None,
        datetime: None,
    }
}

#[test]
fn search_plan_keeps_issue_hits_and_metadata() {
    let results = SearchResults {
        results: vec![hit(1, "issue"), hit(2, "wiki-page"), hit(3, "issue")],
        total_count: Some(42),
        offset: Some(0),
        limit: Some(25),
    };
    let plan = plan_search_fetch(&results);
    assert_eq!(plan.issue_ids, vec![1, 3]);
    assert_eq!(plan.total_count, Some(42));
    let none = SearchResults {
        results: vec![hit(9, "news")],
        total_count: Some(7),
        offset: Some(5),
        limit: Some(10),
    };
    let plan = plan_search_fetch(&none);
    assert!(plan.issue_ids.is_empty());
    assert_eq!((plan.total_count, plan.offset, plan.limit), (Some(7), Some(5), Some(10)));
}

#[test]
fn lookup_contexts_and_empty_pages() {
    let t = time_entry_not_found(456);
    assert_eq!((t.resource.as_str(), t.id.as_str()), ("Time entry", "456"));
    assert_eq!(t.hint, "Use `rdm time list` to find available time entries.");
    let p = project_not_found("test-project");
    let err = status_error(404, Some(&p), "/projects/test-project.json", "").unwrap();
    assert_eq!(err.display_text(), "Not found: Project #test-project");
    assert_eq!(err.hint(), Some("Use `rdm project list` to see available projects."));
    let page = empty_page(25, 50);
    assert_eq!((page.total_count, page.offset, page.limit), (Some(0), Some(50), Some(25)));
    let err = ping_result(401, "u").unwrap_err();
    assert_eq!(err.display_text(), "Authentication error: Invalid API key");
    assert_eq!(err.hint(), Some("Check your API key with `rdm config show`."));
}
