//! Request paths and query strings for each listing, lookup and search.

use vstd::prelude::*;
use crate::models::{SearchResult, SearchResults};
use crate::output::string_views;
use crate::text::{decimal, joined, same_text, u32_text, url_encode, url_encoded_of};

verus! {

/// Filters of an issue listing.
#[derive(Debug, Clone)]
pub struct IssueFilters {
    pub project: Option<String>,
    pub status: Option<String>,
    pub assigned_to: Option<String>,
    pub author: Option<String>,
    pub tracker: Option<String>,
    pub subject: Option<String>,
    pub custom_fields: Vec<(u32, String)>,
    pub limit: u32,
    pub offset: u32,
}

impl IssueFilters {
    /// No filter, the first page of 25.
    pub fn new() -> (r: IssueFilters)
        ensures
            r.project is None && r.status is None && r.assigned_to is None && r.author is None
                && r.tracker is None && r.subject is None,
            r.custom_fields@.len() == 0,
            r.limit == 25 && r.offset == 0,
    {
        IssueFilters {
            project: None,
            status: None,
            assigned_to: None,
            author: None,
            tracker: None,
            subject: None,
            custom_fields: Vec::new(),
            limit: 25,
            offset: 0,
        }
    }
}

/// Filters of a time-entry listing.
#[derive(Debug, Clone)]
pub struct TimeEntryFilters {
    pub project: Option<String>,
    pub issue: Option<u32>,
    pub user: Option<String>,
    pub from: Option<String>,
    pub to: Option<String>,
    pub custom_fields: Vec<(u32, String)>,
    pub limit: u32,
    pub offset: u32,
}

impl TimeEntryFilters {
    /// No filter, the first page of 25.
    pub fn new() -> (r: TimeEntryFilters)
        ensures
            r.project is None && r.issue is None && r.user is None && r.from is None && r.to is None,
            r.custom_fields@.len() == 0,
            r.limit == 25 && r.offset == 0,
    {
        TimeEntryFilters {
            project: None,
            issue: None,
            user: None,
            from: None,
            to: None,
            custom_fields: Vec::new(),
            limit: 25,
            offset: 0,
        }
    }
}

/// Query parameters joined by `&`.
pub open spec fn amp_joined(ps: Seq<Seq<char>>) -> Seq<char>
    decreases ps.len(),
{
    if ps.len() == 0 {
        Seq::empty()
    } else if ps.len() == 1 {
        ps[0]
    } else {
        amp_joined(ps.drop_last()) + "&"@ + ps.last()
    }
}

pub open spec fn param(name: Seq<char>, value: Seq<char>) -> Seq<char> {
    name + "="@ + value
}

/// A parameter for an optional filter, taken as it is.
pub open spec fn opt_param(name: Seq<char>, v: Option<String>) -> Seq<Seq<char>> {
    match v {
        Some(s) => seq![param(name, s@)],
        None => Seq::empty(),
    }
}

/// A parameter for an optional numeric filter.
pub open spec fn opt_num_param(name: Seq<char>, v: Option<u32>) -> Seq<Seq<char>> {
    match v {
        Some(n) => seq![param(name, decimal(n as nat))],
        None => Seq::empty(),
    }
}

/// A parameter for an optional filter, URL-encoded.
pub open spec fn opt_encoded_param(name: Seq<char>, v: Option<String>) -> Seq<Seq<char>> {
    match v {
        Some(s) => seq![param(name, url_encoded_of(s@))],
        None => Seq::empty(),
    }
}

/// One `cf_<id>=<value>` parameter for each custom field filter, values
/// URL-encoded.
pub open spec fn custom_field_params(cfs: Seq<(u32, String)>) -> Seq<Seq<char>> {
    cfs.map_values(|p: (u32, String)| param("cf_"@ + decimal(p.0 as nat), url_encoded_of(p.1@)))
}

pub open spec fn page_params(limit: u32, offset: u32) -> Seq<Seq<char>> {
    seq![param("limit"@, decimal(limit as nat)), param("offset"@, decimal(offset as nat))]
}

pub open spec fn issue_params(f: IssueFilters) -> Seq<Seq<char>> {
    page_params(f.limit, f.offset) + opt_param("project_id"@, f.project) + opt_param(
        "status_id"@,
        f.status,
    ) + opt_param("assigned_to_id"@, f.assigned_to) + opt_param("author_id"@, f.author)
        + opt_param("tracker_id"@, f.tracker) + opt_encoded_param("subject"@, f.subject)
        + custom_field_params(f.custom_fields@)
}

pub open spec fn time_entry_params(f: TimeEntryFilters) -> Seq<Seq<char>> {
    page_params(f.limit, f.offset) + opt_param("project_id"@, f.project) + opt_num_param(
        "issue_id"@,
        f.issue,
    ) + opt_param("user_id"@, f.user) + opt_param("from"@, f.from) + opt_param("to"@, f.to)
        + custom_field_params(f.custom_fields@)
}

proof fn lemma_views_push(ps: Seq<String>, s: String)
    ensures
        string_views(ps.push(s)) == string_views(ps).push(s@),
{
    assert(string_views(ps.push(s)) =~= string_views(ps).push(s@));
}

fn push_param(ps: &mut Vec<String>, name: &str, value: &str)
    ensures
        string_views(final(ps)@) == string_views(old(ps)@).push(param(name@, value@)),
{
    let ghost before = ps@;
    let p = joined(joined(name, "=").as_str(), value);
    ps.push(p);
    proof {
        lemma_views_push(before, p);
    }
}

fn push_opt(ps: &mut Vec<String>, name: &str, v: &Option<String>)
    ensures
        string_views(final(ps)@) == string_views(old(ps)@) + opt_param(name@, *v),
{
    match v {
        Some(s) => {
            push_param(ps, name, s.as_str());
            assert(string_views(ps@) =~= string_views(old(ps)@) + opt_param(name@, *v));
        },
        None => {
            assert(string_views(ps@) =~= string_views(old(ps)@) + opt_param(name@, *v));
        },
    }
}

fn push_custom_fields(ps: &mut Vec<String>, cfs: &Vec<(u32, String)>)
    ensures
        string_views(final(ps)@) == string_views(old(ps)@) + custom_field_params(cfs@),
{
    let mut i: usize = 0;
    while i < cfs.len()
        invariant
            i <= cfs@.len(),
            string_views(ps@) == string_views(old(ps)@) + custom_field_params(
                cfs@.subrange(0, i as int),
            ),
        decreases cfs@.len() - i,
    {
        let (id, value) = &cfs[i];
        let name = joined("cf_", u32_text(*id).as_str());
        let enc = url_encode(value.as_str());
        push_param(ps, name.as_str(), enc.as_str());
        assert(custom_field_params(cfs@.subrange(0, i + 1)) =~= custom_field_params(
            cfs@.subrange(0, i as int),
        ).push(param(name@, enc@)));
        i = i + 1;
    }
    assert(cfs@.subrange(0, i as int) == cfs@);
}

fn page(limit: u32, offset: u32) -> (r: Vec<String>)
    ensures
        string_views(r@) == page_params(limit, offset),
{
    let mut ps: Vec<String> = Vec::new();
    push_param(&mut ps, "limit", u32_text(limit).as_str());
    push_param(&mut ps, "offset", u32_text(offset).as_str());
    assert(string_views(ps@) =~= page_params(limit, offset));
    ps
}

/// The parameters joined by `&`.
pub fn join_params(ps: &Vec<String>) -> (r: String)
    ensures
        r@ == amp_joined(string_views(ps@)),
{
    let mut out = String::new();
    let mut i: usize = 0;
    while i < ps.len()
        invariant
            i <= ps@.len(),
            out@ == amp_joined(string_views(ps@.subrange(0, i as int))),
        decreases ps@.len() - i,
    {
        proof {
            assert(string_views(ps@.subrange(0, i + 1)).drop_last() =~= string_views(
                ps@.subrange(0, i as int),
            ));
        }
        if i > 0 {
            out.append("&");
        }
        out.append(ps[i].as_str());
        i = i + 1;
    }
    assert(ps@.subrange(0, i as int) == ps@);
    out
}

/// The path of an issue listing with its filters.
pub fn issues_path(f: &IssueFilters) -> (r: String)
    ensures
        r@ == "/issues.json?"@ + amp_joined(issue_params(*f)),
{
    let mut ps = page(f.limit, f.offset);
    push_opt(&mut ps, "project_id", &f.project);
    push_opt(&mut ps, "status_id", &f.status);
    push_opt(&mut ps, "assigned_to_id", &f.assigned_to);
    push_opt(&mut ps, "author_id", &f.author);
    push_opt(&mut ps, "tracker_id", &f.tracker);
    let ghost mid = string_views(ps@);
    match &f.subject {
        Some(s) => {
            let enc = url_encode(s.as_str());
            push_param(&mut ps, "subject", enc.as_str());
        },
        None => {},
    }
    assert(string_views(ps@) =~= mid + opt_encoded_param("subject"@, f.subject));
    push_custom_fields(&mut ps, &f.custom_fields);
    assert(string_views(ps@) =~= issue_params(*f));
    joined("/issues.json?", join_params(&ps).as_str())
}

/// The path of a time-entry listing with its filters.
pub fn time_entries_path(f: &TimeEntryFilters) -> (r: String)
    ensures
        r@ == "/time_entries.json?"@ + amp_joined(time_entry_params(*f)),
{
    let mut ps = page(f.limit, f.offset);
    push_opt(&mut ps, "project_id", &f.project);
    let ghost mid = string_views(ps@);
    match f.issue {
        Some(n) => {
            push_param(&mut ps, "issue_id", u32_text(n).as_str());
        },
        None => {},
    }
    assert(string_views(ps@) =~= mid + opt_num_param("issue_id"@, f.issue));
    push_opt(&mut ps, "user_id", &f.user);
    push_opt(&mut ps, "from", &f.from);
    push_opt(&mut ps, "to", &f.to);
    push_custom_fields(&mut ps, &f.custom_fields);
    assert(string_views(ps@) =~= time_entry_params(*f));
    joined("/time_entries.json?", join_params(&ps).as_str())
}

/// The path of a project listing.
pub fn projects_path(limit: u32, offset: u32) -> (r: String)
    ensures
        r@ == "/projects.json?"@ + amp_joined(page_params(limit, offset)),
{
    let ps = page(limit, offset);
    joined("/projects.json?", join_params(&ps).as_str())
}

/// The path of a user listing, with the account-state filter if given.
pub fn users_path(status: Option<u32>, limit: u32, offset: u32) -> (r: String)
    ensures
        r@ == "/users.json?"@ + amp_joined(
            page_params(limit, offset) + opt_num_param("status"@, status),
        ),
{
    let mut ps = page(limit, offset);
    let ghost mid = string_views(ps@);
    match status {
        Some(s) => {
            push_param(&mut ps, "status", u32_text(s).as_str());
        },
        None => {},
    }
    assert(string_views(ps@) =~= mid + opt_num_param("status"@, status));
    joined("/users.json?", join_params(&ps).as_str())
}

pub open spec fn search_params(query: Seq<char>, limit: u32, offset: u32) -> Seq<Seq<char>> {
    seq![param("q"@, url_encoded_of(query)), "issues=1"@] + page_params(limit, offset)
}

/// The path of an issue search, scoped to a project where one is given.
pub fn search_path(query: &str, project: Option<&str>, limit: u32, offset: u32) -> (r: String)
    ensures
        r@ == match project {
            Some(p) => "/projects/"@ + url_encoded_of(p@) + "/search.json?"@,
            None => "/search.json?"@,
        } + amp_joined(search_params(query@, limit, offset)),
{
    let mut ps: Vec<String> = Vec::new();
    let enc = url_encode(query);
    push_param(&mut ps, "q", enc.as_str());
    let ghost mid = ps@;
    ps.push(String::from_str("issues=1"));
    proof {
        lemma_views_push(mid, ps@.last());
    }
    push_param(&mut ps, "limit", u32_text(limit).as_str());
    push_param(&mut ps, "offset", u32_text(offset).as_str());
    assert(string_views(ps@) =~= search_params(query@, limit, offset));
    let q = join_params(&ps);
    match project {
        Some(p) => {
            let mut s = joined("/projects/", url_encode(p).as_str());
            s.append("/search.json?");
            s.append(q.as_str());
            s
        },
        None => joined("/search.json?", q.as_str()),
    }
}

/// The path of one issue.
pub fn issue_path(id: u32) -> (r: String)
    ensures
        r@ == "/issues/"@ + decimal(id as nat) + ".json"@,
{
    joined(joined("/issues/", u32_text(id).as_str()).as_str(), ".json")
}

/// The path of one time entry.
pub fn time_entry_path(id: u32) -> (r: String)
    ensures
        r@ == "/time_entries/"@ + decimal(id as nat) + ".json"@,
{
    joined(joined("/time_entries/", u32_text(id).as_str()).as_str(), ".json")
}

/// The path of one project, by numeric ID or identifier.
pub fn project_path(id_or_identifier: &str) -> (r: String)
    ensures
        r@ == "/projects/"@ + id_or_identifier@ + ".json"@,
{
    joined(joined("/projects/", id_or_identifier).as_str(), ".json")
}

/// `url` without the slashes that end it.
pub open spec fn trimmed_url(url: Seq<char>) -> Seq<char>
    decreases url.len(),
{
    if url.len() > 0 && url.last() == '/' {
        trimmed_url(url.drop_last())
    } else {
        url
    }
}

/// The server's base URL, with trailing slashes taken off so that paths can
/// follow it.
pub fn base_url(url: &str) -> (r: String)
    ensures
        r@ == trimmed_url(url@),
{
    let mut n = url.unicode_len();
    assert(url@.subrange(0, n as int) == url@);
    while n > 0 && url.get_char(n - 1) == '/'
        invariant
            n <= url@.len(),
            trimmed_url(url@) == trimmed_url(url@.subrange(0, n as int)),
        decreases n,
    {
        assert(url@.subrange(0, n as int).drop_last() == url@.subrange(0, n - 1));
        n = n - 1;
    }
    proof {
        if n > 0 {
            assert(url@.subrange(0, n as int).last() == url@[n - 1]);
        }
    }
    url.substring_char(0, n).to_owned()
}

/// The IDs of the hits that are issues, in order.
pub open spec fn issue_ids(rs: Seq<SearchResult>) -> Seq<u32>
    decreases rs.len(),
{
    if rs.len() == 0 {
        Seq::empty()
    } else if rs.last().result_type@ == "issue"@ {
        issue_ids(rs.drop_last()).push(rs.last().id)
    } else {
        issue_ids(rs.drop_last())
    }
}

/// What to fetch after a search, and the page metadata to report: the
/// search's own.
#[derive(Debug, Clone)]
pub struct SearchPlan {
    pub issue_ids: Vec<u32>,
    pub total_count: Option<u32>,
    pub offset: Option<u32>,
    pub limit: Option<u32>,
}

/// The issues to fetch one by one after a search, and the metadata of the page.
pub fn plan_search_fetch(results: &SearchResults) -> (r: SearchPlan)
    ensures
        r.issue_ids@ == issue_ids(results.results@),
        r.total_count == results.total_count,
        r.offset == results.offset,
        r.limit == results.limit,
{
    let mut ids: Vec<u32> = Vec::new();
    let mut i: usize = 0;
    while i < results.results.len()
        invariant
            i <= results.results@.len(),
            ids@ == issue_ids(results.results@.subrange(0, i as int)),
        decreases results.results@.len() - i,
    {
        let r = &results.results[i];
        assert(results.results@.subrange(0, i + 1).drop_last() == results.results@.subrange(
            0,
            i as int,
        ));
        if same_text(r.result_type.as_str(), "issue") {
            ids.push(r.id);
        }
        i = i + 1;
    }
    assert(results.results@.subrange(0, i as int) == results.results@);
    SearchPlan { issue_ids: ids, total_count: results.total_count, offset: results.offset, limit: results.limit }
}

} // verus!
