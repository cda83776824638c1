//! The logic of the commands: argument checks, custom field arguments, the
//! choice of a grouping field, and the profile commands on a loaded store.

use vstd::prelude::*;
use crate::config::Config;
use crate::error::AppError;
use crate::models::{CustomFieldValue, UserStatus};
use crate::profile::{has_name, position, Profile, ProfileStore};
use crate::requests::{IssueFilters, TimeEntryFilters};
use crate::text::{
    decimal, joined, lower_of, lowercase, parse_u32, parsed_u32, same_text, u32_text,
};

verus! {

/// `k` is the position of the first `=` in `s`.
pub open spec fn first_eq(s: Seq<char>, k: int) -> bool {
    &&& 0 <= k < s.len()
    &&& s[k] == '='
    &&& forall|j: int| 0 <= j < k ==> s[j] != '='
}

/// What an `ID=VALUE` argument stands for: the text before the first `=` read
/// as an unsigned integer, and everything after it.
pub open spec fn custom_field_arg(s: Seq<char>, r: (u32, Seq<char>)) -> bool {
    exists|k: int|
        first_eq(s, k) && parsed_u32(s.subrange(0, k)) == Some(r.0) && r.1 == s.subrange(
            k + 1,
            s.len() as int,
        )
}

/// The error for a malformed `ID=VALUE` argument: without `=`, it quotes the
/// argument; with a part before the first `=` that is no unsigned integer, it
/// quotes that part. Either way it carries a hint at the format.
pub open spec fn custom_field_error(s: Seq<char>, e: AppError) -> bool {
    &&& e is Validation
    &&& if exists|k: int| first_eq(s, k) {
        let k = choose|k: int| first_eq(s, k);
        &&& e->Validation_message@ == "Invalid custom field ID: '"@ + s.subrange(0, k) + "'"@
        &&& crate::error::opt_view(e->Validation_hint) == Some(
            "Custom field ID must be a number, e.g., --cf 5=value"@,
        )
    } else {
        &&& e->Validation_message@ == "Invalid custom field format: '"@ + s + "'"@
        &&& crate::error::opt_view(e->Validation_hint) == Some("Use format: --cf 5=value"@)
    }
}

pub open spec fn valid_custom_field_arg(s: Seq<char>) -> bool {
    exists|k: int| first_eq(s, k) && parsed_u32(s.subrange(0, k)) is Some
}

/// The position of the first `=` in `s`, if any.
fn find_eq(s: &str) -> (r: Option<usize>)
    ensures
        r is Some ==> first_eq(s@, r.unwrap() as int),
        r is None ==> forall|j: int| 0 <= j < s@.len() ==> s@[j] != '=',
{
    let n = s.unicode_len();
    let mut i: usize = 0;
    while i < n
        invariant
            n == s@.len(),
            i <= n,
            forall|j: int| 0 <= j < i ==> s@[j] != '=',
        decreases n - i,
    {
        if s.get_char(i) == '=' {
            return Some(i);
        }
        i = i + 1;
    }
    None
}

/// Reads one `ID=VALUE` argument.
fn parse_custom_field(arg: &str) -> (r: Result<(u32, String), AppError>)
    ensures
        r is Ok <==> valid_custom_field_arg(arg@),
        r is Ok ==> custom_field_arg(arg@, (r->Ok_0.0, r->Ok_0.1@)),
        r is Err ==> custom_field_error(arg@, r->Err_0),
{
    match find_eq(arg) {
        None => {
            assert(!exists|k: int| first_eq(arg@, k));
            let m = joined(joined("Invalid custom field format: '", arg).as_str(), "'");
            Err(AppError::validation_with_hint(m.as_str(), "Use format: --cf 5=value"))
        },
        Some(k) => {
            let n = arg.unicode_len();
            let id_part = arg.substring_char(0, k);
            match parse_u32(id_part) {
                Some(id) => {
                    let value = arg.substring_char(k + 1, n).to_owned();
                    Ok((id, value))
                },
                None => {
                    proof {
                        assert forall|k2: int| first_eq(arg@, k2) implies parsed_u32(
                            arg@.subrange(0, k2),
                        ) is None by {
                            assert(k2 == k as int);
                        }
                    }
                    proof {
                        let k2 = choose|k2: int| first_eq(arg@, k2);
                        assert(k2 == k as int);
                    }
                    let m = joined(joined("Invalid custom field ID: '", id_part).as_str(), "'");
                    Err(
                        AppError::validation_with_hint(
                            m.as_str(),
                            "Custom field ID must be a number, e.g., --cf 5=value",
                        ),
                    )
                },
            }
        },
    }
}

/// Reads `ID=VALUE` arguments, in order; the first malformed one is a
/// validation error.
pub fn parse_custom_fields(args: &[String]) -> (r: Result<Vec<(u32, String)>, AppError>)
    ensures
        r is Ok <==> forall|i: int| 0 <= i < args@.len() ==> valid_custom_field_arg(#[trigger] args@[i]@),
        r is Ok ==> r->Ok_0@.len() == args@.len() && forall|i: int|
            0 <= i < args@.len() ==> custom_field_arg(
                #[trigger] args@[i]@,
                (r->Ok_0@[i].0, r->Ok_0@[i].1@),
            ),
        r is Err ==> exists|i: int|
            0 <= i < args@.len() && !valid_custom_field_arg(#[trigger] args@[i]@) && (forall|j: int|
                0 <= j < i ==> valid_custom_field_arg(#[trigger] args@[j]@)) && custom_field_error(
                args@[i]@,
                r->Err_0,
            ),
{
    let mut out: Vec<(u32, String)> = Vec::new();
    let mut i: usize = 0;
    while i < args.len()
        invariant
            i <= args@.len(),
            out@.len() == i,
            forall|j: int| 0 <= j < i ==> valid_custom_field_arg(#[trigger] args@[j]@),
            forall|j: int|
                0 <= j < i ==> custom_field_arg(#[trigger] args@[j]@, (out@[j].0, out@[j].1@)),
        decreases args@.len() - i,
    {
        match parse_custom_field(args[i].as_str()) {
            Ok(p) => {
                out.push(p);
            },
            Err(e) => {
                assert(!valid_custom_field_arg(args@[i as int]@));
                return Err(e);
            },
        }
        i = i + 1;
    }
    Ok(out)
}

/// Custom field values for a write request: none where no argument is given.
pub fn parse_custom_field_values(args: &[String]) -> (r: Result<
    Option<Vec<CustomFieldValue>>,
    AppError,
>)
    ensures
        args@.len() == 0 ==> r == Ok::<Option<Vec<CustomFieldValue>>, AppError>(None),
        r is Ok <==> forall|i: int| 0 <= i < args@.len() ==> valid_custom_field_arg(#[trigger] args@[i]@),
        r is Ok && args@.len() > 0 ==> r->Ok_0 is Some && r->Ok_0.unwrap()@.len() == args@.len()
            && forall|i: int|
            0 <= i < args@.len() ==> custom_field_arg(
                #[trigger] args@[i]@,
                (r->Ok_0.unwrap()@[i].id, r->Ok_0.unwrap()@[i].value@),
            ),
        r is Err ==> exists|i: int|
            0 <= i < args@.len() && !valid_custom_field_arg(#[trigger] args@[i]@) && (forall|j: int|
                0 <= j < i ==> valid_custom_field_arg(#[trigger] args@[j]@)) && custom_field_error(
                args@[i]@,
                r->Err_0,
            ),
{
    if args.len() == 0 {
        return Ok(None);
    }
    let parsed = parse_custom_fields(args)?;
    let ghost ps = parsed@;
    let values = CustomFieldValue::from_tuples(parsed);
    assert forall|i: int| 0 <= i < args@.len() implies custom_field_arg(
        #[trigger] args@[i]@,
        (values@[i].id, values@[i].value@),
    ) by {
        assert(custom_field_arg(args@[i]@, (ps[i].0, ps[i].1@)));
    }
    Ok(Some(values))
}

/// The field that time entries are grouped by.
#[derive(Debug, Clone, Copy, PartialEq, Eq, Structural)]
pub enum GroupByField {
    User,
    Project,
    Activity,
    Issue,
    SpentOn,
    CustomField(u32),
}

/// The grouping field that a text names, case aside: `user`, `project`,
/// `activity`, `issue`, `spent_on` or `date`, or `cf_<id>`.
pub open spec fn group_by_of(s: Seq<char>) -> Option<GroupByField> {
    let l = lower_of(s);
    if l == "user"@ {
        Some(GroupByField::User)
    } else if l == "project"@ {
        Some(GroupByField::Project)
    } else if l == "activity"@ {
        Some(GroupByField::Activity)
    } else if l == "issue"@ {
        Some(GroupByField::Issue)
    } else if l == "spent_on"@ || l == "date"@ {
        Some(GroupByField::SpentOn)
    } else if s.len() >= 3 && s.subrange(0, 3) == "cf_"@ {
        match parsed_u32(s.subrange(3, s.len() as int)) {
            Some(n) => Some(GroupByField::CustomField(n)),
            None => None,
        }
    } else {
        None
    }
}

pub open spec fn group_by_name(f: GroupByField) -> Seq<char> {
    match f {
        GroupByField::User => "User"@,
        GroupByField::Project => "Project"@,
        GroupByField::Activity => "Activity"@,
        GroupByField::Issue => "Issue"@,
        GroupByField::SpentOn => "Date"@,
        GroupByField::CustomField(id) => "Custom Field "@ + decimal(id as nat),
    }
}

impl GroupByField {
    pub fn parse(s: &str) -> (r: Option<GroupByField>)
        ensures
            r == group_by_of(s@),
    {
        let l = lowercase(s);
        if same_text(l.as_str(), "user") {
            Some(GroupByField::User)
        } else if same_text(l.as_str(), "project") {
            Some(GroupByField::Project)
        } else if same_text(l.as_str(), "activity") {
            Some(GroupByField::Activity)
        } else if same_text(l.as_str(), "issue") {
            Some(GroupByField::Issue)
        } else if same_text(l.as_str(), "spent_on") || same_text(l.as_str(), "date") {
            Some(GroupByField::SpentOn)
        } else {
            let n = s.unicode_len();
            if n >= 3 && same_text(s.substring_char(0, 3), "cf_") {
                match parse_u32(s.substring_char(3, n)) {
                    Some(id) => Some(GroupByField::CustomField(id)),
                    None => None,
                }
            } else {
                None
            }
        }
    }

    /// The heading name of the field.
    pub fn display_name(&self) -> (r: String)
        ensures
            r@ == group_by_name(*self),
    {
        match self {
            GroupByField::User => String::from_str("User"),
            GroupByField::Project => String::from_str("Project"),
            GroupByField::Activity => String::from_str("Activity"),
            GroupByField::Issue => String::from_str("Issue"),
            GroupByField::SpentOn => String::from_str("Date"),
            GroupByField::CustomField(id) => joined("Custom Field ", u32_text(*id).as_str()),
        }
    }
}

/// Arguments of `profile add`.
#[derive(Debug, Clone)]
pub struct ProfileAdd {
    pub name: String,
    pub url: String,
    pub api_key: String,
}

/// Arguments of `profile use`.
#[derive(Debug, Clone)]
pub struct ProfileUse {
    pub name: String,
}

/// Arguments of `profile delete`.
#[derive(Debug, Clone)]
pub struct ProfileDelete {
    pub name: String,
}

/// Arguments of `config` (none).
#[derive(Debug, Clone, Copy, PartialEq, Eq, Structural)]
pub struct ConfigShow {}

#[derive(Debug, Clone)]
pub struct ProfileAdded {
    pub name: String,
    pub url: String,
    pub is_active: bool,
}

#[derive(Debug, Clone)]
pub struct ProfileActivated {
    pub name: String,
}

#[derive(Debug, Clone)]
pub struct ProfileInfo {
    pub name: String,
    pub url: String,
    pub is_active: bool,
}

#[derive(Debug, Clone)]
pub struct ProfileList {
    pub profiles: Vec<ProfileInfo>,
    pub active: Option<String>,
}

#[derive(Debug, Clone)]
pub struct ProfileDeleted {
    pub name: String,
}

/// What `config` shows: URL, redacted key, where the settings came from.
#[derive(Debug, Clone)]
pub struct ConfigInfo {
    pub url: String,
    pub api_key_redacted: String,
    pub source: String,
    pub profile_name: Option<String>,
}

/// Adds or replaces a profile in `store`; it is reported active where the
/// store held no profile before.
pub fn add_profile(args: &ProfileAdd, store: &mut ProfileStore) -> (r: ProfileAdded)
    requires
        old(store).well_formed(),
    ensures
        final(store).well_formed(),
        has_name(final(store).profiles@, args.name@),
        final(store).profiles@[position(final(store).profiles@, args.name@)].url@ == args.url@,
        final(store).profiles@[position(final(store).profiles@, args.name@)].api_key@
            == args.api_key@,
        old(store).profiles@.len() == 0 ==> final(store).active_name() == Some(args.name@),
        old(store).active is Some ==> final(store).active == old(store).active,
        old(store).active is None ==> final(store).active_name() == Some(args.name@),
        has_name(old(store).profiles@, args.name@) ==> final(store).profiles@ == old(
            store,
        ).profiles@.update(
            position(old(store).profiles@, args.name@),
            final(store).profiles@[position(old(store).profiles@, args.name@)],
        ),
        !has_name(old(store).profiles@, args.name@) ==> final(store).profiles@ == old(
            store,
        ).profiles@.push(final(store).profiles@.last()),
        r.name@ == args.name@,
        r.url@ == args.url@,
        r.is_active == (old(store).profiles@.len() == 0),
{
    let is_first = store.profiles.len() == 0;
    let p = Profile::new(args.name.as_str(), args.url.as_str(), args.api_key.as_str());
    let ghost pv = p;
    store.add(p);
    proof {
        let ps = store.profiles@;
        crate::profile::lemma_position(ps, args.name@);
        crate::profile::lemma_position(old(store).profiles@, args.name@);
        if has_name(old(store).profiles@, args.name@) {
            assert(ps[position(old(store).profiles@, args.name@)] == pv);
        } else {
            assert(ps[ps.len() - 1] == pv);
        }
    }
    ProfileAdded {
        name: args.name.as_str().to_owned(),
        url: args.url.as_str().to_owned(),
        is_active: is_first,
    }
}

/// Makes the named profile active; fails with a not-found error where there
/// is none.
pub fn use_profile(args: &ProfileUse, store: &mut ProfileStore) -> (r: Result<
    ProfileActivated,
    AppError,
>)
    requires
        old(store).well_formed(),
    ensures
        final(store).well_formed(),
        r is Ok <==> has_name(old(store).profiles@, args.name@),
        r is Ok ==> final(store).active_name() == Some(args.name@) && r->Ok_0.name@ == args.name@,
        final(store).profiles@ == old(store).profiles@,
        r is Err ==> crate::profile::profile_not_found(args.name@, r->Err_0) && final(store).active
            == old(store).active,
{
    store.set_active(args.name.as_str())?;
    Ok(ProfileActivated { name: args.name.as_str().to_owned() })
}

/// Removes the named profile; fails with a not-found error where there is
/// none.
pub fn delete_profile(args: &ProfileDelete, store: &mut ProfileStore) -> (r: Result<
    ProfileDeleted,
    AppError,
>)
    requires
        old(store).well_formed(),
    ensures
        final(store).well_formed(),
        r is Ok <==> has_name(old(store).profiles@, args.name@),
        r is Ok ==> !has_name(final(store).profiles@, args.name@) && r->Ok_0.name@ == args.name@,
        r is Ok ==> final(store).profiles@ == old(store).profiles@.remove(
            position(old(store).profiles@, args.name@),
        ),
        r is Ok && old(store).active_name() == Some(args.name@) ==> (if final(store).profiles@.len()
            == 0 {
            final(store).active is None
        } else {
            final(store).active_name() == Some(final(store).profiles@[0].name@)
        }),
        r is Ok && old(store).active_name() != Some(args.name@) ==> final(store).active == old(
            store,
        ).active,
        r is Err ==> crate::profile::profile_not_found(args.name@, r->Err_0) && *final(store) == *old(
            store,
        ),
{
    let ghost before = *store;
    store.delete(args.name.as_str())?;
    proof {
        let ps = before.profiles@;
        crate::profile::lemma_position(ps, args.name@);
        let k = position(ps, args.name@);
        let qs = store.profiles@;
        assert forall|i: int| 0 <= i < qs.len() implies (#[trigger] qs[i]).name@ != args.name@ by {
            let i0 = if i < k { i } else { i + 1 };
            assert(qs[i] == ps[i0]);
        }
    }
    Ok(ProfileDeleted { name: args.name.as_str().to_owned() })
}

/// Every profile with its URL and whether it is the active one, in the
/// store's order.
pub fn list_profiles(store: &ProfileStore) -> (r: ProfileList)
    ensures
        r.profiles@.len() == store.profiles@.len(),
        forall|i: int|
            0 <= i < r.profiles@.len() ==> (#[trigger] r.profiles@[i]).name@ == store.profiles@[i].name@
                && r.profiles@[i].url@ == store.profiles@[i].url@ && r.profiles@[i].is_active == (
            store.active_name() == Some(store.profiles@[i].name@)),
        crate::error::opt_view(r.active) == store.active_name(),
{
    let mut out: Vec<ProfileInfo> = Vec::new();
    let mut i: usize = 0;
    while i < store.profiles.len()
        invariant
            i <= store.profiles@.len(),
            out@.len() == i,
            forall|j: int|
                0 <= j < i ==> (#[trigger] out@[j]).name@ == store.profiles@[j].name@ && out@[j].url@
                    == store.profiles@[j].url@ && out@[j].is_active == (store.active_name() == Some(
                    store.profiles@[j].name@,
                )),
        decreases store.profiles@.len() - i,
    {
        let p = &store.profiles[i];
        let is_active = match &store.active {
            Some(a) => same_text(a.as_str(), p.name.as_str()),
            None => false,
        };
        out.push(
            ProfileInfo {
                name: p.name.as_str().to_owned(),
                url: p.url.as_str().to_owned(),
                is_active,
            },
        );
        i = i + 1;
    }
    let active = match &store.active {
        Some(a) => Some(a.as_str().to_owned()),
        None => None,
    };
    ProfileList { profiles: out, active }
}

/// Where the settings came from: a profile where one supplied a setting, else
/// the environment where the URL variable is set, else the flags.
pub open spec fn config_source(profile_used: bool, env_url_set: bool) -> Seq<char> {
    if profile_used {
        "config file"@
    } else if env_url_set {
        "environment variables"@
    } else {
        "CLI flags"@
    }
}

/// What `config` shows for resolved settings; `env_url_set` tells whether the
/// URL variable is set in the environment.
pub fn show_config(config: &Config, env_url_set: bool) -> (r: ConfigInfo)
    ensures
        r.url@ == config.url@,
        r.api_key_redacted@ == crate::profile::redacted(config.api_key@),
        r.source@ == config_source(config.profile_name is Some, env_url_set),
        crate::error::opt_view(r.profile_name) == crate::error::opt_view(config.profile_name),
{
    let source = if config.profile_name.is_some() {
        String::from_str("config file")
    } else if env_url_set {
        String::from_str("environment variables")
    } else {
        String::from_str("CLI flags")
    };
    let profile_name = match &config.profile_name {
        Some(n) => Some(n.as_str().to_owned()),
        None => None,
    };
    ConfigInfo {
        url: config.url.as_str().to_owned(),
        api_key_redacted: config.redacted_api_key(),
        source,
        profile_name,
    }
}

/// Arguments of `issue list`.
#[derive(Debug, Clone)]
pub struct IssueListArgs {
    pub project: Option<String>,
    pub status: Option<String>,
    pub assigned_to: Option<String>,
    pub author: Option<String>,
    pub tracker: Option<String>,
    pub subject: Option<String>,
    pub search: Option<String>,
    pub custom_fields: Vec<String>,
    pub limit: u32,
    pub offset: u32,
}

/// Arguments of `issue get`.
#[derive(Debug, Clone, Copy, PartialEq, Eq, Structural)]
pub struct IssueGetArgs {
    pub id: u32,
}

/// Arguments of `issue update`.
#[derive(Debug, Clone)]
pub struct IssueUpdateArgs {
    pub id: u32,
    pub subject: Option<String>,
    pub description: Option<String>,
    pub status: Option<u32>,
    pub priority: Option<u32>,
    pub assigned_to: Option<u32>,
    pub done_ratio: Option<u32>,
    pub notes: Option<String>,
    pub custom_fields: Vec<String>,
}

/// Arguments of `project list`.
#[derive(Debug, Clone, Copy, PartialEq, Eq, Structural)]
pub struct ProjectListArgs {
    pub limit: u32,
    pub offset: u32,
}

/// Arguments of `project get`.
#[derive(Debug, Clone)]
pub struct ProjectGetArgs {
    pub identifier: String,
}

/// Arguments of `time activities list`.
#[derive(Debug, Clone, Copy, PartialEq, Eq, Structural)]
pub struct ActivitiesListArgs {
    pub refresh: bool,
}

/// Arguments of `time list`.
#[derive(Debug, Clone)]
pub struct TimeListArgs {
    pub project: Option<String>,
    pub issue: Option<u32>,
    pub user: Option<String>,
    pub from: Option<String>,
    pub to: Option<String>,
    pub custom_fields: Vec<String>,
    pub group_by: Option<String>,
    pub limit: u32,
    pub offset: u32,
}

/// Arguments of `time get`.
#[derive(Debug, Clone, Copy, PartialEq, Eq, Structural)]
pub struct TimeGetArgs {
    pub id: u32,
}

/// Arguments of `time delete`.
#[derive(Debug, Clone, Copy, PartialEq, Eq, Structural)]
pub struct TimeDeleteArgs {
    pub id: u32,
}

/// Arguments of `user list`.
#[derive(Debug, Clone, Copy, PartialEq, Eq, Structural)]
pub struct UserListArgs {
    pub status: Option<UserStatus>,
    pub limit: u32,
    pub offset: u32,
}

fn clone_opt(o: &Option<String>) -> (r: Option<String>)
    ensures
        crate::error::opt_view(r) == crate::error::opt_view(*o),
{
    match o {
        Some(s) => Some(s.as_str().to_owned()),
        None => None,
    }
}

/// What an issue listing asks of the server: a text search, or a filtered
/// listing.
#[derive(Debug, Clone)]
pub enum IssueQuery {
    Search { query: String, project: Option<String>, limit: u32, offset: u32 },
    List(IssueFilters),
}

/// The request that `issue list` makes: a search where a search text is
/// given, else a listing with the filters. Custom field arguments are checked
/// either way.
pub fn issue_query(args: &IssueListArgs) -> (r: Result<IssueQuery, AppError>)
    ensures
        r is Ok <==> forall|i: int|
            0 <= i < args.custom_fields@.len() ==> valid_custom_field_arg(
                #[trigger] args.custom_fields@[i]@,
            ),
        r is Err ==> r->Err_0 is Validation,
        r is Ok && args.search is Some ==> r->Ok_0 is Search && r->Ok_0->Search_query@
            == args.search.unwrap()@ && crate::error::opt_view(r->Ok_0->Search_project)
            == crate::error::opt_view(args.project) && r->Ok_0->Search_limit == args.limit
            && r->Ok_0->Search_offset == args.offset,
        r is Ok && args.search is None ==> r->Ok_0 is List && {
            let f = r->Ok_0->List_0;
            &&& crate::error::opt_view(f.project) == crate::error::opt_view(args.project)
            &&& crate::error::opt_view(f.status) == crate::error::opt_view(args.status)
            &&& crate::error::opt_view(f.assigned_to) == crate::error::opt_view(args.assigned_to)
            &&& crate::error::opt_view(f.author) == crate::error::opt_view(args.author)
            &&& crate::error::opt_view(f.tracker) == crate::error::opt_view(args.tracker)
            &&& crate::error::opt_view(f.subject) == crate::error::opt_view(args.subject)
            &&& f.custom_fields@.len() == args.custom_fields@.len()
            &&& forall|i: int|
                0 <= i < f.custom_fields@.len() ==> custom_field_arg(
                    #[trigger] args.custom_fields@[i]@,
                    (f.custom_fields@[i].0, f.custom_fields@[i].1@),
                )
            &&& f.limit == args.limit && f.offset == args.offset
        },
{
    let custom_fields = parse_custom_fields(args.custom_fields.as_slice())?;
    match &args.search {
        Some(q) => Ok(
            IssueQuery::Search {
                query: q.as_str().to_owned(),
                project: clone_opt(&args.project),
                limit: args.limit,
                offset: args.offset,
            },
        ),
        None => Ok(
            IssueQuery::List(
                IssueFilters {
                    project: clone_opt(&args.project),
                    status: clone_opt(&args.status),
                    assigned_to: clone_opt(&args.assigned_to),
                    author: clone_opt(&args.author),
                    tracker: clone_opt(&args.tracker),
                    subject: clone_opt(&args.subject),
                    custom_fields,
                    limit: args.limit,
                    offset: args.offset,
                },
            ),
        ),
    }
}

/// The filters and grouping that `time list` uses. Malformed custom field
/// arguments, and a grouping field that names none, are validation errors.
pub fn time_query(args: &TimeListArgs) -> (r: Result<
    (TimeEntryFilters, Option<GroupByField>),
    AppError,
>)
    ensures
        r is Ok <==> (forall|i: int|
            0 <= i < args.custom_fields@.len() ==> valid_custom_field_arg(
                #[trigger] args.custom_fields@[i]@,
            )) && (args.group_by is Some ==> group_by_of(args.group_by.unwrap()@) is Some),
        r is Err ==> r->Err_0 is Validation,
        r is Ok ==> {
            let f = r->Ok_0.0;
            &&& crate::error::opt_view(f.project) == crate::error::opt_view(args.project)
            &&& f.issue == args.issue
            &&& crate::error::opt_view(f.user) == crate::error::opt_view(args.user)
            &&& crate::error::opt_view(f.from) == crate::error::opt_view(args.from)
            &&& crate::error::opt_view(f.to) == crate::error::opt_view(args.to)
            &&& f.custom_fields@.len() == args.custom_fields@.len()
            &&& forall|i: int|
                0 <= i < f.custom_fields@.len() ==> custom_field_arg(
                    #[trigger] args.custom_fields@[i]@,
                    (f.custom_fields@[i].0, f.custom_fields@[i].1@),
                )
            &&& f.limit == args.limit && f.offset == args.offset
            &&& r->Ok_0.1 == match args.group_by {
                Some(g) => group_by_of(g@),
                None => None,
            }
        },
{
    let custom_fields = parse_custom_fields(args.custom_fields.as_slice())?;
    let group = match &args.group_by {
        Some(g) => match GroupByField::parse(g.as_str()) {
            Some(f) => Some(f),
            None => {
                let m = joined(joined("Invalid group-by field: '", g.as_str()).as_str(), "'");
                return Err(
                    AppError::validation_with_hint(
                        m.as_str(),
                        "Valid values: user, project, activity, issue, spent_on, cf_<id>",
                    ),
                );
            },
        },
        None => None,
    };
    let filters = TimeEntryFilters {
        project: clone_opt(&args.project),
        issue: args.issue,
        user: clone_opt(&args.user),
        from: clone_opt(&args.from),
        to: clone_opt(&args.to),
        custom_fields,
        limit: args.limit,
        offset: args.offset,
    };
    Ok((filters, group))
}

/// A time entry is logged against exactly one of an issue and a project.
pub fn check_time_target(issue: Option<u32>, project: Option<u32>) -> (r: Result<(), AppError>)
    ensures
        r is Ok <==> (issue is Some) != (project is Some),
        r is Err ==> r->Err_0 is Validation && crate::error::opt_view(r->Err_0->Validation_hint)
            == Some(
            "Use `--issue 123` to log time against an issue or `--project 1` for project-level time"@,
        ),
        issue is None && project is None ==> r is Err && r->Err_0->Validation_message@
            == "Either --issue or --project is required"@,
        issue is Some && project is Some ==> r is Err && r->Err_0->Validation_message@
            == "Only one of --issue and --project may be given"@,
{
    if issue.is_none() && project.is_none() {
        Err(
            AppError::validation_with_hint(
                "Either --issue or --project is required",
                "Use `--issue 123` to log time against an issue or `--project 1` for project-level time",
            ),
        )
    } else if issue.is_some() && project.is_some() {
        Err(
            AppError::validation_with_hint(
                "Only one of --issue and --project may be given",
                "Use `--issue 123` to log time against an issue or `--project 1` for project-level time",
            ),
        )
    } else {
        Ok(())
    }
}

} // verus!
