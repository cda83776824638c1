//! The cached list of time-tracking activities, valid for a day, and the
//! resolution of an activity from an ID or a name.

use vstd::prelude::*;
use std::time::{SystemTime, UNIX_EPOCH};
use crate::error::AppError;
use crate::text::{decimal, joined, lower_of, lowercase, parse_u32, parsed_u32, u64_text};

verus! {

/// How long a cache stays valid, in seconds.
pub const CACHE_TTL_SECS: u64 = 86400;

/// A time-tracking category.
#[derive(Debug, Clone)]
pub struct Activity {
    pub id: u32,
    pub name: String,
    pub is_default: Option<bool>,
}

/// The activities the server lists.
#[derive(Debug, Clone)]
pub struct ActivityList {
    pub time_entry_activities: Vec<Activity>,
}

/// Activities as fetched at `updated_at`, in seconds since the Unix epoch.
#[derive(Debug, Clone)]
pub struct ActivityCache {
    pub updated_at: u64,
    pub activities: Vec<Activity>,
}

/// Relies on `SystemTime::now` and `SystemTime::duration_since`: whole seconds
/// since the Unix epoch, or 0 for a clock set before it. Nothing is promised of
/// the value.
#[verifier::external_body]
fn unix_now() -> (r: u64) {
    match SystemTime::now().duration_since(UNIX_EPOCH) {
        Ok(d) => d.as_secs(),
        Err(_) => 0,
    }
}

/// `i` is the first position of an activity with ID `id`.
pub open spec fn first_with_id(acts: Seq<Activity>, id: u32, i: int) -> bool {
    &&& 0 <= i < acts.len()
    &&& acts[i].id == id
    &&& forall|j: int| 0 <= j < i ==> (#[trigger] acts[j]).id != id
}

pub open spec fn has_id(acts: Seq<Activity>, id: u32) -> bool {
    exists|i: int| 0 <= i < acts.len() && (#[trigger] acts[i]).id == id
}

/// Names equal once case is folded.
pub open spec fn same_folded(a: Seq<char>, b: Seq<char>) -> bool {
    lower_of(a) == lower_of(b)
}

/// `i` is the first position of an activity named `name`, case aside.
pub open spec fn first_with_name(acts: Seq<Activity>, name: Seq<char>, i: int) -> bool {
    &&& 0 <= i < acts.len()
    &&& same_folded(acts[i].name@, name)
    &&& forall|j: int| 0 <= j < i ==> !same_folded((#[trigger] acts[j]).name@, name)
}

pub open spec fn has_name(acts: Seq<Activity>, name: Seq<char>) -> bool {
    exists|i: int| 0 <= i < acts.len() && same_folded((#[trigger] acts[i]).name@, name)
}

pub open spec fn deref_opt(r: Option<&Activity>) -> Option<Activity> {
    match r {
        Some(a) => Some(*a),
        None => None,
    }
}

/// What resolving `token` gives: where it reads as an unsigned integer that is
/// some activity's ID, the first such activity; else the first activity whose
/// name matches it case aside; else nothing.
pub open spec fn resolves_to(acts: Seq<Activity>, token: Seq<char>, r: Option<Activity>) -> bool {
    let n = parsed_u32(token);
    if n is Some && has_id(acts, n.unwrap()) {
        exists|i: int| first_with_id(acts, n.unwrap(), i) && r == Some(acts[i])
    } else if has_name(acts, token) {
        exists|i: int| first_with_name(acts, token, i) && r == Some(acts[i])
    } else {
        r is None
    }
}

/// The age text: seconds under a minute, minutes under an hour, else hours.
pub open spec fn age_text(age: nat) -> Seq<char> {
    if age < 60 {
        decimal(age) + "s ago"@
    } else if age < 3600 {
        decimal(age / 60) + "m ago"@
    } else {
        decimal(age / 3600) + "h ago"@
    }
}

impl ActivityCache {
    /// A cache of `activities` stamped with the current time.
    pub fn new(activities: Vec<Activity>) -> (r: ActivityCache)
        ensures
            r.activities@ == activities@,
    {
        ActivityCache::new_at(activities, unix_now())
    }

    /// A cache of `activities` stamped with `now`.
    pub fn new_at(activities: Vec<Activity>, now: u64) -> (r: ActivityCache)
        ensures
            r.activities@ == activities@,
            r.updated_at == now,
    {
        ActivityCache { updated_at: now, activities }
    }

    pub open spec fn valid_at(&self, now: u64) -> bool {
        now - self.updated_at < CACHE_TTL_SECS
    }

    /// Whether the cache is younger than a day at the current time.
    pub fn is_valid(&self) -> (r: bool) {
        self.is_valid_at(unix_now())
    }

    /// Whether the cache is younger than a day at time `now`.
    pub fn is_valid_at(&self, now: u64) -> (r: bool)
        ensures
            r == self.valid_at(now),
    {
        now < self.updated_at || now - self.updated_at < CACHE_TTL_SECS
    }

    /// How long ago the cache was written, at the current time.
    pub fn age_string(&self) -> (r: String)
        ensures
            exists|age: nat| r@ == age_text(age),
    {
        self.age_string_at(unix_now())
    }

    /// How long ago the cache was written, at time `now`; a stamp in the future
    /// counts as no age.
    pub fn age_string_at(&self, now: u64) -> (r: String)
        ensures
            r@ == age_text(if now >= self.updated_at {
                (now - self.updated_at) as nat
            } else {
                0
            }),
    {
        let age: u64 = if now >= self.updated_at {
            now - self.updated_at
        } else {
            0
        };
        if age < 60 {
            joined(u64_text(age).as_str(), "s ago")
        } else if age < 3600 {
            joined(u64_text(age / 60).as_str(), "m ago")
        } else {
            joined(u64_text(age / 3600).as_str(), "h ago")
        }
    }

    /// The first activity named `name`, case aside.
    pub fn find_by_name(&self, name: &str) -> (r: Option<&Activity>)
        ensures
            r is None <==> !has_name(self.activities@, name@),
            r is Some ==> exists|i: int|
                first_with_name(self.activities@, name@, i) && *r.unwrap() == self.activities@[i],
    {
        let folded = lowercase(name);
        let mut i: usize = 0;
        while i < self.activities.len()
            invariant
                i <= self.activities@.len(),
                folded@ == lower_of(name@),
                forall|j: int| 0 <= j < i ==> !same_folded((#[trigger] self.activities@[j]).name@, name@),
            decreases self.activities@.len() - i,
        {
            let f = lowercase(self.activities[i].name.as_str());
            if f == folded {
                assert(first_with_name(self.activities@, name@, i as int));
                return Some(&self.activities[i]);
            }
            i = i + 1;
        }
        None
    }

    /// The first activity with ID `id`.
    pub fn find_by_id(&self, id: u32) -> (r: Option<&Activity>)
        ensures
            r is None <==> !has_id(self.activities@, id),
            r is Some ==> exists|i: int|
                first_with_id(self.activities@, id, i) && *r.unwrap() == self.activities@[i],
    {
        let mut i: usize = 0;
        while i < self.activities.len()
            invariant
                i <= self.activities@.len(),
                forall|j: int| 0 <= j < i ==> (#[trigger] self.activities@[j]).id != id,
            decreases self.activities@.len() - i,
        {
            if self.activities[i].id == id {
                assert(first_with_id(self.activities@, id, i as int));
                return Some(&self.activities[i]);
            }
            i = i + 1;
        }
        None
    }

    /// The activity that `name_or_id` designates: by ID first where it reads
    /// as an unsigned integer, else by name, case aside.
    pub fn resolve(&self, name_or_id: &str) -> (r: Option<&Activity>)
        ensures
            resolves_to(self.activities@, name_or_id@, deref_opt(r)),
    {
        match parse_u32(name_or_id) {
            Some(id) => match self.find_by_id(id) {
                Some(a) => {
                    return Some(a);
                },
                None => {},
            },
            None => {},
        }
        self.find_by_name(name_or_id)
    }
}

/// The ID of the activity that `name_or_id` designates, or a validation error
/// where none does.
pub fn resolve_activity(cache: &ActivityCache, name_or_id: &str) -> (r: Result<u32, AppError>)
    ensures
        r is Ok <==> (exists|a: Activity| resolves_to(cache.activities@, name_or_id@, Some(a))),
        r is Ok ==> resolves_to(
            cache.activities@,
            name_or_id@,
            Some(choose|a: Activity| resolves_to(cache.activities@, name_or_id@, Some(a))),
        ) && r->Ok_0 == (choose|a: Activity|
            resolves_to(cache.activities@, name_or_id@, Some(a))).id,
        r is Err ==> resolves_to(cache.activities@, name_or_id@, None) && r->Err_0 is Validation
            && r->Err_0->Validation_message@ == "Unknown activity: '"@ + name_or_id@ + "'"@
            && crate::error::opt_view(r->Err_0->Validation_hint) == Some(
            "Use `rdm time activities list` to see available activities."@,
        ),
{
    match cache.resolve(name_or_id) {
        Some(a) => {
            proof {
                lemma_resolution_unique(cache.activities@, name_or_id@, Some(*a));
            }
            Ok(a.id)
        },
        None => {
            let msg = joined(joined("Unknown activity: '", name_or_id).as_str(), "'");
            Err(
                AppError::validation_with_hint(
                    msg.as_str(),
                    "Use `rdm time activities list` to see available activities.",
                ),
            )
        },
    }
}

/// Whether a command may use the cached list instead of fetching: only where
/// no refresh was asked for and a cache was loaded that is valid at `now`.
pub fn use_cached_at(force_refresh: bool, cache: Option<&ActivityCache>, now: u64) -> (r: bool)
    ensures
        r == (!force_refresh && cache is Some && cache.unwrap().valid_at(now)),
{
    if force_refresh {
        return false;
    }
    match cache {
        Some(c) => c.is_valid_at(now),
        None => false,
    }
}

/// Whether a command may use the cached list instead of fetching, at the
/// current time.
pub fn use_cached(force_refresh: bool, cache: Option<&ActivityCache>) -> (r: bool)
    ensures
        r ==> !force_refresh && cache is Some,
{
    use_cached_at(force_refresh, cache, unix_now())
}

/// A token resolves to at most one outcome.
pub proof fn lemma_resolution_unique(acts: Seq<Activity>, token: Seq<char>, r: Option<Activity>)
    requires
        resolves_to(acts, token, r),
    ensures
        forall|q: Option<Activity>| resolves_to(acts, token, q) ==> q == r,
{
    assert forall|q: Option<Activity>| resolves_to(acts, token, q) implies q == r by {
        let n = parsed_u32(token);
        if n is Some && has_id(acts, n.unwrap()) {
            let i = choose|i: int| first_with_id(acts, n.unwrap(), i) && r == Some(acts[i]);
            let k = choose|k: int| first_with_id(acts, n.unwrap(), k) && q == Some(acts[k]);
            assert(i == k) by {
                if i < k {
                    assert(acts[i].id != n.unwrap());
                }
                if k < i {
                    assert(acts[k].id != n.unwrap());
                }
            }
        } else if has_name(acts, token) {
            let i = choose|i: int| first_with_name(acts, token, i) && r == Some(acts[i]);
            let k = choose|k: int| first_with_name(acts, token, k) && q == Some(acts[k]);
            assert(i == k) by {
                if i < k {
                    assert(!same_folded(acts[i].name@, token));
                }
                if k < i {
                    assert(!same_folded(acts[k].name@, token));
                }
            }
        }
    }
}

/// A token that is the decimal text of an ID present in the cache resolves to
/// the first activity with that ID, whatever the activities' names.
pub proof fn lemma_resolve_numeric_id(acts: Seq<Activity>, n: u32, r: Option<Activity>)
    requires
        has_id(acts, n),
        resolves_to(acts, decimal(n as nat), r),
    ensures
        r is Some,
        r.unwrap().id == n,
        exists|i: int| first_with_id(acts, n, i) && r == Some(acts[i]),
{
    crate::text::lemma_parse_decimal(n);
}

/// A token that is no unsigned integer, or names no ID present, resolves by
/// name, case aside, or not at all.
pub proof fn lemma_resolve_by_name(acts: Seq<Activity>, token: Seq<char>, r: Option<Activity>)
    requires
        parsed_u32(token) is None || !has_id(acts, parsed_u32(token).unwrap()),
        resolves_to(acts, token, r),
    ensures
        r is Some <==> has_name(acts, token),
        r is Some ==> same_folded(r.unwrap().name@, token),
        r is Some ==> exists|i: int| first_with_name(acts, token, i) && r == Some(acts[i]),
{
}

/// A cache is valid from the moment it is stamped until a day has passed, and
/// not after.
pub proof fn lemma_validity_window(c: ActivityCache, later: u64)
    ensures
        c.valid_at(c.updated_at),
        c.updated_at <= later && later < c.updated_at + CACHE_TTL_SECS ==> c.valid_at(later),
        later >= c.updated_at + CACHE_TTL_SECS ==> !c.valid_at(later),
{
}

} // verus!
