//! Named connection profiles and the store that holds them, one of them active.

use vstd::prelude::*;
use crate::error::AppError;
use crate::text::same_text;

verus! {

/// A named server identity: URL and API key.
#[derive(Debug, Clone)]
pub struct Profile {
    pub name: String,
    pub url: String,
    pub api_key: String,
}

/// How an API key is shown: `****` for a key of at most eight characters,
/// else its first four and last four characters around `...`.
pub open spec fn redacted(k: Seq<char>) -> Seq<char> {
    if k.len() <= 8 {
        "****"@
    } else {
        k.subrange(0, 4) + "..."@ + k.subrange(k.len() - 4, k.len() as int)
    }
}

/// The key as it may be displayed.
pub fn redact_key(key: &str) -> (r: String)
    ensures
        r@ == redacted(key@),
{
    let n = key.unicode_len();
    if n <= 8 {
        String::from_str("****")
    } else {
        let mut s = String::from_str(key.substring_char(0, 4));
        s.append("...");
        s.append(key.substring_char(n - 4, n));
        s
    }
}

impl Profile {
    pub fn new(name: &str, url: &str, api_key: &str) -> (r: Profile)
        ensures
            r.name@ == name@,
            r.url@ == url@,
            r.api_key@ == api_key@,
    {
        Profile { name: name.to_owned(), url: url.to_owned(), api_key: api_key.to_owned() }
    }

    /// The API key as it may be displayed.
    pub fn redacted_api_key(&self) -> (r: String)
        ensures
            r@ == redacted(self.api_key@),
    {
        redact_key(self.api_key.as_str())
    }
}

/// Profiles unique by name, in the order they were first added, and the
/// name of the active one.
#[derive(Debug, Clone)]
pub struct ProfileStore {
    pub active: Option<String>,
    pub profiles: Vec<Profile>,
}

/// Whether some profile of `ps` has the name `name`.
pub open spec fn has_name(ps: Seq<Profile>, name: Seq<char>) -> bool {
    exists|i: int| 0 <= i < ps.len() && (#[trigger] ps[i]).name@ == name
}

/// The position of the profile named `name` in `ps`, or -1.
pub open spec fn position(ps: Seq<Profile>, name: Seq<char>) -> int
    decreases ps.len(),
{
    if ps.len() == 0 {
        -1
    } else if ps.last().name@ == name {
        ps.len() - 1
    } else {
        position(ps.drop_last(), name)
    }
}

pub open spec fn unique_names(ps: Seq<Profile>) -> bool {
    forall|i: int, j: int|
        0 <= i < j < ps.len() ==> (#[trigger] ps[i]).name@ != (#[trigger] ps[j]).name@
}

/// `p` is one of `entries`.
pub open spec fn is_entry(p: Profile, entries: Seq<Profile>) -> bool {
    exists|i: int| 0 <= i < entries.len() && p == entries[i]
}

/// The error for a profile name that names no stored profile.
pub open spec fn profile_not_found(name: Seq<char>, e: AppError) -> bool {
    &&& e is NotFound
    &&& e->NotFound_resource@ == "Profile"@
    &&& e->NotFound_id@ == name
    &&& crate::error::opt_view(e->NotFound_hint) == Some(
        "Use `rdm profile list` to see available profiles."@,
    )
}

pub proof fn lemma_position(ps: Seq<Profile>, name: Seq<char>)
    ensures
        -1 <= position(ps, name) < ps.len(),
        position(ps, name) >= 0 ==> ps[position(ps, name)].name@ == name,
        position(ps, name) == -1 <==> !has_name(ps, name),
        unique_names(ps) ==> forall|i: int|
            0 <= i < ps.len() && (#[trigger] ps[i]).name@ == name ==> i == position(ps, name),
    decreases ps.len(),
{
    if ps.len() > 0 {
        lemma_position(ps.drop_last(), name);
        if ps.last().name@ != name {
            if has_name(ps, name) {
                let i = choose|i: int| 0 <= i < ps.len() && (#[trigger] ps[i]).name@ == name;
                assert(ps.drop_last()[i].name@ == name);
            }
            if has_name(ps.drop_last(), name) {
                let i = choose|i: int|
                    0 <= i < ps.drop_last().len() && (#[trigger] ps.drop_last()[i]).name@ == name;
                assert(ps[i].name@ == name);
            }
        }
        if unique_names(ps) {
            assert(unique_names(ps.drop_last())) by {
                assert forall|i: int, j: int|
                    0 <= i < j < ps.drop_last().len() implies (#[trigger] ps.drop_last()[i]).name@
                    != (#[trigger] ps.drop_last()[j]).name@ by {
                    assert(ps[i].name@ != ps[j].name@);
                }
            }
            assert forall|i: int| 0 <= i < ps.len() && (#[trigger] ps[i]).name@ == name implies i
                == position(ps, name) by {
                if i < ps.len() - 1 {
                    assert(ps.drop_last()[i].name@ == name);
                    if ps.last().name@ == name {
                        assert(ps[i].name@ != ps[ps.len() - 1].name@);
                    }
                }
            }
        }
    }
}

impl ProfileStore {
    /// Names are unique and the active name, if any, names a stored profile.
    pub open spec fn well_formed(&self) -> bool {
        &&& unique_names(self.profiles@)
        &&& self.active is Some ==> has_name(self.profiles@, self.active.unwrap()@)
    }

    pub open spec fn active_name(&self) -> Option<Seq<char>> {
        match self.active {
            Some(a) => Some(a@),
            None => None,
        }
    }

    /// An empty store with no active profile.
    pub fn empty() -> (r: ProfileStore)
        ensures
            r.well_formed(),
            r.active is None,
            r.profiles@.len() == 0,
    {
        ProfileStore { active: None, profiles: Vec::new() }
    }

    /// The position of the profile named `name`, if any.
    fn find(&self, name: &str) -> (r: Option<usize>)
        ensures
            r is None <==> !has_name(self.profiles@, name@),
            r is Some ==> r.unwrap() as int == position(self.profiles@, name@),
            r is Some ==> r.unwrap() < self.profiles@.len() && self.profiles@[r.unwrap() as int].name@
                == name@,
    {
        proof {
            lemma_position(self.profiles@, name@);
        }
        let mut i: usize = self.profiles.len();
        assert(self.profiles@.subrange(0, i as int) == self.profiles@);
        while i > 0
            invariant
                i <= self.profiles@.len(),
                position(self.profiles@, name@) == position(self.profiles@.subrange(0, i as int), name@),
            decreases i,
        {
            let ghost pre = self.profiles@.subrange(0, i as int);
            assert(pre.drop_last() == self.profiles@.subrange(0, i - 1));
            if same_text(self.profiles[i - 1].name.as_str(), name) {
                return Some(i - 1);
            }
            i = i - 1;
        }
        None
    }

    /// Adds `profile`, replacing a stored profile of the same name in place.
    /// The first profile added to a store with no active one becomes active.
    pub fn add(&mut self, profile: Profile)
        requires
            old(self).well_formed(),
        ensures
            final(self).well_formed(),
            has_name(old(self).profiles@, profile.name@) ==> final(self).profiles@ == old(
                self,
            ).profiles@.update(position(old(self).profiles@, profile.name@), profile),
            !has_name(old(self).profiles@, profile.name@) ==> final(self).profiles@ == old(
                self,
            ).profiles@.push(profile),
            old(self).active is None ==> final(self).active_name() == Some(profile.name@),
            old(self).active is Some ==> final(self).active == old(self).active,
    {
        let ghost ps = self.profiles@;
        proof {
            lemma_position(ps, profile.name@);
        }
        let name = profile.name.clone();
        match self.find(name.as_str()) {
            Some(k) => {
                self.profiles.set(k, profile);
                proof {
                    let qs = self.profiles@;
                    assert forall|i: int, j: int| 0 <= i < j < qs.len() implies (#[trigger] qs[i]).name@
                        != (#[trigger] qs[j]).name@ by {
                        if i != k && j != k {
                            assert(ps[i].name@ != ps[j].name@);
                        }
                    }
                    if self.active is Some {
                        let a = self.active.unwrap()@;
                        let w = choose|w: int| 0 <= w < ps.len() && (#[trigger] ps[w]).name@ == a;
                        assert(qs[w].name@ == a);
                    }
                    assert(qs[k as int].name@ == name@);
                }
            },
            None => {
                self.profiles.push(profile);
                proof {
                    let qs = self.profiles@;
                    assert forall|i: int, j: int| 0 <= i < j < qs.len() implies (#[trigger] qs[i]).name@
                        != (#[trigger] qs[j]).name@ by {
                        if j < ps.len() {
                            assert(ps[i].name@ != ps[j].name@);
                        } else {
                            assert(qs[i] == ps[i]);
                        }
                    }
                    if self.active is Some {
                        let a = self.active.unwrap()@;
                        let w = choose|w: int| 0 <= w < ps.len() && (#[trigger] ps[w]).name@ == a;
                        assert(qs[w].name@ == a);
                    }
                    assert(qs[qs.len() - 1].name@ == name@);
                }
            },
        }
        if self.active.is_none() {
            self.active = Some(name);
        }
    }
    /// A store of `entries`, each added in turn (a later entry replaces an
    /// earlier one of the same name), with `active` the active profile where it
    /// names one of them, and none otherwise.
    pub fn from_parts(entries: Vec<Profile>, active: Option<String>) -> (r: ProfileStore)
        ensures
            r.well_formed(),
            forall|i: int| 0 <= i < entries@.len() ==> has_name(r.profiles@, (#[trigger] entries@[i]).name@),
            forall|j: int| 0 <= j < r.profiles@.len() ==> is_entry(#[trigger] r.profiles@[j], entries@),
            active is Some && has_name(r.profiles@, active.unwrap()@) ==> r.active_name() == Some(
                active.unwrap()@,
            ),
            active is None || !has_name(r.profiles@, active.unwrap()@) ==> r.active is None,
    {
        let mut store = ProfileStore::empty();
        let mut rest = entries;
        let ghost all = rest@;
        let n = rest.len();
        let mut i: usize = 0;
        while rest.len() > 0
            invariant
                all.len() == n,
                i + rest@.len() == n,
                rest@ == all.subrange(i as int, n as int),
                store.well_formed(),
                forall|x: int| 0 <= x < i ==> has_name(store.profiles@, (#[trigger] all[x]).name@),
                forall|j: int|
                    0 <= j < store.profiles@.len() ==> is_entry(#[trigger] store.profiles@[j], all),
            decreases rest@.len(),
        {
            let p = rest.remove(0);
            assert(p == all[i as int]);
            let ghost before = store.profiles@;
            proof {
                lemma_position(before, p.name@);
            }
            store.add(p);
            proof {
                let qs = store.profiles@;
                lemma_position(qs, p.name@);
                if has_name(before, p.name@) {
                    let k = position(before, p.name@);
                    assert(qs[k] == p);
                } else {
                    assert(qs[qs.len() - 1] == p);
                }
                assert forall|x: int| 0 <= x < i + 1 implies has_name(qs, (#[trigger] all[x]).name@) by {
                    if x < i {
                        let w = choose|w: int| 0 <= w < before.len() && (#[trigger] before[w]).name@
                            == all[x].name@;
                        if has_name(before, p.name@) && w == position(before, p.name@) {
                            assert(qs[w].name@ == all[x].name@);
                        } else {
                            assert(qs[w] == before[w]);
                        }
                    } else {
                        assert(has_name(qs, p.name@));
                    }
                }
                assert forall|j: int| 0 <= j < qs.len() implies is_entry(#[trigger] qs[j], all) by {
                    if qs[j] == p {
                        assert(qs[j] == all[i as int]);
                    } else {
                        assert(j < before.len() && qs[j] == before[j]);
                        assert(is_entry(before[j], all));
                    }
                }
            }
            i = i + 1;
        }
        store.active = None;
        let ghost ps = store.profiles@;
        match active {
            Some(a) => {
                let _ = store.set_active(a.as_str());
            },
            None => {},
        }
        assert(store.profiles@ == ps);
        assert forall|j: int| 0 <= j < store.profiles@.len() implies is_entry(
            #[trigger] store.profiles@[j],
            entries@,
        ) by {
            assert(is_entry(ps[j], all));
        }
        store
    }

    /// Removes the profile named `name`; fails with a not-found error where
    /// there is none. Where it was the active one, the first remaining profile
    /// becomes active, or none where none remain.
    pub fn delete(&mut self, name: &str) -> (r: Result<(), AppError>)
        requires
            old(self).well_formed(),
        ensures
            final(self).well_formed(),
            r is Err <==> !has_name(old(self).profiles@, name@),
            r is Err ==> *final(self) == *old(self) && profile_not_found(name@, r->Err_0),
            r is Ok ==> final(self).profiles@ == old(self).profiles@.remove(
                position(old(self).profiles@, name@),
            ),
            r is Ok && old(self).active_name() == Some(name@) ==> (if final(self).profiles@.len()
                == 0 {
                final(self).active is None
            } else {
                final(self).active_name() == Some(final(self).profiles@[0].name@)
            }),
            r is Ok && old(self).active_name() != Some(name@) ==> final(self).active == old(
                self,
            ).active,
    {
        let ghost ps = self.profiles@;
        proof {
            lemma_position(ps, name@);
        }
        let k = match self.find(name) {
            Some(k) => k,
            None => {
                return Err(
                    AppError::not_found_with_hint(
                        "Profile",
                        name,
                        "Use `rdm profile list` to see available profiles.",
                    ),
                );
            },
        };
        self.profiles.remove(k);
        let ghost qs = self.profiles@;
        proof {
            assert forall|i: int, j: int| 0 <= i < j < qs.len() implies (#[trigger] qs[i]).name@
                != (#[trigger] qs[j]).name@ by {
                let i0 = if i < k { i } else { i + 1 };
                let j0 = if j < k { j } else { j + 1 };
                assert(qs[i] == ps[i0]);
                assert(qs[j] == ps[j0]);
                assert(ps[i0].name@ != ps[j0].name@);
            }
        }
        let was_active = match &self.active {
            Some(a) => same_text(a.as_str(), name),
            None => false,
        };
        if was_active {
            if self.profiles.len() == 0 {
                self.active = None;
            } else {
                self.active = Some(self.profiles[0].name.clone());
                assert(has_name(qs, qs[0].name@));
            }
        } else {
            proof {
                if self.active is Some {
                    let a = self.active.unwrap()@;
                    let w = choose|w: int| 0 <= w < ps.len() && (#[trigger] ps[w]).name@ == a;
                    assert(w != k);
                    let w2 = if w < k { w } else { w - 1 };
                    assert(qs[w2] == ps[w]);
                }
            }
        }
        Ok(())
    }

    /// Makes the profile named `name` the active one; fails with a not-found
    /// error where there is none.
    pub fn set_active(&mut self, name: &str) -> (r: Result<(), AppError>)
        requires
            old(self).well_formed(),
        ensures
            final(self).well_formed(),
            final(self).profiles@ == old(self).profiles@,
            r is Err <==> !has_name(old(self).profiles@, name@),
            r is Err ==> final(self).active == old(self).active && profile_not_found(name@, r->Err_0),
            r is Ok ==> final(self).active_name() == Some(name@),
    {
        match self.find(name) {
            Some(k) => {
                self.active = Some(name.to_owned());
                assert(self.profiles@[k as int].name@ == name@);
                Ok(())
            },
            None => Err(
                AppError::not_found_with_hint(
                    "Profile",
                    name,
                    "Use `rdm profile list` to see available profiles.",
                ),
            ),
        }
    }

    /// The active profile, if any.
    pub fn get_active(&self) -> (r: Option<&Profile>)
        requires
            self.well_formed(),
        ensures
            r is None <==> self.active is None,
            r is Some ==> Some(r.unwrap().name@) == self.active_name() && has_name(
                self.profiles@,
                r.unwrap().name@,
            ) && *r.unwrap() == self.profiles@[position(self.profiles@, r.unwrap().name@)],
    {
        match &self.active {
            Some(a) => {
                proof {
                    lemma_position(self.profiles@, a@);
                }
                match self.find(a.as_str()) {
                    Some(k) => Some(&self.profiles[k]),
                    None => None,
                }
            },
            None => None,
        }
    }

    /// The profile named `name`, if any.
    pub fn get(&self, name: &str) -> (r: Option<&Profile>)
        ensures
            r is None <==> !has_name(self.profiles@, name@),
            r is Some ==> *r.unwrap() == self.profiles@[position(self.profiles@, name@)],
    {
        match self.find(name) {
            Some(k) => Some(&self.profiles[k]),
            None => None,
        }
    }

    /// The names of all profiles, in the store's order.
    pub fn list(&self) -> (r: Vec<String>)
        ensures
            r@.len() == self.profiles@.len(),
            forall|i: int| 0 <= i < r@.len() ==> (#[trigger] r@[i])@ == self.profiles@[i].name@,
    {
        let mut out: Vec<String> = Vec::new();
        let mut i: usize = 0;
        while i < self.profiles.len()
            invariant
                i <= self.profiles@.len(),
                out@.len() == i,
                forall|j: int| 0 <= j < i ==> (#[trigger] out@[j])@ == self.profiles@[j].name@,
            decreases self.profiles@.len() - i,
        {
            out.push(self.profiles[i].name.as_str().to_owned());
            i = i + 1;
        }
        out
    }
}

impl Default for ProfileStore {
    fn default() -> (r: ProfileStore)
        ensures
            r.well_formed(),
            r.active is None,
            r.profiles@.len() == 0,
    {
        ProfileStore::empty()
    }
}

/// Deleting the active profile leaves another stored profile active, or none
/// when no profile remains.
pub proof fn lemma_delete_active_reassigns(
    before: ProfileStore,
    after: ProfileStore,
    name: Seq<char>,
)
    requires
        before.well_formed(),
        after.well_formed(),
        before.active_name() == Some(name),
        has_name(before.profiles@, name),
        after.profiles@ == before.profiles@.remove(position(before.profiles@, name)),
        if after.profiles@.len() == 0 {
            after.active is None
        } else {
            after.active_name() == Some(after.profiles@[0].name@)
        },
    ensures
        after.active is None <==> after.profiles@.len() == 0,
        after.active is Some ==> after.active_name() != Some(name) && has_name(
            after.profiles@,
            after.active.unwrap()@,
        ),
        !has_name(after.profiles@, name),
{
    let ps = before.profiles@;
    lemma_position(ps, name);
    let k = position(ps, name);
    let qs = after.profiles@;
    assert forall|i: int| 0 <= i < qs.len() implies (#[trigger] qs[i]).name@ != name by {
        let i0 = if i < k { i } else { i + 1 };
        assert(qs[i] == ps[i0]);
    }
    if qs.len() > 0 {
        assert(qs[0].name@ != name);
    }
}


} // verus!
