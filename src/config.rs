//! Resolution of the server URL and API key from command-line flags, the
//! environment and the active profile, each field on its own.

use vstd::prelude::*;
use crate::error::AppError;
use crate::profile::{redact_key, redacted, ProfileStore, Profile};

verus! {

/// The resolved connection settings.
#[derive(Debug, Clone)]
pub struct Config {
    pub url: String,
    pub api_key: String,
    /// The profile that supplied a setting, if one did.
    pub profile_name: Option<String>,
}

impl Config {
    /// The API key as it may be displayed.
    pub fn redacted_api_key(&self) -> (r: String)
        ensures
            r@ == redacted(self.api_key@),
    {
        redact_key(self.api_key.as_str())
    }
}

pub open spec fn str_opt(o: Option<&str>) -> Option<Seq<char>> {
    match o {
        Some(s) => Some(s@),
        None => None,
    }
}

/// The first of two optional values that is present.
pub open spec fn first_of(a: Option<Seq<char>>, b: Option<Seq<char>>) -> Option<Seq<char>> {
    if a is Some {
        a
    } else {
        b
    }
}

/// What the resolution gives: `(url, api_key, profile_name)`, or nothing
/// where a field stays unset.
pub open spec fn resolution(
    cli_url: Option<Seq<char>>,
    cli_api_key: Option<Seq<char>>,
    env_url: Option<Seq<char>>,
    env_api_key: Option<Seq<char>>,
    active: Option<Profile>,
) -> Option<(Seq<char>, Seq<char>, Option<Seq<char>>)> {
    let url = first_of(cli_url, env_url);
    let key = first_of(cli_api_key, env_api_key);
    if url is Some && key is Some {
        Some((url.unwrap(), key.unwrap(), None))
    } else if active is Some {
        let p = active.unwrap();
        Some(
            (
                first_of(url, Some(p.url@)).unwrap(),
                first_of(key, Some(p.api_key@)).unwrap(),
                Some(p.name@),
            ),
        )
    } else {
        None
    }
}

/// The active profile of a store, in spec form.
pub open spec fn active_profile(store: ProfileStore) -> Option<Profile> {
    match store.active {
        Some(a) => Some(store.profiles@[crate::profile::position(store.profiles@, a@)]),
        None => None,
    }
}

fn owned(o: Option<&str>) -> (r: Option<String>)
    ensures
        r is Some == o is Some,
        r is Some ==> r.unwrap()@ == o.unwrap()@,
{
    match o {
        Some(s) => Some(s.to_owned()),
        None => None,
    }
}

/// Resolves URL and API key, each by the first source that has it: the
/// command-line flag, then the environment variable, then the active profile.
/// Fails with a configuration error where a field stays unset.
pub fn load_config(
    cli_url: Option<&str>,
    cli_api_key: Option<&str>,
    env_url: Option<&str>,
    env_api_key: Option<&str>,
    store: &ProfileStore,
) -> (r: Result<Config, AppError>)
    requires
        store.well_formed(),
    ensures
        ({
            let res = resolution(
                str_opt(cli_url),
                str_opt(cli_api_key),
                str_opt(env_url),
                str_opt(env_api_key),
                active_profile(*store),
            );
            &&& r is Ok <==> res is Some
            &&& r is Ok ==> r->Ok_0.url@ == res.unwrap().0 && r->Ok_0.api_key@ == res.unwrap().1
                && crate::error::opt_view(r->Ok_0.profile_name) == res.unwrap().2
            &&& r is Err ==> r->Err_0 is Config && r->Err_0->Config_message@
                == "No Redmine credentials configured"@ && crate::error::opt_view(
                r->Err_0->Config_hint,
            ) == Some(
                "Set REDMINE_URL and REDMINE_API_KEY environment variables, or use `rdm profile add` to create a profile."@,
            )
        }),
{
    let url = match owned(cli_url) {
        Some(u) => Some(u),
        None => owned(env_url),
    };
    let key = match owned(cli_api_key) {
        Some(k) => Some(k),
        None => owned(env_api_key),
    };
    if url.is_some() && key.is_some() {
        return Ok(Config { url: url.unwrap(), api_key: key.unwrap(), profile_name: None });
    }
    match store.get_active() {
        Some(p) => {
            let u = match url {
                Some(u) => u,
                None => p.url.as_str().to_owned(),
            };
            let k = match key {
                Some(k) => k,
                None => p.api_key.as_str().to_owned(),
            };
            Ok(Config { url: u, api_key: k, profile_name: Some(p.name.as_str().to_owned()) })
        },
        None => Err(
            AppError::config_with_hint(
                "No Redmine credentials configured",
                "Set REDMINE_URL and REDMINE_API_KEY environment variables, or use `rdm profile add` to create a profile.",
            ),
        ),
    }
}

/// Precedence of the URL: a flag wins over the environment, which wins over
/// the active profile; with none of the three the resolution fails.
pub proof fn lemma_url_precedence(
    a: Seq<char>,
    b: Seq<char>,
    key: Option<Seq<char>>,
    p: Profile,
)
    ensures
        resolution(Some(a), key, Some(b), None, Some(p)).unwrap().0 == a,
        resolution(None, key, Some(b), None, Some(p)).unwrap().0 == b,
        resolution(None, key, None, None, Some(p)).unwrap().0 == p.url@,
        resolution(None, key, None, None, None) is None,
        resolution(Some(a), key, Some(b), None, None) is Some <==> key is Some,
{
}

} // verus!
