//! The account scope: whose repositories are enumerated, and against which
//! endpoint.

use vstd::prelude::*;
use crate::errors::ConfigError;

verus! {

/// Scope determines if the user's or an organization's repositories are
/// backed up. Immutable once constructed; one per run.
pub struct Scope {
    /// The account's display name; also the per-scope directory name.
    pub name: String,
    /// The API endpoint path queried for this scope's inventory.
    pub endpoint: String,
    /// The scope-specific filter parameter, as a key/value pair.
    pub query: (String, String),
}

impl Scope {
    /// Builds the scope that enumerates the repositories the given user owns.
    pub fn for_user(name: String) -> (s: Scope)
        ensures
            s.name@ == name@,
            s.endpoint@ == "user/repos"@,
            s.query.0@ == "affiliation"@,
            s.query.1@ == "owner"@,
    {
        Scope {
            name,
            endpoint: String::from_str("user/repos"),
            query: (String::from_str("affiliation"), String::from_str("owner")),
        }
    }

    /// Builds the scope that enumerates all repositories of the given
    /// organization.
    pub fn for_org(name: String) -> (s: Scope)
        ensures
            s.name@ == name@,
            s.endpoint@ == "orgs/"@ + name@ + "/repos"@,
            s.query.0@ == "type"@,
            s.query.1@ == "all"@,
    {
        let mut endpoint = String::from_str("orgs/");
        endpoint.append(name.as_str());
        endpoint.append("/repos");
        Scope {
            name,
            endpoint,
            query: (String::from_str("type"), String::from_str("all")),
        }
    }

    /// The full inventory URL for this scope.
    pub fn api_url(&self) -> (u: String)
        ensures
            u@ == "https://api.github.com/"@ + self.endpoint@,
    {
        let mut u = String::from_str("https://api.github.com/");
        u.append(self.endpoint.as_str());
        u
    }
}

/// Selects exactly one scope from the command line's user and organization
/// options: both or neither is a configuration error, reported before any
/// network activity.
pub fn select_scope(user: Option<String>, org: Option<String>) -> (r: Result<
    Scope,
    ConfigError,
>)
    ensures
        user is Some && org is Some ==> (r matches Err(e) && e is ConflictingScopeSelection),
        user is None && org is None ==> (r matches Err(e) && e is MissingScopeSelection),
        user is Some && org is None ==> (r matches Ok(s) && s.name@ == user->Some_0@
            && s.endpoint@ == "user/repos"@ && s.query.0@ == "affiliation"@ && s.query.1@
            == "owner"@),
        org is Some && user is None ==> (r matches Ok(s) && s.name@ == org->Some_0@
            && s.endpoint@ == "orgs/"@ + org->Some_0@ + "/repos"@ && s.query.0@ == "type"@
            && s.query.1@ == "all"@),
{
    match (user, org) {
        (Some(_), Some(_)) => Err(ConfigError::ConflictingScopeSelection),
        (None, None) => Err(ConfigError::MissingScopeSelection),
        (Some(name), None) => Ok(Scope::for_user(name)),
        (None, Some(name)) => Ok(Scope::for_org(name)),
    }
}

/// Accepts the access token read from the environment, or reports its
/// absence as a configuration error.
pub fn require_token(token: Option<String>) -> (r: Result<String, ConfigError>)
    ensures
        token is Some ==> (r matches Ok(v) && v@ == token->Some_0@),
        token is None ==> (r matches Err(e) && e is MissingToken),
{
    match token {
        Some(t) => Ok(t),
        None => Err(ConfigError::MissingToken),
    }
}

} // verus!
