//! The error taxonomy: run-fatal configuration and enumeration errors, and
//! the repo-scoped credential error.

use vstd::prelude::*;

verus! {

/// A configuration problem found before any network or filesystem mutation.
/// Run-fatal.
#[derive(Clone, Copy, Debug, PartialEq, Eq, Structural)]
pub enum ConfigError {
    /// The access token is absent from the environment.
    MissingToken,
    /// Both a user scope and an organization scope were selected.
    ConflictingScopeSelection,
    /// Neither a user scope nor an organization scope was selected.
    MissingScopeSelection,
    /// The destination base path exists but is not a directory.
    DestinationNotADirectory,
}

impl ConfigError {
    /// The diagnostic line that the boundary layer prints for this error.
    pub open spec fn spec_message(self) -> Seq<char> {
        match self {
            ConfigError::MissingToken => "missing environment variable GITHUB_TOKEN"@,
            ConfigError::ConflictingScopeSelection => "provide either user or org, but not both"@,
            ConfigError::MissingScopeSelection => "provide either user or org, but not neither"@,
            ConfigError::DestinationNotADirectory => "path exists, but is not a directory"@,
        }
    }

    /// Renders the diagnostic message for this configuration error.
    pub fn message(&self) -> (m: String)
        ensures
            m@ == self.spec_message(),
    {
        match self {
            ConfigError::MissingToken => String::from_str(
                "missing environment variable GITHUB_TOKEN",
            ),
            ConfigError::ConflictingScopeSelection => String::from_str(
                "provide either user or org, but not both",
            ),
            ConfigError::MissingScopeSelection => String::from_str(
                "provide either user or org, but not neither",
            ),
            ConfigError::DestinationNotADirectory => String::from_str(
                "path exists, but is not a directory",
            ),
        }
    }
}

/// Inventory enumeration failed for the whole run: either the retry budget
/// for one page was exhausted, or a non-retryable failure (such as an
/// authentication rejection) was met. Run-fatal: no partial inventory is
/// acted upon.
#[derive(Clone, Copy, Debug, PartialEq, Eq, Structural)]
pub enum FetchError {
    /// Retryable failures on one page outlasted the bounded retry budget.
    RetryBudgetExhausted { page: u64 },
    /// A non-retryable failure, e.g. an authentication rejection.
    NonRetryable { page: u64 },
}

/// A transport challenge asked for a credential but carried no resolvable
/// username. Repo-scoped: it fails only the operation that requested the
/// credential.
#[derive(Clone, Debug)]
pub struct CredentialError {
    /// The URL whose transport challenge triggered the error.
    pub url: String,
}

impl CredentialError {
    /// The diagnostic line naming the URL that triggered the challenge.
    pub open spec fn spec_message(self) -> Seq<char> {
        "cannot determine username from URL "@ + self.url@
    }

    /// Renders the diagnostic message for this credential error.
    pub fn message(&self) -> (m: String)
        ensures
            m@ == self.spec_message(),
    {
        let mut m = String::from_str("cannot determine username from URL ");
        m.append(self.url.as_str());
        m
    }
}

} // verus!
