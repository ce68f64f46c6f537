//! The credential decision: what a transport challenge gets back. The
//! provider is stateless; the key material itself is handled by the git
//! transport around the library.

use vstd::prelude::*;
use crate::errors::CredentialError;

verus! {

/// Decides a transport credential challenge: with a resolvable username
/// the challenge is answered with that username (the transport pairs it
/// with the configured key file); without one, the operation that asked
/// fails with a `CredentialError` naming the URL — never a panic.
pub fn credential_plan<'a>(url: &str, username: Option<&'a str>) -> (r: Result<
    &'a str,
    CredentialError,
>)
    ensures
        username matches Some(u) ==> (r matches Ok(v) && v@ == u@),
        username is None ==> (r matches Err(e) && e.url@ == url@),
{
    match username {
        Some(u) => Ok(u),
        None => Err(CredentialError { url: String::from_str(url) }),
    }
}

} // verus!
