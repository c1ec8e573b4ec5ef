//! Signing credentials. A request either runs under the service's configured
//! key or under a key the caller supplied; an absent or empty key field means
//! the configured key, so an empty string never reaches the signer as a key.

use crate::errors::PipelineError;
use vstd::prelude::*;

verus! {

/// Which signing key a request runs under.
pub enum Credential {
    /// Use the process-configured signing key.
    Configured,
    /// Use this caller-supplied signing key.
    Explicit(String),
}

/// The key the pipeline selects for a request key field and a configured
/// key: the caller's key exactly when present and nonempty, otherwise the
/// configured one (or none, if none is configured).
pub open spec fn selected_key(field: Option<Seq<char>>, configured: Option<Seq<char>>) -> Option<
    Seq<char>,
> {
    match field {
        Some(k) => if k.len() > 0 {
            Some(k)
        } else {
            configured
        },
        None => configured,
    }
}

impl Credential {
    /// The key this credential resolves to under a configured key.
    pub open spec fn spec_resolved(self, configured: Option<Seq<char>>) -> Option<Seq<char>> {
        match self {
            Credential::Explicit(k) => Some(k@),
            Credential::Configured => configured,
        }
    }
}

/// The view of an optional configured key.
pub open spec fn key_view(configured: Option<String>) -> Option<Seq<char>> {
    match configured {
        Some(k) => Some(k@),
        None => None,
    }
}

/// Builds the credential a request's key field selects: an absent or empty
/// field means the configured key, anything else is an explicit key.
pub fn credential_of_field(field: &Option<String>) -> (c: Credential)
    ensures
        forall|configured: Option<Seq<char>>|
            c.spec_resolved(configured) == selected_key(key_view(*field), configured),
{
    match field {
        Some(k) => {
            if k.as_str().is_empty() {
                Credential::Configured
            } else {
                Credential::Explicit(k.clone())
            }
        },
        None => Credential::Configured,
    }
}

/// Resolves a credential to the key the signer will use, or reports that no
/// key is available.
pub fn resolve_key(cred: &Credential, configured: &Option<String>) -> (r: Result<
    String,
    PipelineError,
>)
    ensures
        cred.spec_resolved(key_view(*configured)) matches Some(k) ==> (r matches Ok(key) && key@
            == k),
        cred.spec_resolved(key_view(*configured)) is None ==> (r matches Err(e) && e
            matches PipelineError::ConfigError(m) && m@ == "no signing key is configured"@),
{
    match cred {
        Credential::Explicit(k) => Ok(k.clone()),
        Credential::Configured => {
            match configured {
                Some(k) => Ok(k.clone()),
                None => Err(
                    PipelineError::ConfigError("no signing key is configured".to_owned()),
                ),
            }
        },
    }
}

/// The caller-supplied key wins whenever the key field is present and
/// nonempty; the configured key is used exactly when the field is absent or
/// empty. In particular two distinct keys are never confused: the selected
/// key equals the caller's in the first case and the configured one in the
/// second.
pub proof fn lemma_caller_key_wins(field: Option<Seq<char>>, configured: Option<Seq<char>>)
    ensures
        field matches Some(k) ==> selected_key(field, configured) == (if k.len() > 0 {
            Some(k)
        } else {
            configured
        }),
        field is None ==> selected_key(field, configured) == configured,
{
}

} // verus!
