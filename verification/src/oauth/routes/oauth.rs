//! The resource owner's answer to an authorization request.
use vstd::prelude::*;

use oxide_auth::primitives::scope::Scope;

use crate::oauth::Consent;
use crate::oauth::routes::media::same_text;
use crate::oauth::primitives::scopes::{narrower, scope_tokens};

verus! {

/// What the owner's consent leads to.
#[derive(Clone, Copy, PartialEq, Eq, Structural, Debug)]
pub enum ConsentStep {
    /// The client is refused.
    Denied,
    /// The client is authorized; when `record_scope` holds, the requested
    /// scope is recorded as the client's authorization first.
    Authorized { record_scope: bool },
}

/// Whether a recorded scope is to be replaced by the requested one: when
/// nothing is recorded yet, or the recorded scope is a proper subset of it.
pub open spec fn spec_widens(current: Option<Scope>, requested: Scope) -> bool {
    match current {
        None => true,
        Some(c) => scope_tokens(c).subset_of(scope_tokens(requested)) && scope_tokens(c)
            != scope_tokens(requested),
    }
}

/// The view of an optional scope.
pub open spec fn opt_scope(s: Option<&Scope>) -> Option<Scope> {
    match s {
        Some(c) => Some(*c),
        None => None,
    }
}

/// What the owner's consent leads to, given the scope already recorded for
/// the client, if any, and the scope it requests. A recorded scope is only
/// ever replaced by a strictly wider one.
pub fn consent_step(consent: Consent, current: Option<&Scope>, requested: &Scope) -> (r: ConsentStep)
    ensures
        consent == Consent::Deny ==> r == ConsentStep::Denied,
        consent == Consent::Allow ==> r == (ConsentStep::Authorized {
            record_scope: spec_widens(opt_scope(current), *requested),
        }),
{
    match consent {
        Consent::Deny => ConsentStep::Denied,
        Consent::Allow => {
            let record_scope = match current {
                None => true,
                Some(c) => narrower(c, requested),
            };
            ConsentStep::Authorized { record_scope }
        },
    }
}

/// The flow a token request runs.
#[derive(Clone, Copy, PartialEq, Eq, Structural, Debug)]
pub enum TokenFlow {
    /// A refresh token is exchanged for a new access token.
    Refresh,
    /// An authorization code is exchanged for an access token.
    AccessToken,
}

/// The flow a token request runs, by its `grant_type`: `refresh_token`
/// refreshes, anything else, and no grant type at all, asks for an access
/// token.
pub fn token_flow(grant_type: Option<&str>) -> (r: TokenFlow)
    ensures
        r == (if grant_type matches Some(g) && g@ == "refresh_token"@ {
            TokenFlow::Refresh
        } else {
            TokenFlow::AccessToken
        }),
{
    match grant_type {
        Some(g) => if same_text(g, "refresh_token") {
            TokenFlow::Refresh
        } else {
            TokenFlow::AccessToken
        },
        None => TokenFlow::AccessToken,
    }
}

/// Consenting again to a scope no wider than the one recorded records
/// nothing: an authorization is never narrowed.
pub proof fn law_consent_never_narrows(current: Scope, requested: Scope)
    requires
        scope_tokens(requested).subset_of(scope_tokens(current)),
    ensures
        !spec_widens(Some(current), requested),
{
    if scope_tokens(current).subset_of(scope_tokens(requested)) {
        assert(scope_tokens(current) =~= scope_tokens(requested));
    }
}

} // verus!
