//! Scopes of access, as `oxide_auth` keeps them: sets of tokens.
use vstd::prelude::*;

use oxide_auth::primitives::scope::Scope;

verus! {

#[verifier::external_type_specification]
#[verifier::external_body]
pub struct ExScope(Scope);

/// The tokens a scope holds.
pub uninterp spec fn scope_tokens(s: Scope) -> Set<Seq<char>>;

/// `<` on `oxide_auth::primitives::scope::Scope`. Its `partial_cmp` answers
/// `Less` exactly when every token of `a` is in `b` and not every token of
/// `b` is in `a`: the contract claims `a`'s tokens are a proper subset of
/// `b`'s.
#[verifier::external_body]
pub(crate) fn narrower(a: &Scope, b: &Scope) -> (r: bool)
    ensures
        r == (scope_tokens(*a).subset_of(scope_tokens(*b)) && scope_tokens(*a) != scope_tokens(*b)),
{
    a < b
}

} // verus!
