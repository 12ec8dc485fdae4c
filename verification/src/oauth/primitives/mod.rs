//! Primitives shared by the OAuth flows.
pub mod scopes;
