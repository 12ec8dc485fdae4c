//! Verified core of an OAuth 2.0 authorization server: the wire rules of its
//! HTTP surface, its server-side session store, the sign-in, sign-up and
//! consent decisions, and the error envelopes it answers with.
pub mod auth_error;
pub mod oauth;
pub mod routes;
pub mod server;
