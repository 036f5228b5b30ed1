//! The HTTP layer's own logic: error envelopes, token claims, request guards,
//! review assistance, the mailer's links, and the decisions of every route.
pub mod auth;
pub mod error;
pub mod guards;
pub mod llm;
pub mod mailer;
pub mod routes;
