//! A verified core for an HTTP reverse-proxy gateway: service resolution by
//! host+path pattern, session-auth delegation decisions, and the forwarding
//! plan with its failure-to-status mapping.
pub mod auth;
pub mod config;
pub mod forward;
pub mod json;
pub mod pattern;
pub mod pipeline;
pub mod table;
