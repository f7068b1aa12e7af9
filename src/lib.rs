//! Request-path filters for a service mesh: a credential-acquisition filter on
//! the outbound side and a policy-enforcement filter on the inbound side. Each
//! is a per-request state machine driven by host callbacks; the host glue only
//! performs the actions these machines decide on.
pub mod endpoint;
pub mod text;
pub mod json;
pub mod credential;
pub mod policy;
