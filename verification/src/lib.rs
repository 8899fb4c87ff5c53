//! Payment orchestration core.
//!
//! For each payment operation the core validates the request, gathers the
//! state of the payment, decides which connector or connectors handle it,
//! and maps the outcome into the answer for the merchant. The storage engine
//! and the connectors' wire adapters stay outside: whatever they read or
//! answer is handed in as plain values, and what is to be done with them
//! next is handed back.
//!
//! - [`pipeline`] sequences the stages of an operation.
//! - [`payments`] holds the aggregate, the dispatch policy and the router.
//! - [`dispatch`] plans the connector calls and gathers their answers.
//! - [`access_token`] is the cache-or-refresh policy for connector credentials.
//! - [`requests`] and [`flows`] prepare the envelope of a connector call.
//! - [`transformers`] builds the payloads shown to the merchant.
//! - [`payment_session`] is the session-token operation.
//! - [`redirect`], [`files`] and [`disputes`] serve the redirect callback and
//!   the evidence files of disputes.

pub mod text;
pub mod json;
pub mod clock;
pub mod enums;
pub mod errors;
pub mod storage;
pub mod api;
pub mod types;
pub mod helpers;
pub mod payments;
pub mod pipeline;
pub mod dispatch;
pub mod access_token;
pub mod requests;
pub mod flows;
pub mod transformers;
pub mod payment_session;
pub mod redirect;
pub mod files;
pub mod disputes;
