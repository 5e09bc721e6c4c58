//! A connector abstraction and status reconciliation engine for payment
//! attempts.
//!
//! Every payment processor speaks its own vocabulary. The engine keeps one
//! canonical lifecycle for each payment attempt and merges into it what the
//! processors report, from calls and from notifications, in whatever order
//! the reports arrive:
//!
//! - [`canonical`] holds the canonical statuses and the graph of their
//!   lifecycle;
//! - [`connector`] and [`globalpay`] map a processor's vocabulary to them;
//! - [`registry`] resolves the connector and credential of a profile;
//! - [`blocklist`] screens a payment before an attempt is created for it;
//! - [`attempt`] and [`engine`] merge observed statuses into attempts;
//! - [`polling`] and [`coordinator`] decide when to ask a processor again;
//! - [`webhook`] names what a notification says and what its sender is
//!   told.
//!
//! The library calls nothing and waits for nothing: whoever uses it makes
//! the calls and hands the answers in. [`dashboard_metadata`] and
//! [`common_config`] hold the records of a merchant dashboard.

pub mod attempt;
pub mod blocklist;
pub mod canonical;
pub mod common_config;
pub mod connector;
pub mod coordinator;
pub mod dashboard_metadata;
pub mod engine;
pub mod globalpay;
pub mod polling;
pub mod registry;
pub mod text;
pub mod webhook;
