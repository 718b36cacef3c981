//! Two-phase, time-bounded change of an account's email address.
//!
//! A caller first *requests* the change: the new address is stored as pending
//! beside the current one, under a fresh verification code and the time of
//! issuance, and the code is sent to the current address. Whoever presents the
//! code before it expires *confirms* the change: the pending address becomes
//! the current one, and the code is spent.
//!
//! - [`handler`] holds the two handlers as state machines. They decide; the
//!   caller of a machine talks to the store, the mailer and the transport.
//! - [`store`] states what the two conditional updates do to the account
//!   table, and [`flow`] what a whole request and a whole confirmation come to
//!   when the handlers are run against it.
//! - [`laws`] proves what holds of every run: a code confirms at most once, it
//!   expires, requests are rate-limited, and the old address guards the change.
//! - [`rate_limit`], [`code`] and [`constants`] hold the policy, [`auth`] the
//!   principal and the errors.
//! - [`util`] encodes account identifiers as URL-safe text and back.

pub mod auth;
pub mod code;
pub mod constants;
pub mod flow;
pub mod handler;
pub mod laws;
pub mod rate_limit;
pub mod store;
pub mod util;
