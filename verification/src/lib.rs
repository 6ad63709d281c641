//! Sign-in through an identity provider with the OAuth2 authorization-code
//! flow and PKCE, and the server-side sessions that follow from it.
//!
//! The crate holds the decisions of that subsystem: which callbacks are
//! accepted, which user and session a login resolves to, when a session
//! is valid, what the sweeper removes, and which cookies each response
//! carries. Network and database traffic are left to the caller, who
//! hands results in as plain values.
//!
//! - `provider`, `attempt`: the redirect that starts a login attempt, and
//!   the attempt's secrets.
//! - `callback`: the provider's callback as a state machine; `handler`
//!   runs it to its end against the tables.
//! - `session_store`, `user_directory`: the session table and the user
//!   table, held in memory, with the rules that any store behind them
//!   has to keep.
//! - `session_check`: who is signed in, and signing out.
//! - `sweeper`: the hourly removal of expired sessions.
//! - `response`, `models`, `error`, `constants`, `ident`, `clock`: the
//!   values that the others share.

pub mod attempt;
pub mod callback;
pub mod clock;
pub mod constants;
pub mod error;
pub mod handler;
pub mod ident;
pub mod models;
pub mod provider;
pub mod response;
pub mod session_check;
pub mod session_store;
pub mod sweeper;
pub mod user_directory;
