//! Keeps a host authenticated against a captive-portal-gated network.
//!
//! The library holds the decision logic of the auto-login loop, verified:
//! how a connectivity probe's answer is read ([`probe`]), how a portal page
//! is scraped for the login-form URL and how many fetches that search may
//! spend ([`portal`]), what the external login program is handed and how its
//! exit is read ([`login`]), which credentials are accepted ([`config`]),
//! and the cancellable, time-driven state machine that decides when each of
//! these runs ([`scheduler`]). The surrounding program performs the HTTP
//! requests, runs the login process, and blocks on the cancellation channel;
//! it reports each outcome back as an event and the machine answers with the
//! next action.

pub mod config;
pub mod login;
pub mod paths;
pub mod portal;
pub mod probe;
pub mod scheduler;
