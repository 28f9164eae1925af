//! Decision logic of a command-line courier that looks a recipient up by
//! e-mail address on a messaging platform and delivers a file with a text
//! message to them.
//!
//! The crate holds everything that is decided or computed: which requests
//! are made, how replies are read, and what is reported. Performing the
//! requests is left to the caller, who feeds the replies back in:
//! [`session::begin`] hands out the first action, and [`session::Session::step`]
//! takes what came of an action and hands out the next, until the action is
//! to finish. [`run`] states what holds of every run that is driven so.
//!
//! Two things are taken on trust from other crates and marked as such where
//! they stand: how `serde_json` reads a JSON document ([`json`]), and the
//! reason text that `reqwest` prints for a status code ([`status`]).

pub mod delivery;
pub mod failure;
pub mod json;
pub mod lookup;
pub mod request;
pub mod run;
pub mod session;
pub mod status;
mod text;
