//! Supervisor for a locally hosted web-application service, with readiness
//! probing, retrying launches, and a shared update-progress tracker.
//!
//! The crate holds the decision logic only: every sleep, socket, process and
//! HTTP request is performed by the surrounding program, which drives the
//! state machines here and reports each outcome back.

pub mod config;
pub mod http;
pub mod port;
pub mod probe;
pub mod progress;
pub mod retry;
pub mod script;
pub mod supervisor;
pub mod text;
pub mod update_flow;
