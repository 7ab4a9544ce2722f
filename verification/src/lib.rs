//! A verified engine for declarative suites of HTTP assertions.
//!
//! A suite is an ordered list of test cases; each case names a route, an HTTP
//! method and an expected status code.  The engine threads captured variables,
//! a carry-forward time-boundary policy, verbosity and critical-failure
//! short-circuiting across the run.  The engine itself performs no I/O: it
//! hands a fully formed request description to its caller and consumes the
//! transport's outcome as a plain event, so every decision the engine makes is
//! stated in a contract and proved.

pub mod capture;
pub mod classify;
pub mod config;
pub mod method;
pub mod outside;
pub mod request;
pub mod runner;
pub mod sink;
pub mod store;
pub mod text;
pub mod utils;
