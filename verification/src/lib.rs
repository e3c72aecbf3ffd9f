//! A front end that offers the familiar `mtr` command line on top of a
//! separately installed probe engine.
//!
//! The library holds the decisions of that front end: it validates the
//! options, decides whether a target is acceptable, walks the ordered search
//! for the engine, translates the options into the engine's own arguments and
//! classifies the outcome of a run. Everything that touches the operating
//! system is left to the caller, who performs each requested step and reports
//! back what happened.

pub mod dist;
pub mod error;
pub mod invocation;
pub mod locator;
pub mod options;
pub mod outcome;
pub mod session;
pub mod target;
pub mod text;
