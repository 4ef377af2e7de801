//! Regenerates zsh completion files for a set of user-configured tools.
//!
//! The crate holds the decisions of the program and none of its effects:
//! where the configuration and the completion files live, what each step of
//! a run asks of the operating system, and what is reported to the user.
//!
//! - [`paths`] derives the paths from the environment.
//! - [`config`] holds the configured tools.
//! - [`report`] words the lines that are printed and names the exit
//!   statuses.
//! - [`generate`] is the generation of one completion file: probe, run,
//!   write, report.
//! - [`session`] is one run of `getconfig` or `build`: reset, locate, load,
//!   launch, collect, exit.
//! - [`system`] models a whole run, with its concurrent generations, on a
//!   machine; [`invariants`] says what holds of every state of it, and
//!   [`laws`] what follows for the run as a whole.

pub mod paths;
pub mod config;
pub mod report;
pub mod generate;
pub mod session;
pub mod system;
pub mod invariants;
pub mod laws;
