//! Adapter for an external command-line media tool.
//!
//! The library builds the exact argument lists for three operations
//! (version check, audio extraction, audio/video merging) and translates
//! a subprocess outcome into each operation's result. Arguments are kept
//! as a discrete list, never joined into a shell command line, so paths
//! with spaces or metacharacters pass through verbatim. Launching the
//! subprocess itself is left to the caller, which hands the observed
//! outcome back to the library.

pub mod invocation;
pub mod outcome;
