//! Keeping an automation runtime at hand for a desktop application: finding
//! the interpreter, its modules and the component cache; installing the
//! binary components the runtime needs; supervising the processes started
//! for jobs; and activating license keys against a local ledger.
//!
//! The library decides and composes; it performs no input or output.  Its
//! callers probe the file system, fetch, spawn and kill, and tell the
//! library what they found.
pub mod encoding;
pub mod install_run;
pub mod installer;
pub mod launch;
pub mod ledger;
pub mod manifest;
pub mod report;
pub mod resolver;
pub mod runtime_setup;
pub mod spawn;
pub mod supervisor;
pub mod text;
