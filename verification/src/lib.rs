//! The engine of `cargo post`: what it takes to run a post-build script
//! after a build of cargo.
//!
//! The library works out the context of a build (package, target, profile,
//! output directory), turns it into the variables that the script is run
//! with, writes the manifest of the package that builds the script, and
//! decides what a run does next and how it ends. It starts no process and
//! touches no file: a program around it does that and hands it what it found.

pub mod config;
pub mod context;
pub mod document;
pub mod environment;
pub mod manifest;
pub mod options;
pub mod paths;
pub mod protocol;
pub mod script;
pub mod text;
