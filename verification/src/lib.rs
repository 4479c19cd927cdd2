//! Dependency-fetching engine for a small source-language package manager.
//!
//! The library resolves a parsed manifest table into fetch requests, tracks
//! the two-phase (network transfer, local checkout) progress of each fetch,
//! renders that progress as a single overwritable status line, and aggregates
//! the fetched module names into the text of a generated import file.
//! Reading the manifest file, the actual remote clone and all terminal output
//! are left to the surrounding program.

pub mod driver;
pub mod errors;
pub mod manifest;
pub mod progress;
pub mod text;
