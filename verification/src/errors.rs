//! The failures the engine can report, and the exact text of the warning
//! lines that surface them.
//!
//! Manifest-level failures (`ManifestUnreadable`, `InvalidManifestEntry`)
//! abort the whole run; per-dependency failures (`CleanupFailed`,
//! `FetchFailed`) are isolated to their dependency and the run goes on.

use vstd::prelude::*;

verus! {

#[derive(Debug)]
pub enum EngineError {
    /// The manifest file is missing (`found == false`) or could not be
    /// parsed at all (`found == true`).
    ManifestUnreadable { found: bool },
    /// A dependency entry has the wrong shape: the `dependencies` key does
    /// not hold a table (`dependencies_table == false`), or one of the
    /// table's values is not a string (`dependencies_table == true`).
    InvalidManifestEntry { dependencies_table: bool },
    /// A stale local copy of the dependency could not be removed.
    CleanupFailed { path: String },
    /// The remote clone of one dependency failed.
    FetchFailed { name: String, url: String },
}

/// The warning text for each failure.
pub open spec fn message_spec(e: EngineError) -> Seq<char> {
    match e {
        EngineError::ManifestUnreadable { found } => if found {
            "Something went wrong in 'jess.toml'"@
        } else {
            "Couldn't find 'jess.toml'"@
        },
        EngineError::InvalidManifestEntry { dependencies_table } => if dependencies_table {
            "Expected string URL value"@
        } else {
            "Expected key e.g. `a = \"b\"`"@
        },
        EngineError::CleanupFailed { path } => "failed to remove '"@ + path@ + "'"@,
        EngineError::FetchFailed { name: _, url } => "failed to download '"@ + url@ + "'"@,
    }
}

impl EngineError {
    pub fn message(&self) -> (r: String)
        ensures
            r@ == message_spec(*self),
    {
        match self {
            EngineError::ManifestUnreadable { found } => {
                if *found {
                    "Something went wrong in 'jess.toml'".to_owned()
                } else {
                    "Couldn't find 'jess.toml'".to_owned()
                }
            },
            EngineError::InvalidManifestEntry { dependencies_table } => {
                if *dependencies_table {
                    "Expected string URL value".to_owned()
                } else {
                    "Expected key e.g. `a = \"b\"`".to_owned()
                }
            },
            EngineError::CleanupFailed { path } => {
                let mut r = "failed to remove '".to_owned();
                r.append(path.as_str());
                r.append("'");
                r
            },
            EngineError::FetchFailed { name: _, url } => {
                let mut r = "failed to download '".to_owned();
                r.append(url.as_str());
                r.append("'");
                r
            },
        }
    }
}

/// The one-line warning form every failure is printed in.
pub fn warn_line(message: &str) -> (r: String)
    ensures
        r@ == "wrong: "@ + message@,
{
    let mut r = "wrong: ".to_owned();
    r.append(message);
    r
}

} // verus!
