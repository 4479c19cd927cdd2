//! The per-fetch bookkeeping and the aggregate import file.
//!
//! The surrounding program runs the fetch loop itself — it removes a stale
//! local copy and performs the blocking clone — and reports what happened as
//! a `FetchOutcome`. This module decides everything else: which dependency
//! names are recorded for aggregation, which warning each outcome surfaces,
//! and the exact content of the generated import file.

use vstd::prelude::*;

use crate::errors::EngineError;
use crate::manifest::FetchRequest;

verus! {

/// How one fetch ended. A dependency reaches the clone-attempted point
/// unless removing its stale local copy failed first.
pub enum FetchOutcome {
    /// The stale local copy could not be removed; the clone was never
    /// attempted.
    CleanupFailed,
    /// The clone ran and succeeded.
    Cloned,
    /// The clone ran and failed.
    CloneFailed,
}

/// The recorded names, one sequence of characters per module.
pub open spec fn names_of(v: Seq<String>) -> Seq<Seq<char>> {
    v.map(|i: int, s: String| s@)
}

/// Announced above each fetch's progress stream.
pub fn announce_line(name: &str) -> (r: String)
    ensures
        r@ == "Downloading "@ + name@,
{
    let mut r = "Downloading ".to_owned();
    r.append(name);
    r
}

/// Records one finished fetch. The dependency's name is recorded whenever
/// the clone was attempted — deliberately even when it failed, so the
/// generated import list mirrors the manifest rather than the network's
/// luck. A failed outcome yields the warning to surface; either failure is
/// fatal to this dependency alone.
pub fn record_fetch(modules: &mut Vec<String>, req: &FetchRequest, outcome: &FetchOutcome) -> (warn:
    Option<EngineError>)
    ensures
        match *outcome {
            FetchOutcome::CleanupFailed => {
                &&& final(modules)@ == old(modules)@
                &&& warn matches Some(e) && e == (EngineError::CleanupFailed {
                    path: req.local_path,
                })
            },
            FetchOutcome::Cloned => {
                &&& names_of(final(modules)@) == names_of(old(modules)@).push(req.name@)
                &&& warn is None
            },
            FetchOutcome::CloneFailed => {
                &&& names_of(final(modules)@) == names_of(old(modules)@).push(req.name@)
                &&& warn matches Some(e) && e == (EngineError::FetchFailed {
                    name: req.name,
                    url: req.remote_url,
                })
            },
        },
{
    match outcome {
        FetchOutcome::CleanupFailed => Some(
            EngineError::CleanupFailed { path: req.local_path.clone() },
        ),
        FetchOutcome::Cloned => {
            modules.push(req.name.clone());
            proof {
                assert(names_of(modules@) =~= names_of(old(modules)@).push(req.name@));
            }
            None
        },
        FetchOutcome::CloneFailed => {
            modules.push(req.name.clone());
            proof {
                assert(names_of(modules@) =~= names_of(old(modules)@).push(req.name@));
            }
            Some(
                EngineError::FetchFailed { name: req.name.clone(), url: req.remote_url.clone() },
            )
        },
    }
}

/// One generated line per recorded module.
pub open spec fn import_line(name: Seq<char>) -> Seq<char> {
    "import "@ + name
}

/// The newline-joined import directives for `names`, in order.
pub open spec fn aggregate_spec(names: Seq<Seq<char>>) -> Seq<char>
    decreases names.len(),
{
    if names.len() == 0 {
        Seq::empty()
    } else if names.len() == 1 {
        import_line(names[0])
    } else {
        aggregate_spec(names.drop_last()) + "\n"@ + import_line(names.last())
    }
}

/// The content of the generated import file: one `import <name>` line per
/// recorded module, in fetch order — or nothing at all when no module was
/// recorded, in which case no file is to be written.
pub fn aggregate(modules: &Vec<String>) -> (r: Option<String>)
    ensures
        r is Some <==> modules@.len() > 0,
        r matches Some(s) ==> s@ == aggregate_spec(names_of(modules@)),
{
    if modules.len() == 0 {
        None
    } else {
        let mut out = "import ".to_owned();
        let first = &modules[0];
        out.append(first.as_str());
        proof {
            assert(names_of(modules@).take(1) =~= seq![modules@[0]@]);
            assert(out@ == aggregate_spec(names_of(modules@).take(1)));
        }
        let mut i: usize = 1;
        while i < modules.len()
            invariant
                1 <= i <= modules@.len(),
                out@ == aggregate_spec(names_of(modules@).take(i as int)),
            decreases modules@.len() - i,
        {
            out.append("\n");
            out.append("import ");
            let name = &modules[i];
            out.append(name.as_str());
            proof {
                let ns = names_of(modules@);
                assert(ns.take(i + 1 as int).drop_last() =~= ns.take(i as int));
                assert(ns.take(i + 1 as int).last() == modules@[i as int]@);
                assert(out@ =~= aggregate_spec(ns.take(i + 1 as int)));
            }
            i = i + 1;
        }
        proof {
            assert(names_of(modules@).take(modules@.len() as int) =~= names_of(modules@));
        }
        Some(out)
    }
}

} // verus!
