//! The manifest table and the locator resolver.
//!
//! The manifest is handed to the engine already parsed, as an ordered table
//! of named entries. The resolver validates the shape of every entry and
//! turns each one into a concrete fetch request: the full remote URL and the
//! local path the dependency is cloned into, always one level under the
//! library directory and named exactly after the dependency.

use vstd::prelude::*;

use crate::errors::EngineError;

verus! {

/// The value of one manifest entry: a plain locator string, or any other
/// shape (table, array, number, boolean), which is invalid.
pub enum EntryValue {
    Locator(String),
    Other,
}

/// One entry of the `dependencies` table.
pub struct ManifestEntry {
    pub name: String,
    pub value: EntryValue,
}

/// The `dependencies` key of the manifest: absent, a table of entries in the
/// manifest's order, or present but not a table at all.
pub enum Dependencies {
    Absent,
    Table(Vec<ManifestEntry>),
    NotTable,
}

/// An already-parsed manifest, as the external loader hands it over.
pub struct Manifest {
    pub dependencies: Dependencies,
}

/// One fetch to perform: clone `remote_url` into `local_path`.
#[derive(Debug)]
pub struct FetchRequest {
    pub name: String,
    pub remote_url: String,
    pub local_path: String,
}

/// The remote URL a locator resolves to.
pub open spec fn remote_url_of(locator: Seq<char>) -> Seq<char> {
    "https://github.com/"@ + locator
}

/// The local directory a dependency is cloned into: a direct child of the
/// library directory, named after the dependency.
pub open spec fn local_path_of(name: Seq<char>) -> Seq<char> {
    "src/lib/"@ + name
}

/// `r` is exactly the fetch request that entry `e` resolves to.
pub open spec fn request_matches(r: FetchRequest, e: ManifestEntry) -> bool {
    &&& e.value is Locator
    &&& r.name@ == e.name@
    &&& r.remote_url@ == remote_url_of(e.value->Locator_0@)
    &&& r.local_path@ == local_path_of(e.name@)
}

/// Every entry's value is a plain string.
pub open spec fn all_locators(es: Seq<ManifestEntry>) -> bool {
    forall|i: int| 0 <= i < es.len() ==> (#[trigger] es[i].value) is Locator
}

/// Resolution succeeds exactly on these manifests: no `dependencies` key at
/// all, or a `dependencies` table whose values are all strings.
pub open spec fn resolvable(m: Manifest) -> bool {
    match m.dependencies {
        Dependencies::Absent => true,
        Dependencies::Table(es) => all_locators(es@),
        Dependencies::NotTable => false,
    }
}

/// Turns the manifest into fetch requests, one per entry, in the table's
/// order. Validation is all-or-nothing: a single entry of the wrong shape
/// fails the whole pass with `InvalidManifestEntry`, and no requests are
/// produced. A manifest without a `dependencies` key yields no requests and
/// is not an error.
pub fn resolve(m: &Manifest) -> (r: Result<Vec<FetchRequest>, EngineError>)
    ensures
        r is Ok <==> resolvable(*m),
        r matches Ok(reqs) ==> match m.dependencies {
            Dependencies::Absent => reqs@.len() == 0,
            Dependencies::Table(es) => reqs@.len() == es@.len() && (forall|i: int|
                0 <= i < es@.len() ==> request_matches(#[trigger] reqs@[i], es@[i])),
            Dependencies::NotTable => false,
        },
        r matches Err(e) ==> e == (EngineError::InvalidManifestEntry {
            dependencies_table: m.dependencies is Table,
        }),
{
    match &m.dependencies {
        Dependencies::Absent => Ok(Vec::new()),
        Dependencies::NotTable => Err(
            EngineError::InvalidManifestEntry { dependencies_table: false },
        ),
        Dependencies::Table(es) => {
            let mut reqs: Vec<FetchRequest> = Vec::new();
            let mut i: usize = 0;
            while i < es.len()
                invariant
                    m.dependencies == Dependencies::Table(*es),
                    i <= es@.len(),
                    all_locators(es@.take(i as int)),
                    reqs@.len() == i,
                    forall|j: int|
                        0 <= j < i ==> request_matches(#[trigger] reqs@[j], es@[j]),
                decreases es@.len() - i,
            {
                let entry = &es[i];
                match &entry.value {
                    EntryValue::Locator(locator) => {
                        let mut url = "https://github.com/".to_owned();
                        url.append(locator.as_str());
                        let mut path = "src/lib/".to_owned();
                        path.append(entry.name.as_str());
                        reqs.push(
                            FetchRequest {
                                name: entry.name.clone(),
                                remote_url: url,
                                local_path: path,
                            },
                        );
                    },
                    EntryValue::Other => {
                        proof {
                            assert(!((es@[i as int].value) is Locator));
                            assert(!all_locators(es@));
                            assert(m.dependencies is Table);
                        }
                        return Err(
                            EngineError::InvalidManifestEntry { dependencies_table: true },
                        );
                    },
                }
                proof {
                    assert(es@.take(i + 1 as int) =~= es@.take(i as int).push(es@[i as int]));
                }
                i = i + 1;
            }
            proof {
                assert(es@.take(es@.len() as int) =~= es@);
            }
            Ok(reqs)
        },
    }
}

} // verus!
