use jess::driver::{aggregate, announce_line, record_fetch, FetchOutcome};
use jess::errors::{warn_line, EngineError};
use jess::manifest::{resolve, Dependencies, EntryValue, Manifest, ManifestEntry};
use jess::progress::{State, Stats};
use jess::text::{dec_str, pad_left, percent};

fn entry(name: &str, locator: &str) -> ManifestEntry {
    ManifestEntry {
        name: name.to_string(),
        value: EntryValue::Locator(locator.to_string()),
    }
}

fn bad_entry(name: &str) -> ManifestEntry {
    ManifestEntry {
        name: name.to_string(),
        value: EntryValue::Other,
    }
}

#[test]
fn resolve_all_strings_one_request_per_entry_in_order() {
    let m = Manifest {
        dependencies: Dependencies::Table(vec![entry("foo", "a/b"), entry("bar", "c/d")]),
    };
    let reqs = resolve(&m).unwrap();
    assert_eq!(reqs.len(), 2);
    assert_eq!(reqs[0].name, "foo");
    assert_eq!(reqs[0].remote_url, "https://github.com/a/b");
    assert_eq!(reqs[0].local_path, "src/lib/foo");
    assert_eq!(reqs[1].name, "bar");
    assert_eq!(reqs[1].remote_url, "https://github.com/c/d");
    assert_eq!(reqs[1].local_path, "src/lib/bar");
}

#[test]
fn resolve_missing_dependencies_yields_no_requests() {
    let m = Manifest { dependencies: Dependencies::Absent };
    let reqs = resolve(&m).unwrap();
    assert!(reqs.is_empty());
}

#[test]
fn resolve_empty_table_yields_no_requests() {
    let m = Manifest { dependencies: Dependencies::Table(vec![]) };
    let reqs = resolve(&m).unwrap();
    assert!(reqs.is_empty());
}

#[test]
fn resolve_non_string_value_fails_whole_pass() {
    let m = Manifest {
        dependencies: Dependencies::Table(vec![entry("foo", "a/b"), bad_entry("bar")]),
    };
    let err = resolve(&m).unwrap_err();
    assert!(matches!(
        err,
        EngineError::InvalidManifestEntry { dependencies_table: true }
    ));
}

#[test]
fn resolve_number_value_aborts_with_invalid_manifest_entry() {
    let m = Manifest { dependencies: Dependencies::Table(vec![bad_entry("foo")]) };
    let err = resolve(&m).unwrap_err();
    assert!(matches!(
        err,
        EngineError::InvalidManifestEntry { dependencies_table: true }
    ));
}

#[test]
fn resolve_non_table_dependencies_fails() {
    let m = Manifest { dependencies: Dependencies::NotTable };
    let err = resolve(&m).unwrap_err();
    assert!(matches!(
        err,
        EngineError::InvalidManifestEntry { dependencies_table: false }
    ));
}

#[test]
fn percent_zero_total_is_zero() {
    assert_eq!(percent(0, 0), 0);
    assert_eq!(percent(17, 0), 0);
}

#[test]
fn percent_full_is_hundred() {
    assert_eq!(percent(5, 5), 100);
    assert_eq!(percent(1, 1), 100);
}

#[test]
fn percent_truncates_and_stays_in_range() {
    assert_eq!(percent(3, 10), 30);
    assert_eq!(percent(1, 3), 33);
    assert_eq!(percent(2, 3), 66);
    assert_eq!(percent(0, 7), 0);
    for part in 0..30 {
        for total in 0..30 {
            assert!(percent(part, total) <= 100);
        }
    }
}

#[test]
fn decimal_rendering() {
    assert_eq!(dec_str(0), "0");
    assert_eq!(dec_str(7), "7");
    assert_eq!(dec_str(10), "10");
    assert_eq!(dec_str(1024), "1024");
}

#[test]
fn padding_right_aligns() {
    assert_eq!(pad_left("7", 3), "  7");
    assert_eq!(pad_left("100", 3), "100");
    assert_eq!(pad_left("abcd", 3), "abcd");
    assert_eq!(pad_left("", 2), "  ");
}

#[test]
fn render_meter_line_while_transfer_runs() {
    let mut st = State {
        progress: Some(Stats {
            received_objects: 3,
            total_objects: 10,
            received_bytes: 2048,
            indexed_objects: 5,
            indexed_deltas: 0,
            total_deltas: 0,
        }),
        total: 4,
        current: 1,
        path: Some("src/x".to_string()),
        newline: false,
    };
    let r = st.render();
    assert!(!r.newline_first);
    assert!(!st.newline);
    assert_eq!(
        r.line,
        "\tnet  30% (   2 kb,     3/   10)  /  idx  50% (    5/   10)  /  chk  25% (   1/   4) src/x\r"
    );
}

#[test]
fn render_meter_line_zero_checkout_total_shows_zero() {
    let mut st = State {
        progress: Some(Stats {
            received_objects: 1,
            total_objects: 2,
            received_bytes: 0,
            indexed_objects: 0,
            indexed_deltas: 0,
            total_deltas: 0,
        }),
        total: 0,
        current: 0,
        path: None,
        newline: false,
    };
    let r = st.render();
    assert_eq!(
        r.line,
        "\tnet  50% (   0 kb,     1/    2)  /  idx   0% (    0/    2)  /  chk   0% (   0/   0) \r"
    );
}

#[test]
fn render_wraps_exactly_once_when_transfer_completes() {
    let mut st = State::new();
    st.on_transfer(Stats {
        received_objects: 7,
        total_objects: 7,
        received_bytes: 7168,
        indexed_objects: 7,
        indexed_deltas: 2,
        total_deltas: 9,
    });
    let first = st.render();
    assert!(first.newline_first);
    assert!(st.newline);
    assert_eq!(first.line, "\tprogress: 2/9\r");
    let second = st.render();
    assert!(!second.newline_first);
    assert_eq!(second.line, "\tprogress: 2/9\r");
}

#[test]
fn checkout_callback_records_counters_and_path() {
    let mut st = State::new();
    st.on_checkout(Some("a/b.rs".to_string()), 2, 5);
    assert_eq!(st.current, 2);
    assert_eq!(st.total, 5);
    assert_eq!(st.path.as_deref(), Some("a/b.rs"));
    assert!(st.progress.is_none());
}

#[test]
fn record_fetch_after_clone_records_name_without_warning() {
    let m = Manifest { dependencies: Dependencies::Table(vec![entry("foo", "a/b")]) };
    let reqs = resolve(&m).unwrap();
    let mut modules: Vec<String> = Vec::new();
    let warn = record_fetch(&mut modules, &reqs[0], &FetchOutcome::Cloned);
    assert!(warn.is_none());
    assert_eq!(modules, vec!["foo".to_string()]);
}

#[test]
fn record_fetch_after_failed_clone_still_records_name() {
    let m = Manifest { dependencies: Dependencies::Table(vec![entry("foo", "a/b")]) };
    let reqs = resolve(&m).unwrap();
    let mut modules: Vec<String> = Vec::new();
    let warn = record_fetch(&mut modules, &reqs[0], &FetchOutcome::CloneFailed).unwrap();
    assert_eq!(modules, vec!["foo".to_string()]);
    assert_eq!(
        warn.message(),
        "failed to download 'https://github.com/a/b'"
    );
}

#[test]
fn record_fetch_after_failed_cleanup_records_nothing() {
    let m = Manifest { dependencies: Dependencies::Table(vec![entry("foo", "a/b")]) };
    let reqs = resolve(&m).unwrap();
    let mut modules: Vec<String> = Vec::new();
    let warn = record_fetch(&mut modules, &reqs[0], &FetchOutcome::CleanupFailed).unwrap();
    assert!(modules.is_empty());
    assert_eq!(warn.message(), "failed to remove 'src/lib/foo'");
}

#[test]
fn aggregate_empty_set_writes_nothing() {
    let modules: Vec<String> = Vec::new();
    assert!(aggregate(&modules).is_none());
}

#[test]
fn aggregate_one_line_per_module_in_order() {
    let modules = vec!["a".to_string(), "b".to_string(), "c".to_string()];
    assert_eq!(aggregate(&modules).unwrap(), "import a\nimport b\nimport c");
}

#[test]
fn scenario_single_string_dependency_resolves_and_aggregates() {
    let m = Manifest { dependencies: Dependencies::Table(vec![entry("foo", "a/b")]) };
    let reqs = resolve(&m).unwrap();
    assert_eq!(reqs.len(), 1);
    assert_eq!(reqs[0].remote_url, "https://github.com/a/b");
    assert_eq!(reqs[0].local_path, "src/lib/foo");
    let mut modules: Vec<String> = Vec::new();
    assert!(record_fetch(&mut modules, &reqs[0], &FetchOutcome::Cloned).is_none());
    assert_eq!(aggregate(&modules).unwrap(), "import foo");
}

#[test]
fn error_messages_match_each_failure() {
    assert_eq!(
        EngineError::ManifestUnreadable { found: false }.message(),
        "Couldn't find 'jess.toml'"
    );
    assert_eq!(
        EngineError::ManifestUnreadable { found: true }.message(),
        "Something went wrong in 'jess.toml'"
    );
    assert_eq!(
        EngineError::InvalidManifestEntry { dependencies_table: true }.message(),
        "Expected string URL value"
    );
    assert_eq!(
        EngineError::InvalidManifestEntry { dependencies_table: false }.message(),
        "Expected key e.g. `a = \"b\"`"
    );
    assert_eq!(
        EngineError::CleanupFailed { path: "src/lib/foo".to_string() }.message(),
        "failed to remove 'src/lib/foo'"
    );
    assert_eq!(
        EngineError::FetchFailed {
            name: "foo".to_string(),
            url: "https://github.com/a/b".to_string(),
        }
        .message(),
        "failed to download 'https://github.com/a/b'"
    );
}

#[test]
fn status_line_forms() {
    assert_eq!(warn_line("Expected string URL value"), "wrong: Expected string URL value");
    assert_eq!(announce_line("foo"), "Downloading foo");
}
