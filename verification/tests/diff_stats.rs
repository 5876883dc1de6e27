use gcop_rs::diff::parse_diff_stats;
use gcop_rs::error::GcopError;

#[test]
fn test_empty_diff_yields_zero_stats() {
    let stats = parse_diff_stats("").unwrap();
    assert!(stats.files_changed.is_empty());
    assert_eq!(stats.insertions, 0);
    assert_eq!(stats.deletions, 0);
}

#[test]
fn test_single_file_counts() {
    let diff = "diff --git a/src/main.rs b/src/main.rs\n--- a/src/main.rs\n+++ b/src/main.rs\n unchanged line\n+added line\n+another added line\n-removed line\n";
    let stats = parse_diff_stats(diff).unwrap();
    assert_eq!(stats.files_changed, vec!["src/main.rs".to_string()]);
    assert_eq!(stats.insertions, 2);
    assert_eq!(stats.deletions, 1);
}

#[test]
fn test_file_markers_are_not_counted() {
    let diff = "diff --git a/x.txt b/x.txt\n--- a/x.txt\n+++ b/x.txt\n+real\n";
    let stats = parse_diff_stats(diff).unwrap();
    assert_eq!(stats.insertions, 1);
    assert_eq!(stats.deletions, 0);
}

#[test]
fn test_files_deduplicated_in_first_seen_order() {
    let diff = "diff --git a/b.rs b/b.rs\n+one\ndiff --git a/a.rs b/a.rs\n-gone\ndiff --git a/b.rs b/b.rs\n+two\n";
    let stats = parse_diff_stats(diff).unwrap();
    assert_eq!(stats.files_changed, vec!["b.rs".to_string(), "a.rs".to_string()]);
    assert_eq!(stats.insertions, 2);
    assert_eq!(stats.deletions, 1);
}

#[test]
fn test_three_distinct_files() {
    let diff = "diff --git a/one b/one\ndiff --git a/two b/two\ndiff --git a/three b/three\n";
    let stats = parse_diff_stats(diff).unwrap();
    assert_eq!(stats.files_changed.len(), 3);
    assert_eq!(
        stats.files_changed,
        vec!["one".to_string(), "two".to_string(), "three".to_string()]
    );
}

#[test]
fn test_bare_plus_and_minus_lines_count() {
    let diff = "+\n-\n++\n--\n+++\n---\n";
    let stats = parse_diff_stats(diff).unwrap();
    assert_eq!(stats.insertions, 2);
    assert_eq!(stats.deletions, 2);
}

#[test]
fn test_malformed_header_is_rejected() {
    let diff = "diff --git broken\n+added\n";
    let result = parse_diff_stats(diff);
    assert!(matches!(result, Err(GcopError::InvalidInput(msg)) if msg == "malformed diff header line"));
}

#[test]
fn test_truncated_header_is_rejected() {
    let diff = "diff --git a/\n";
    let result = parse_diff_stats(diff);
    assert!(result.is_err());
}
