use file_transfer::file_utils::{check_file, clean_file_list, path_exists};

#[test]
fn test_check_file() {
    let temp_dir = tempfile::TempDir::new().unwrap();
    let file = tempfile::Builder::new()
        .prefix("name")
        .tempfile_in(temp_dir.path())
        .unwrap();
    assert!(check_file(file.path().to_str().unwrap()));
    assert!(!check_file("non-existing.not"));
    assert!(!check_file(temp_dir.path().to_str().unwrap()));
}

#[test]
fn test_path_exists() {
    let file = tempfile::NamedTempFile::new().unwrap();
    assert!(path_exists(file.path().to_str().unwrap()));
    assert!(!path_exists("non-existing.not"));
}

#[test]
fn test_clean_file_list_drops_missing_and_directories() {
    let temp_dir = tempfile::TempDir::new().unwrap();
    let file_a = tempfile::Builder::new()
        .prefix("a")
        .tempfile_in(temp_dir.path())
        .unwrap();
    let file_b = tempfile::Builder::new()
        .prefix("b")
        .tempfile_in(temp_dir.path())
        .unwrap();
    let a = file_a.path().to_str().unwrap().to_string();
    let b = file_b.path().to_str().unwrap().to_string();
    let dir = temp_dir.path().to_str().unwrap().to_string();
    let missing = "never-created.bin".to_string();

    let requested = vec![a.clone(), missing, dir, b.clone()];
    let kept = clean_file_list(&requested);
    assert_eq!(kept, vec![a, b]);
}

#[test]
fn test_clean_file_list_empty() {
    let requested: Vec<String> = Vec::new();
    assert_eq!(clean_file_list(&requested), Vec::<String>::new());
}

#[test]
fn test_qualifies_needs_both_answers() {
    assert!(file_transfer::file_utils::qualifies(true, true));
    assert!(!file_transfer::file_utils::qualifies(true, false));
    assert!(!file_transfer::file_utils::qualifies(false, true));
    assert!(!file_transfer::file_utils::qualifies(false, false));
}

#[test]
fn test_filter_requested_keeps_exactly_the_true_answers() {
    let files: Vec<String> = ["a", "b", "a", "c"].iter().map(|s| s.to_string()).collect();
    let keep = vec![true, false, true, false];
    let kept = file_transfer::file_utils::filter_requested(&files, &keep);
    assert_eq!(kept, vec!["a".to_string(), "a".to_string()]);

    let none = file_transfer::file_utils::filter_requested(&files, &vec![false; 4]);
    assert_eq!(none, Vec::<String>::new());

    let all = file_transfer::file_utils::filter_requested(&files, &vec![true; 4]);
    assert_eq!(all, files);
}
