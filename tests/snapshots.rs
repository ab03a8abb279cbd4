use snapcheck::{check_snapshot, check_snapshot_no_diff, compare, Error, Verdict};

/// Runs one check against an in-memory snapshot file and applies its write.
fn run(file: &mut Option<String>, actual: &str, update: bool) -> Verdict {
    let verdict = check_snapshot(actual, file, update);
    if verdict.write {
        *file = Some(actual.to_string());
    }
    verdict
}

#[test]
fn test_compare() {
    compare("hello world", "hello, world!").unwrap_err();
    compare("hello world", "hello world").unwrap();
    compare("this string\nhas multiple\nline", "this string\nhas multiple\nlines").unwrap_err();
}

#[test]
fn snapshot() {
    let mut create: Option<String> = None;
    let v = run(&mut create, "hello world", false);
    assert!(matches!(v.outcome, Err(Error::Created)), "Expected `Err(Created)`, got `{:?}`", v.outcome);
    run(&mut create, "hello world", false).outcome.unwrap();

    let mut difference = Some("something else".to_string());
    let v = run(&mut difference, "hello world", false);
    assert!(matches!(v.outcome, Err(Error::Difference)), "Expected `Err(Difference)`, got `{:?}`", v.outcome);

    let v = run(&mut create, "hello world!", true);
    assert!(matches!(v.outcome, Err(Error::Updated)), "Expected `Err(Updated)`, got `{:?}`", v.outcome);
    run(&mut create, "hello world!", true).outcome.unwrap();
}

#[test]
fn hello_world_life_cycle() {
    let mut file: Option<String> = None;
    assert!(matches!(run(&mut file, "hello world", false).outcome, Err(Error::Created)));
    assert_eq!(file.as_deref(), Some("hello world"));
    assert!(run(&mut file, "hello world", false).outcome.is_ok());
    assert!(matches!(run(&mut file, "hello world!", false).outcome, Err(Error::Difference)));
    assert_eq!(file.as_deref(), Some("hello world"));
    assert!(matches!(run(&mut file, "hello world!", true).outcome, Err(Error::Updated)));
    assert_eq!(file.as_deref(), Some("hello world!"));
    assert!(run(&mut file, "hello world!", false).outcome.is_ok());
}

#[test]
fn compare_reflexive_on_samples() {
    for s in ["", "a", "hello world", "multi\nline\ntext\n", "ünïcödé"] {
        assert!(compare(s, s).is_ok());
    }
}

#[test]
fn compare_differs_by_one_character() {
    assert!(matches!(compare("abc", "abd"), Err(Error::Difference)));
    assert!(matches!(compare("abc", "abcd"), Err(Error::Difference)));
    assert!(matches!(compare("", "x"), Err(Error::Difference)));
    assert!(matches!(compare("line\n", "line"), Err(Error::Difference)));
}

#[test]
fn missing_snapshot_is_created_in_both_modes() {
    for update in [false, true] {
        let v = check_snapshot_no_diff("baseline", &None, update);
        assert!(v.write);
        assert!(v.diff.is_none());
        assert!(matches!(v.outcome, Err(Error::Created)));
    }
}

#[test]
fn empty_actual_is_created_without_diff() {
    let v = check_snapshot("", &None, false);
    assert!(v.write);
    assert!(v.diff.is_none());
    assert!(matches!(v.outcome, Err(Error::Created)));
}

#[test]
fn update_mode_leaves_equal_snapshot_alone() {
    let stored = Some("same".to_string());
    let v = check_snapshot("same", &stored, true);
    assert!(!v.write);
    assert!(v.diff.is_none());
    assert!(v.outcome.is_ok());
}

#[test]
fn update_mode_rewrites_different_snapshot() {
    let mut file = Some("old".to_string());
    let v = run(&mut file, "new", true);
    assert!(matches!(v.outcome, Err(Error::Updated)));
    assert_eq!(file.as_deref(), Some("new"));
}

#[test]
fn normal_mode_never_writes_existing_snapshot() {
    let stored = Some("old".to_string());
    let v = check_snapshot_no_diff("new", &stored, false);
    assert!(!v.write);
    assert!(matches!(v.outcome, Err(Error::Difference)));
}

#[test]
fn diff_text_marks_removals_and_additions() {
    let stored = Some("testa".to_string());
    let v = check_snapshot("tost", &stored, false);
    assert_eq!(
        v.diff.as_deref(),
        Some("t\x1b[91me\x1b[0m\x1b[92mo\x1b[0mst\x1b[91ma\x1b[0m")
    );
    assert!(check_snapshot_no_diff("tost", &stored, false).diff.is_none());
}

#[test]
fn diff_text_on_create_shows_the_new_text() {
    let v = check_snapshot("ab", &None, false);
    let diff = v.diff.unwrap();
    assert_ne!(diff, "ab");
    assert!(diff.contains("ab"));
}
