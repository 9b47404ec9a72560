use fmql::ast::{ComparisonOperator, FileAttribute, FileAttributeUpdate, FileCondition, FileValue};
use fmql::eval::{ExecutorError, FileResult};
use fmql::executor::{parse_octal_mode, select_matching, update_modes, update_targets};

fn entry(path: &str, size: u64, is_directory: bool, permissions: u32) -> FileResult {
    let name = path.rsplit('/').next().unwrap().to_string();
    let extension = if is_directory { None } else { name.rsplit_once('.').map(|(_, e)| e.to_string()) };
    FileResult {
        path: path.to_string(),
        name,
        size,
        is_directory,
        extension,
        permissions,
        modified: 1_740_000_000,
        owner: None,
    }
}

/// A tree like a small project directory, in traversal order.
fn tree() -> Vec<FileResult> {
    vec![
        entry("/t", 4096, true, 0o755),
        entry("/t/file1.txt", 13, false, 0o600),
        entry("/t/file2.txt", 15, false, 0o644),
        entry("/t/config.ini", 19, false, 0o644),
        entry("/t/script.sh", 24, false, 0o755),
        entry("/t/subdir", 4096, true, 0o755),
        entry("/t/subdir/file3.txt", 12, false, 0o644),
        entry("/t/subdir/config.xml", 17, false, 0o644),
    ]
}

fn ext_is(e: &str) -> FileCondition {
    FileCondition::Compare {
        attribute: FileAttribute::Extension,
        operator: ComparisonOperator::Eq,
        value: FileValue::String(e.to_string()),
    }
}

fn names(v: &[FileResult]) -> Vec<String> {
    v.iter().map(|f| f.name.clone()).collect()
}

#[test]
fn select_without_condition_keeps_every_entry() {
    let r = select_matching(tree(), None).unwrap();
    assert_eq!(r.len(), 8);
    assert_eq!(r.iter().filter(|f| f.is_directory).count(), 2);
    assert_eq!(r[1].name, "file1.txt");
    assert!(select_matching(Vec::new(), None).unwrap().is_empty());
}

#[test]
fn select_keeps_matches_in_order() {
    let r = select_matching(tree(), Some(&ext_is("txt"))).unwrap();
    assert_eq!(names(&r), vec!["file1.txt", "file2.txt", "file3.txt"]);
    let like = FileCondition::Like { attribute: FileAttribute::Name, pattern: "%config%".to_string(), case_sensitive: false };
    let r = select_matching(tree(), Some(&like)).unwrap();
    assert_eq!(names(&r), vec!["config.ini", "config.xml"]);
}

#[test]
fn select_twice_gives_the_same_entries() {
    let c = FileCondition::Compare { attribute: FileAttribute::Size, operator: ComparisonOperator::Eq, value: FileValue::Number(15) };
    let first = select_matching(tree(), Some(&c)).unwrap();
    let second = select_matching(tree(), Some(&c)).unwrap();
    assert_eq!(names(&first), names(&second));
    assert_eq!(names(&first), vec!["file2.txt"]);
    let again = select_matching(first.clone(), Some(&c)).unwrap();
    assert_eq!(names(&again), names(&first));
}

#[test]
fn select_reports_the_first_error() {
    let bad = FileCondition::Regexp { attribute: FileAttribute::Name, pattern: "[".to_string() };
    assert!(matches!(select_matching(tree(), Some(&bad)), Err(ExecutorError::InvalidRegex(_))));
    let kinds = FileCondition::Compare { attribute: FileAttribute::Size, operator: ComparisonOperator::Gt, value: FileValue::String("x".to_string()) };
    assert!(matches!(select_matching(tree(), Some(&kinds)), Err(ExecutorError::TypeError(_))));
}

#[test]
fn permission_update_touches_only_matching_entries() {
    let updates = vec![FileAttributeUpdate { attribute: FileAttribute::Permissions, value: "644".to_string() }];
    let modes = update_modes(&updates).unwrap();
    assert_eq!(modes, vec![0o644]);
    let mixed = vec![entry("/m/a.txt", 1, false, 0o600), entry("/m/b.jpg", 1, false, 0o644)];
    let targets = update_targets(mixed, &modes, Some(&ext_is("txt"))).unwrap();
    assert_eq!(names(&targets), vec!["a.txt"]);
}

#[test]
fn update_without_assignments_changes_nothing() {
    let modes = update_modes(&Vec::new()).unwrap();
    assert!(modes.is_empty());
    assert!(update_targets(tree(), &modes, None).unwrap().is_empty());
    assert_eq!(update_targets(tree(), &vec![0o600], None).unwrap().len(), 8);
}

#[test]
fn owner_update_is_always_refused() {
    let owner = FileAttributeUpdate { attribute: FileAttribute::Owner, value: "admin".to_string() };
    let perms = FileAttributeUpdate { attribute: FileAttribute::Permissions, value: "755".to_string() };
    assert!(matches!(update_modes(&vec![owner]), Err(ExecutorError::UnsupportedOperation(_))));
    let owner = FileAttributeUpdate { attribute: FileAttribute::Owner, value: "admin".to_string() };
    assert!(matches!(update_modes(&vec![perms, owner]), Err(ExecutorError::UnsupportedOperation(_))));
}

#[test]
fn other_update_errors() {
    let name = FileAttributeUpdate { attribute: FileAttribute::Name, value: "x".to_string() };
    assert!(matches!(update_modes(&vec![name]), Err(ExecutorError::UnsupportedAttribute(_))));
    let bad = FileAttributeUpdate { attribute: FileAttribute::Permissions, value: "rwx".to_string() };
    assert!(matches!(update_modes(&vec![bad]), Err(ExecutorError::TypeError(_))));
}

#[test]
fn octal_modes() {
    assert_eq!(parse_octal_mode("644"), Some(0o644));
    assert_eq!(parse_octal_mode("755"), Some(0o755));
    assert_eq!(parse_octal_mode("0755"), Some(0o755));
    assert_eq!(parse_octal_mode("7777"), Some(0o7777));
    assert_eq!(parse_octal_mode("0"), Some(0));
    assert_eq!(parse_octal_mode("00644"), Some(0o644));
    assert_eq!(parse_octal_mode("+644"), Some(0o644));
    assert_eq!(parse_octal_mode("37777777777"), Some(u32::MAX));
    assert_eq!(parse_octal_mode("40000000000"), None);
    assert_eq!(parse_octal_mode(""), None);
    assert_eq!(parse_octal_mode("+"), None);
    assert_eq!(parse_octal_mode("-644"), None);
    assert_eq!(parse_octal_mode("800"), None);
    assert_eq!(parse_octal_mode("6 4"), None);
}

fn upd(attribute: FileAttribute, value: &str) -> FileAttributeUpdate {
    FileAttributeUpdate { attribute, value: value.to_string() }
}

#[test]
fn owner_refusal_outranks_other_errors() {
    let r = update_modes(&vec![upd(FileAttribute::Size, "1"), upd(FileAttribute::Owner, "admin")]);
    assert!(matches!(r, Err(ExecutorError::UnsupportedOperation(_))));
    let r = update_modes(&vec![upd(FileAttribute::Permissions, "zz"), upd(FileAttribute::Owner, "admin")]);
    assert!(matches!(r, Err(ExecutorError::UnsupportedOperation(_))));
}

#[test]
fn unsupported_attribute_outranks_bad_modes() {
    let r = update_modes(&vec![upd(FileAttribute::Permissions, "zz"), upd(FileAttribute::Size, "1")]);
    assert!(matches!(r, Err(ExecutorError::UnsupportedAttribute(_))));
    let r = update_modes(&vec![upd(FileAttribute::Permissions, "755"), upd(FileAttribute::Permissions, "9")]);
    assert!(matches!(r, Err(ExecutorError::TypeError(_))));
    let r = update_modes(&vec![upd(FileAttribute::Permissions, "755"), upd(FileAttribute::Permissions, "0600")]);
    assert_eq!(r, Ok(vec![0o755, 0o600]));
}
