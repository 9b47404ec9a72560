use fmql::ast::{ComparisonOperator, FileAttribute, FileCondition, FileValue};
use fmql::eval::{
    compare_values, evaluate_condition, get_attribute_value, like_matches, like_to_regex,
    order_of_texts, ExecutorError, FileResult,
};

fn entry(name: &str, size: u64, permissions: u32) -> FileResult {
    let extension = name.rsplit_once('.').map(|(_, e)| e.to_string());
    FileResult {
        path: format!("/data/{}", name),
        name: name.to_string(),
        size,
        is_directory: false,
        extension,
        permissions,
        modified: 1_740_000_000,
        owner: None,
    }
}

fn s(text: &str) -> FileValue {
    FileValue::String(text.to_string())
}

fn like(pattern: &str) -> FileCondition {
    FileCondition::Like { attribute: FileAttribute::Name, pattern: pattern.to_string(), case_sensitive: false }
}

fn cmp(attribute: FileAttribute, operator: ComparisonOperator, value: FileValue) -> FileCondition {
    FileCondition::Compare { attribute, operator, value }
}

#[test]
fn like_matches_regardless_of_case() {
    let f = entry("MyConfig.INI", 10, 0o644);
    assert_eq!(evaluate_condition(&f, &like("%config%")), Ok(true));
    assert_eq!(evaluate_condition(&f, &like("%CONFIG%")), Ok(true));
    assert_eq!(evaluate_condition(&entry("myconfig.ini", 1, 0), &like("%Config%")), Ok(true));
    assert_eq!(like_matches("MyConfig", "%config%", true), Ok(false));
    assert_eq!(like_matches("Config", "Config", true), Ok(true));
}

#[test]
fn like_anchors_only_the_matching_side() {
    assert_eq!(like_matches("config.ini", "config%", false), Ok(true));
    assert_eq!(like_matches("my_config.ini", "config%", false), Ok(false));
    assert_eq!(like_matches("app.log", "%.log", false), Ok(true));
    assert_eq!(like_matches("app.log.gz", "%.log", false), Ok(false));
    assert_eq!(like_matches("a.txt", "_.txt", false), Ok(true));
    assert_eq!(like_matches("ab.txt", "_.txt", false), Ok(false));
    assert_eq!(like_to_regex("%a_b%"), "^.*a.b.*$");
    assert_eq!(like_to_regex(""), "^$");
}

#[test]
fn like_needs_a_text_attribute() {
    let c = FileCondition::Like { attribute: FileAttribute::Size, pattern: "1%".to_string(), case_sensitive: false };
    assert!(matches!(evaluate_condition(&entry("a", 1, 0), &c), Err(ExecutorError::TypeError(_))));
}

#[test]
fn regexp_matches_anywhere() {
    let c = FileCondition::Regexp { attribute: FileAttribute::Name, pattern: "file[0-9]".to_string() };
    assert_eq!(evaluate_condition(&entry("my_file3.txt", 1, 0), &c), Ok(true));
    assert_eq!(evaluate_condition(&entry("filex.txt", 1, 0), &c), Ok(false));
    let bad = FileCondition::Regexp { attribute: FileAttribute::Name, pattern: "(".to_string() };
    assert!(matches!(evaluate_condition(&entry("a", 1, 0), &bad), Err(ExecutorError::InvalidRegex(_))));
}

#[test]
fn between_equals_two_comparisons() {
    let between = |lo: u64, hi: u64| FileCondition::Between {
        attribute: FileAttribute::Size,
        lower: FileValue::Number(lo),
        upper: FileValue::Number(hi),
    };
    let range = |lo: u64, hi: u64| {
        FileCondition::And(
            Box::new(cmp(FileAttribute::Size, ComparisonOperator::GtEq, FileValue::Number(lo))),
            Box::new(cmp(FileAttribute::Size, ComparisonOperator::LtEq, FileValue::Number(hi))),
        )
    };
    for size in [0u64, 9, 10, 15, 20, 21] {
        let f = entry("a.txt", size, 0o644);
        assert_eq!(evaluate_condition(&f, &between(10, 20)), evaluate_condition(&f, &range(10, 20)));
    }
    assert_eq!(evaluate_condition(&entry("a", 10, 0), &between(10, 20)), Ok(true));
    assert_eq!(evaluate_condition(&entry("a", 20, 0), &between(10, 20)), Ok(true));
    assert_eq!(evaluate_condition(&entry("a", 21, 0), &between(10, 20)), Ok(false));
}

#[test]
fn between_dates_reads_iso_dates() {
    let c = FileCondition::Between {
        attribute: FileAttribute::Modified,
        lower: s("2025-01-01"),
        upper: s("2025-03-31"),
    };
    let mut f = entry("a", 1, 0);
    f.modified = 1_740_000_000; // 2025-02-19
    assert_eq!(evaluate_condition(&f, &c), Ok(true));
    f.modified = 1_700_000_000; // 2023-11-14
    assert_eq!(evaluate_condition(&f, &c), Ok(false));
    let midnight = FileValue::DateTime(1_735_689_600); // 2025-01-01T00:00:00Z
    assert_eq!(compare_values(&midnight, ComparisonOperator::Eq, &s("2025-01-01")), Ok(true));
    assert!(matches!(
        compare_values(&midnight, ComparisonOperator::Eq, &s("January")),
        Err(ExecutorError::TypeError(_))
    ));
}

#[test]
fn de_morgan_on_entries() {
    let a = || cmp(FileAttribute::Extension, ComparisonOperator::Eq, s("txt"));
    let b = || cmp(FileAttribute::Size, ComparisonOperator::Gt, FileValue::Number(5));
    let lhs = FileCondition::Not(Box::new(FileCondition::And(Box::new(a()), Box::new(b()))));
    let rhs = FileCondition::Or(Box::new(FileCondition::Not(Box::new(a()))), Box::new(FileCondition::Not(Box::new(b()))));
    for f in [entry("a.txt", 3, 0), entry("a.txt", 30, 0), entry("a.md", 3, 0), entry("a.md", 30, 0)] {
        assert_eq!(evaluate_condition(&f, &lhs), evaluate_condition(&f, &rhs));
    }
    assert_eq!(evaluate_condition(&entry("a.txt", 30, 0), &lhs), Ok(false));
}

#[test]
fn null_compared_with_text() {
    let null = FileValue::Null;
    let x = s("x");
    assert_eq!(compare_values(&null, ComparisonOperator::Eq, &x), Ok(false));
    assert_eq!(compare_values(&null, ComparisonOperator::NotEq, &x), Ok(true));
    assert!(matches!(compare_values(&null, ComparisonOperator::Lt, &x), Err(ExecutorError::UnsupportedOperation(_))));
    assert!(matches!(compare_values(&null, ComparisonOperator::Gt, &x), Err(ExecutorError::UnsupportedOperation(_))));
    assert_eq!(compare_values(&null, ComparisonOperator::Eq, &FileValue::Null), Ok(true));
    assert_eq!(compare_values(&x, ComparisonOperator::NotEq, &null), Ok(true));
}

#[test]
fn comparisons_within_a_kind() {
    assert_eq!(compare_values(&s("abc"), ComparisonOperator::Lt, &s("abd")), Ok(true));
    assert_eq!(compare_values(&s("ab"), ComparisonOperator::Lt, &s("abc")), Ok(true));
    assert_eq!(compare_values(&s("b"), ComparisonOperator::GtEq, &s("abc")), Ok(true));
    assert_eq!(compare_values(&s("Z"), ComparisonOperator::Lt, &s("a")), Ok(true));
    assert_eq!(order_of_texts("é", "z"), 1);
    assert_eq!(order_of_texts("", ""), 0);
    assert_eq!(compare_values(&FileValue::Number(7), ComparisonOperator::LtEq, &FileValue::Number(7)), Ok(true));
    assert_eq!(compare_values(&FileValue::DateTime(-5), ComparisonOperator::Lt, &FileValue::DateTime(3)), Ok(true));
    assert_eq!(compare_values(&FileValue::Boolean(true), ComparisonOperator::NotEq, &FileValue::Boolean(false)), Ok(true));
    assert!(matches!(
        compare_values(&FileValue::Boolean(true), ComparisonOperator::Lt, &FileValue::Boolean(false)),
        Err(ExecutorError::UnsupportedOperation(_))
    ));
    assert!(matches!(
        compare_values(&FileValue::Number(1), ComparisonOperator::Eq, &s("1")),
        Err(ExecutorError::TypeError(_))
    ));
}

#[test]
fn accessor_table() {
    let mut f = entry("run.sh", 24, 0o755);
    f.owner = Some("alice".to_string());
    assert!(matches!(get_attribute_value(&f, FileAttribute::Extension), Ok(FileValue::String(e)) if e == "sh"));
    assert!(matches!(get_attribute_value(&f, FileAttribute::Path), Ok(FileValue::String(p)) if p == "/data/run.sh"));
    assert!(matches!(get_attribute_value(&f, FileAttribute::Permissions), Ok(FileValue::Number(0o755))));
    assert!(matches!(get_attribute_value(&f, FileAttribute::IsExecutable), Ok(FileValue::Boolean(true))));
    assert!(matches!(get_attribute_value(&f, FileAttribute::Owner), Ok(FileValue::String(o)) if o == "alice"));
    assert!(matches!(get_attribute_value(&entry("x", 0, 0o644), FileAttribute::IsExecutable), Ok(FileValue::Boolean(false))));
    assert!(matches!(get_attribute_value(&entry("x", 0, 0), FileAttribute::Extension), Ok(FileValue::String(e)) if e.is_empty()));
    assert!(matches!(get_attribute_value(&entry("x", 0, 0), FileAttribute::Owner), Ok(FileValue::Null)));
    for a in [FileAttribute::All, FileAttribute::Created, FileAttribute::Accessed, FileAttribute::IsSymlink] {
        assert!(matches!(get_attribute_value(&f, a), Err(ExecutorError::UnsupportedAttribute(_))));
    }
}

#[test]
fn errors_are_not_skipped() {
    let c = FileCondition::Or(
        Box::new(cmp(FileAttribute::Created, ComparisonOperator::Eq, FileValue::Null)),
        Box::new(cmp(FileAttribute::Size, ComparisonOperator::Gt, FileValue::Number(0))),
    );
    assert!(matches!(evaluate_condition(&entry("a", 1, 0), &c), Err(ExecutorError::UnsupportedAttribute(_))));
    let short = FileCondition::And(
        Box::new(cmp(FileAttribute::Size, ComparisonOperator::Gt, FileValue::Number(100))),
        Box::new(cmp(FileAttribute::Created, ComparisonOperator::Eq, FileValue::Null)),
    );
    assert_eq!(evaluate_condition(&entry("a", 1, 0), &short), Ok(false));
}
