use fmql::cli::{GroupByOption, SortOption};
use fmql::listing::{compare_entries, file_extension, is_listed, FileInfo};

fn info(name: &str, size: u64, is_dir: bool, modified: i64) -> FileInfo {
    FileInfo {
        path: format!("/d/{}", name),
        name: name.to_string(),
        size,
        is_dir,
        is_symlink: false,
        permissions: 0o644,
        modified,
    }
}

fn arranged(mut v: Vec<FileInfo>, s: SortOption, g: GroupByOption) -> Vec<String> {
    v.sort_by(|a, b| compare_entries(a, b, s, g).cmp(&0));
    v.into_iter().map(|f| f.name).collect()
}

fn sample() -> Vec<FileInfo> {
    vec![
        info("b.txt", 30, false, 300),
        info("src", 4096, true, 100),
        info("a.rs", 10, false, 200),
        info("c.md", 20, false, 400),
    ]
}

#[test]
fn extensions_follow_the_last_dot() {
    assert_eq!(file_extension("a.tar.gz"), "gz");
    assert_eq!(file_extension("notes"), "");
    assert_eq!(file_extension(".bashrc"), "");
    assert_eq!(file_extension(".config.toml"), "toml");
    assert_eq!(file_extension("trailing."), "");
}

#[test]
fn hidden_root_and_pattern_filters() {
    assert!(is_listed("a.txt", false, false, None));
    assert!(!is_listed("a.txt", true, true, None));
    assert!(!is_listed(".git", false, false, None));
    assert!(is_listed(".git", false, true, None));
    assert!(is_listed("a.txt", false, false, Some("*.txt")));
    assert!(!is_listed("a.rs", false, false, Some("*.txt")));
    assert!(is_listed("a.rs", false, false, Some("[")));
}

#[test]
fn sort_options_order_entries() {
    assert_eq!(arranged(sample(), SortOption::Name, GroupByOption::NoGrouping), vec!["a.rs", "b.txt", "c.md", "src"]);
    assert_eq!(arranged(sample(), SortOption::Size, GroupByOption::NoGrouping), vec!["src", "b.txt", "c.md", "a.rs"]);
    assert_eq!(arranged(sample(), SortOption::Modified, GroupByOption::NoGrouping), vec!["c.md", "b.txt", "a.rs", "src"]);
    assert_eq!(arranged(sample(), SortOption::Type, GroupByOption::NoGrouping), vec!["src", "c.md", "a.rs", "b.txt"]);
}

#[test]
fn grouping_comes_before_sorting() {
    assert_eq!(arranged(sample(), SortOption::Name, GroupByOption::Folder), vec!["src", "a.rs", "b.txt", "c.md"]);
    assert_eq!(arranged(sample(), SortOption::Size, GroupByOption::Extension), vec!["src", "c.md", "a.rs", "b.txt"]);
    assert_eq!(arranged(sample(), SortOption::Name, GroupByOption::Permissions), vec!["a.rs", "b.txt", "c.md", "src"]);
}
