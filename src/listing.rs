//! The decisions of the plain listing mode: which entries are listed, and
//! in what order. Walking the directory and printing are the caller's.
use vstd::prelude::*;

use crate::ast::{chars_of, string_from_chars};
use crate::cli::{GroupByOption, SortOption};
use crate::eval::{int_order, order_of_ints, order_of_texts, text_order};

verus! {

/// Information about one entry of a listing.
#[derive(Debug)]
pub struct FileInfo {
    pub path: String,
    /// The name, without its directory.
    pub name: String,
    pub size: u64,
    pub is_dir: bool,
    pub is_symlink: bool,
    pub permissions: u32,
    /// Seconds since the Unix epoch, in UTC.
    pub modified: i64,
}

/// Whether `glob::Pattern::new` accepts a pattern.
pub uninterp spec fn glob_compiles(pattern: Seq<char>) -> bool;

/// What `glob::Pattern::matches` returns for a compiled pattern and a name.
pub uninterp spec fn glob_matches(pattern: Seq<char>, name: Seq<char>) -> bool;

/// Relies on `glob::Pattern::new`, which compiles a shell pattern or
/// rejects it, and on `Pattern::matches`, which tests a whole name.
#[verifier::external_body]
fn glob_match(pattern: &str, name: &str) -> (r: Option<bool>)
    ensures
        r is Some <==> glob_compiles(pattern@),
        r matches Some(b) ==> b == glob_matches(pattern@, name@),
{
    match glob::Pattern::new(pattern) {
        Ok(p) => Some(p.matches(name)),
        Err(_) => None,
    }
}

/// The index of the last `.` among the first `i` characters, or -1.
pub open spec fn last_dot(name: Seq<char>, i: int) -> int
    decreases i,
{
    if i <= 0 {
        -1
    } else if name[i - 1] == '.' {
        i - 1
    } else {
        last_dot(name, i - 1)
    }
}

/// The extension of a file name: what follows its last dot, or nothing when
/// it has no dot or only a leading one (`.bashrc`).
pub open spec fn extension_of(name: Seq<char>) -> Seq<char> {
    let d = last_dot(name, name.len() as int);
    if d <= 0 {
        Seq::empty()
    } else {
        name.skip(d + 1)
    }
}

/// The extension of a file name, empty when it has none.
pub fn file_extension(name: &str) -> (r: String)
    ensures
        r@ == extension_of(name@),
{
    let v = chars_of(name);
    let mut i: usize = v.len();
    while i > 0 && v[i - 1] != '.'
        invariant
            v@ == name@,
            i <= v.len(),
            last_dot(v@, v.len() as int) == last_dot(v@, i as int),
        decreases i,
    {
        i -= 1;
    }
    if i <= 1 {
        return String::new();
    }
    let mut out: Vec<char> = Vec::new();
    let mut j: usize = i;
    while j < v.len()
        invariant
            v@ == name@,
            1 < i <= j <= v.len(),
            out@ == v@.subrange(i as int, j as int),
        decreases v.len() - j,
    {
        out.push(v[j]);
        assert(out@ =~= v@.subrange(i as int, j + 1));
        j += 1;
    }
    assert(out@ =~= v@.skip(i as int));
    string_from_chars(&out)
}

/// Whether an entry is listed: not the listed directory itself, not hidden
/// unless hidden entries are shown, and matching the name pattern when there
/// is a valid one.
pub open spec fn listed_spec(
    name: Seq<char>,
    is_root: bool,
    show_hidden: bool,
    pattern: Option<Seq<char>>,
) -> bool {
    !is_root && (show_hidden || !(name.len() > 0 && name[0] == '.')) && match pattern {
        Some(p) => !glob_compiles(p) || glob_matches(p, name),
        None => true,
    }
}

/// Decides whether an entry named `name` belongs in a listing.
pub fn is_listed(name: &str, is_root: bool, show_hidden: bool, pattern: Option<&str>) -> (r: bool)
    ensures
        r == listed_spec(
            name@,
            is_root,
            show_hidden,
            match pattern {
                Some(p) => Some(p@),
                None => None,
            },
        ),
{
    if is_root {
        return false;
    }
    let v = chars_of(name);
    if !show_hidden && v.len() > 0 && v[0] == '.' {
        return false;
    }
    match pattern {
        Some(p) => match glob_match(p, name) {
            Some(b) => b,
            None => true,
        },
        None => true,
    }
}

/// The order of two entries under a sort option: names and extensions in
/// increasing order, sizes and times largest first.
pub open spec fn sort_order(a: FileInfo, b: FileInfo, by: SortOption) -> int {
    match by {
        SortOption::Name => text_order(a.name@, b.name@),
        SortOption::Size => int_order(b.size as int, a.size as int),
        SortOption::Modified => int_order(b.modified as int, a.modified as int),
        SortOption::Type => text_order(extension_of(a.name@), extension_of(b.name@)),
    }
}

/// The order of two entries under a grouping: directories first, or by
/// extension; the other groupings leave the order as it is.
pub open spec fn group_order(a: FileInfo, b: FileInfo, by: GroupByOption) -> int {
    match by {
        GroupByOption::Folder => if a.is_dir == b.is_dir {
            0
        } else if a.is_dir {
            -1
        } else {
            1
        },
        GroupByOption::Extension => text_order(extension_of(a.name@), extension_of(b.name@)),
        _ => 0,
    }
}

/// The order of a listing: by group, then by the sort option.
pub open spec fn listing_order(a: FileInfo, b: FileInfo, sort_by: SortOption, group_by: GroupByOption) -> int {
    let g = group_order(a, b, group_by);
    if g != 0 {
        g
    } else {
        sort_order(a, b, sort_by)
    }
}

/// Compares two entries for a listing: negative when `a` comes first,
/// positive when `b` does, zero when either may.
pub fn compare_entries(a: &FileInfo, b: &FileInfo, sort_by: SortOption, group_by: GroupByOption) -> (r: i8)
    ensures
        r as int == listing_order(*a, *b, sort_by, group_by),
{
    let g: i8 = match group_by {
        GroupByOption::Folder => {
            if a.is_dir == b.is_dir {
                0
            } else if a.is_dir {
                -1
            } else {
                1
            }
        },
        GroupByOption::Extension => {
            let ea = file_extension(a.name.as_str());
            let eb = file_extension(b.name.as_str());
            order_of_texts(ea.as_str(), eb.as_str())
        },
        _ => 0,
    };
    if g != 0 {
        return g;
    }
    match sort_by {
        SortOption::Name => order_of_texts(a.name.as_str(), b.name.as_str()),
        SortOption::Size => order_of_ints(b.size as i128, a.size as i128),
        SortOption::Modified => order_of_ints(b.modified as i128, a.modified as i128),
        SortOption::Type => {
            let ea = file_extension(a.name.as_str());
            let eb = file_extension(b.name.as_str());
            order_of_texts(ea.as_str(), eb.as_str())
        },
    }
}

} // verus!
