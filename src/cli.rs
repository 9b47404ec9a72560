//! Options of the plain listing mode.
use vstd::prelude::*;

use crate::error::FMQLError;

verus! {

/// How a listing is ordered.
#[derive(Clone, Copy, Debug, PartialEq, Eq, Structural)]
pub enum SortOption {
    /// By name, in increasing order.
    Name,
    /// By size, largest first.
    Size,
    /// By modification time, newest first.
    Modified,
    /// By extension.
    Type,
}

/// How a listing is grouped.
#[derive(Clone, Copy, Debug, PartialEq, Eq, Structural)]
pub enum GroupByOption {
    /// No grouping.
    NoGrouping,
    /// Directories first.
    Folder,
    AllFolders,
    /// By extension.
    Extension,
    Permissions,
    Executable,
    NameStartsWith,
    NameContains,
    NameEndsWith,
}

/// How a listing is printed.
#[derive(Clone, Copy, Debug, PartialEq, Eq, Structural)]
pub enum OutputFormat {
    /// One entry per line.
    Text,
    /// Columns.
    Table,
}

/// The options of a listing.
#[derive(Debug)]
pub struct Args {
    /// The directory to list.
    pub path: String,
    /// Whether names starting with a dot are listed.
    pub show_hidden: bool,
    /// Whether details are shown.
    pub long_view: bool,
    pub sort_by: SortOption,
    /// Whether subdirectories are listed too.
    pub recursive: bool,
    /// Whether a summary is shown.
    pub show_total: bool,
    pub group_by: GroupByOption,
    /// A glob pattern that names must match.
    pub name_pattern: Option<String>,
    pub output_format: OutputFormat,
}

impl Default for Args {
    /// The current directory, without hidden entries, sorted by name, not
    /// recursive, ungrouped, as text.
    fn default() -> (r: Self)
        ensures
            r.path@ == seq!['.'],
            !r.show_hidden,
            !r.long_view,
            r.sort_by == SortOption::Name,
            !r.recursive,
            !r.show_total,
            r.group_by == GroupByOption::NoGrouping,
            r.name_pattern is None,
            r.output_format == OutputFormat::Text,
    {
        proof {
            reveal_strlit(".");
        }
        Args {
            path: ".".to_string(),
            show_hidden: false,
            long_view: false,
            sort_by: SortOption::Name,
            recursive: false,
            show_total: false,
            group_by: GroupByOption::NoGrouping,
            name_pattern: None,
            output_format: OutputFormat::Text,
        }
    }
}

/// Relies on `std::path::Path::exists`: whether the path can be reached on
/// disk. That depends on the filesystem, so nothing is stated of it.
#[verifier::external_body]
fn path_exists(path: &str) -> (r: bool) {
    std::path::Path::new(path).exists()
}

/// The outcome of validating the path `path`, given whether it exists.
pub fn check_path(path: &str, exists: bool) -> (r: Result<(), FMQLError>)
    ensures
        r is Ok <==> exists,
        r matches Err(FMQLError::PathNotFound(p)) ==> p@ == path@,
        !exists ==> r matches Err(FMQLError::PathNotFound(_)),
{
    if exists {
        Ok(())
    } else {
        Err(FMQLError::PathNotFound(path.to_string()))
    }
}

impl Args {
    /// Checks that the path to list exists.
    pub fn validate(&self) -> (r: Result<(), FMQLError>)
        ensures
            r is Ok || (r matches Err(FMQLError::PathNotFound(p)) && p@ == self.path@),
    {
        let exists = path_exists(self.path.as_str());
        check_path(self.path.as_str(), exists)
    }
}

} // verus!
