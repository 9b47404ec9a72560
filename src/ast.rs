//! Abstract syntax tree of file queries, with the mathematical views that
//! the contracts of the parser and the evaluator are stated over.
use vstd::prelude::*;

verus! {

/// A property of a filesystem entry that a query can read or update.
#[derive(Clone, Copy, Debug, PartialEq, Eq, Structural)]
pub enum FileAttribute {
    /// All attributes (`*`).
    All,
    /// The file name without its directory.
    Name,
    /// The full path.
    Path,
    /// The size in bytes.
    Size,
    /// The part of the name after the last dot.
    Extension,
    /// The modification time.
    Modified,
    /// The creation time.
    Created,
    /// The access time.
    Accessed,
    /// The permission bits.
    Permissions,
    /// The owner's user name.
    Owner,
    /// Whether the entry is a directory.
    IsDirectory,
    /// Whether the entry is a symbolic link.
    IsSymlink,
    /// Whether the owner may execute the entry.
    IsExecutable,
}

/// A comparison operator of a `WHERE` clause.
#[derive(Clone, Copy, Debug, PartialEq, Eq, Structural)]
pub enum ComparisonOperator {
    /// `=`
    Eq,
    /// `!=`
    NotEq,
    /// `<`
    Lt,
    /// `<=`
    LtEq,
    /// `>`
    Gt,
    /// `>=`
    GtEq,
}

pub open spec fn operator_symbol(op: ComparisonOperator) -> Seq<char> {
    match op {
        ComparisonOperator::Eq => seq!['='],
        ComparisonOperator::NotEq => seq!['!', '='],
        ComparisonOperator::Lt => seq!['<'],
        ComparisonOperator::LtEq => seq!['<', '='],
        ComparisonOperator::Gt => seq!['>'],
        ComparisonOperator::GtEq => seq!['>', '='],
    }
}

impl ComparisonOperator {
    /// The operator as it is written in a query.
    pub fn symbol(&self) -> (r: String)
        ensures
            r@ == operator_symbol(*self),
    {
        let v: Vec<char> = match self {
            ComparisonOperator::Eq => vec!['='],
            ComparisonOperator::NotEq => vec!['!', '='],
            ComparisonOperator::Lt => vec!['<'],
            ComparisonOperator::LtEq => vec!['<', '='],
            ComparisonOperator::Gt => vec!['>'],
            ComparisonOperator::GtEq => vec!['>', '='],
        };
        string_from_chars(&v)
    }
}

/// Relies on `String::from_iter` over the characters: the string holds them
/// in order.
#[verifier::external_body]
pub(crate) fn string_from_chars(v: &Vec<char>) -> (r: String)
    ensures
        r@ == v@,
{
    String::from_iter(v.iter())
}

/// The characters of a string, in order.
pub(crate) fn chars_of(s: &str) -> (r: Vec<char>)
    ensures
        r@ == s@,
{
    let n = s.unicode_len();
    let mut v: Vec<char> = Vec::new();
    let mut i: usize = 0;
    while i < n
        invariant
            n == s@.len(),
            i <= n,
            v@ == s@.take(i as int),
        decreases n - i,
    {
        v.push(s.get_char(i));
        assert(v@ =~= s@.take(i + 1));
        i += 1;
    }
    assert(v@ =~= s@);
    v
}

/// The view of the assignments of an `UPDATE`.
pub open spec fn updates_view(v: Seq<FileAttributeUpdate>) -> Seq<(FileAttribute, Seq<char>)> {
    v.map_values(|u: FileAttributeUpdate| u@)
}

/// A literal of a condition, or the value of an attribute of a file.
///
/// Numbers are whole numbers (sizes and permission bits); a time is a count
/// of seconds since the Unix epoch, in UTC.
#[derive(Debug)]
pub enum FileValue {
    String(String),
    Number(u64),
    DateTime(i64),
    Boolean(bool),
    Null,
}

/// The mathematical view of a [`FileValue`].
pub enum ValueView {
    Str(Seq<char>),
    Number(u64),
    DateTime(i64),
    Boolean(bool),
    Null,
}

impl View for FileValue {
    type V = ValueView;

    open spec fn view(&self) -> ValueView {
        match self {
            FileValue::String(s) => ValueView::Str(s@),
            FileValue::Number(n) => ValueView::Number(*n),
            FileValue::DateTime(t) => ValueView::DateTime(*t),
            FileValue::Boolean(b) => ValueView::Boolean(*b),
            FileValue::Null => ValueView::Null,
        }
    }
}

/// A `WHERE` condition: a finite tree whose nodes own their operands.
#[derive(Debug)]
pub enum FileCondition {
    /// `attribute operator value`
    Compare { attribute: FileAttribute, operator: ComparisonOperator, value: FileValue },
    /// Both operands hold; the right one is evaluated only when the left holds.
    And(Box<FileCondition>, Box<FileCondition>),
    /// One operand holds; the right one is evaluated only when the left fails.
    Or(Box<FileCondition>, Box<FileCondition>),
    /// The operand does not hold.
    Not(Box<FileCondition>),
    /// `attribute LIKE pattern`, with `%` for any run of characters and `_`
    /// for one character.
    Like { attribute: FileAttribute, pattern: String, case_sensitive: bool },
    /// `attribute BETWEEN lower AND upper`, both bounds included.
    Between { attribute: FileAttribute, lower: FileValue, upper: FileValue },
    /// `REGEXP(attribute, pattern)`: some part of the value matches.
    Regexp { attribute: FileAttribute, pattern: String },
}

/// The mathematical view of a [`FileCondition`].
pub enum CondView {
    Compare { attribute: FileAttribute, operator: ComparisonOperator, value: ValueView },
    And(Box<CondView>, Box<CondView>),
    Or(Box<CondView>, Box<CondView>),
    Not(Box<CondView>),
    Like { attribute: FileAttribute, pattern: Seq<char>, case_sensitive: bool },
    Between { attribute: FileAttribute, lower: ValueView, upper: ValueView },
    Regexp { attribute: FileAttribute, pattern: Seq<char> },
}

impl View for FileCondition {
    type V = CondView;

    open spec fn view(&self) -> CondView
        decreases self,
    {
        match self {
            FileCondition::Compare { attribute, operator, value } => CondView::Compare {
                attribute: *attribute,
                operator: *operator,
                value: value@,
            },
            FileCondition::And(l, r) => CondView::And(Box::new((**l)@), Box::new((**r)@)),
            FileCondition::Or(l, r) => CondView::Or(Box::new((**l)@), Box::new((**r)@)),
            FileCondition::Not(c) => CondView::Not(Box::new((**c)@)),
            FileCondition::Like { attribute, pattern, case_sensitive } => CondView::Like {
                attribute: *attribute,
                pattern: pattern@,
                case_sensitive: *case_sensitive,
            },
            FileCondition::Between { attribute, lower, upper } => CondView::Between {
                attribute: *attribute,
                lower: lower@,
                upper: upper@,
            },
            FileCondition::Regexp { attribute, pattern } => CondView::Regexp {
                attribute: *attribute,
                pattern: pattern@,
            },
        }
    }
}

pub open spec fn option_cond_view(c: Option<FileCondition>) -> Option<CondView> {
    match c {
        Some(c) => Some(c@),
        None => None,
    }
}

/// One assignment of an `UPDATE`: the attribute and its new value as written.
#[derive(Debug)]
pub struct FileAttributeUpdate {
    pub attribute: FileAttribute,
    pub value: String,
}

impl View for FileAttributeUpdate {
    type V = (FileAttribute, Seq<char>);

    open spec fn view(&self) -> (FileAttribute, Seq<char>) {
        (self.attribute, self.value@)
    }
}

/// A whole statement.
#[derive(Debug)]
pub enum FileQuery {
    /// Lists the entries under `path` (its direct children only unless
    /// `recursive`) for which `condition` holds.
    Select {
        path: String,
        recursive: bool,
        attributes: Vec<FileAttribute>,
        condition: Option<FileCondition>,
    },
    /// Applies `updates` to every entry of the tree under `path` for which
    /// `condition` holds.
    Update { path: String, updates: Vec<FileAttributeUpdate>, condition: Option<FileCondition> },
}

/// The mathematical view of a [`FileQuery`].
pub enum QueryView {
    Select {
        path: Seq<char>,
        recursive: bool,
        attributes: Seq<FileAttribute>,
        condition: Option<CondView>,
    },
    Update {
        path: Seq<char>,
        updates: Seq<(FileAttribute, Seq<char>)>,
        condition: Option<CondView>,
    },
}

impl View for FileQuery {
    type V = QueryView;

    open spec fn view(&self) -> QueryView {
        match self {
            FileQuery::Select { path, recursive, attributes, condition } => QueryView::Select {
                path: path@,
                recursive: *recursive,
                attributes: attributes@,
                condition: option_cond_view(*condition),
            },
            FileQuery::Update { path, updates, condition } => QueryView::Update {
                path: path@,
                updates: updates_view(updates@),
                condition: option_cond_view(*condition),
            },
        }
    }
}

} // verus!
