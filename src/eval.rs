//! Evaluation of a condition against the metadata snapshot of one entry.
use vstd::prelude::*;

use crate::ast::{
    chars_of, string_from_chars, CondView, ComparisonOperator, FileAttribute, FileCondition,
    FileValue, ValueView,
};

verus! {

#[verifier::external_type_specification]
#[verifier::external_body]
pub struct ExRegexError(regex::Error);

/// The snapshot of one filesystem entry, as a query reports it.
#[derive(Debug)]
pub struct FileResult {
    pub path: String,
    pub name: String,
    pub size: u64,
    pub is_directory: bool,
    pub extension: Option<String>,
    /// The mode bits, as the platform reports them.
    pub permissions: u32,
    /// Seconds since the Unix epoch, in UTC.
    pub modified: i64,
    pub owner: Option<String>,
}

impl Clone for FileResult {
    fn clone(&self) -> (r: Self)
        ensures
            r == *self,
    {
        let extension = match &self.extension {
            Some(e) => Some(e.clone()),
            None => None,
        };
        let owner = match &self.owner {
            Some(o) => Some(o.clone()),
            None => None,
        };
        FileResult {
            path: self.path.clone(),
            name: self.name.clone(),
            size: self.size,
            is_directory: self.is_directory,
            extension,
            permissions: self.permissions,
            modified: self.modified,
            owner,
        }
    }
}

/// What went wrong while evaluating or executing a query.
#[derive(Debug, PartialEq, Eq)]
pub enum ExecutorError {
    /// Reading or changing the filesystem failed.
    IoError(String),
    /// The attribute cannot be read in a condition, or cannot be updated.
    UnsupportedAttribute(String),
    /// The operation is not available for these values or on this platform.
    UnsupportedOperation(String),
    /// A pattern is not a valid regular expression.
    InvalidRegex(String),
    /// Values of different kinds were compared, or a value has the wrong kind.
    TypeError(String),
    /// A path cannot be used.
    InvalidPath(String),
}

/// The kind of an [`ExecutorError`], which the contracts speak of.
pub enum ExecErrorKind {
    Io,
    UnsupportedAttribute,
    UnsupportedOperation,
    InvalidRegex,
    TypeError,
    InvalidPath,
}

impl ExecutorError {
    pub open spec fn kind(&self) -> ExecErrorKind {
        match self {
            ExecutorError::IoError(_) => ExecErrorKind::Io,
            ExecutorError::UnsupportedAttribute(_) => ExecErrorKind::UnsupportedAttribute,
            ExecutorError::UnsupportedOperation(_) => ExecErrorKind::UnsupportedOperation,
            ExecutorError::InvalidRegex(_) => ExecErrorKind::InvalidRegex,
            ExecutorError::TypeError(_) => ExecErrorKind::TypeError,
            ExecutorError::InvalidPath(_) => ExecErrorKind::InvalidPath,
        }
    }
}

pub open spec fn bool_result_view(r: Result<bool, ExecutorError>) -> Result<bool, ExecErrorKind> {
    match r {
        Ok(b) => Ok(b),
        Err(e) => Err(e.kind()),
    }
}

pub open spec fn value_result_view(r: Result<FileValue, ExecutorError>) -> Result<
    ValueView,
    ExecErrorKind,
> {
    match r {
        Ok(v) => Ok(v@),
        Err(e) => Err(e.kind()),
    }
}

/// What `str::to_lowercase` returns for a string.
pub uninterp spec fn lower_of(s: Seq<char>) -> Seq<char>;

/// Whether `regex::Regex::new` accepts a pattern.
pub uninterp spec fn regex_compiles(pattern: Seq<char>) -> bool;

/// What `regex::Regex::is_match` returns for a compiled pattern and a text.
pub uninterp spec fn regex_is_match(pattern: Seq<char>, text: Seq<char>) -> bool;

/// What chrono's `%Y-%m-%d` date parser gives for a string, as seconds since
/// the epoch at midnight UTC of that day.
pub uninterp spec fn iso_date_seconds(s: Seq<char>) -> Option<i64>;

/// Relies on `str::to_lowercase`: the result depends on the characters alone.
#[verifier::external_body]
fn lowercase(s: &str) -> (r: String)
    ensures
        r@ == lower_of(s@),
{
    s.to_lowercase()
}

/// Relies on `regex::Regex::new`, which compiles the pattern or says why it
/// cannot, and on `Regex::is_match`, which tells whether some part of the
/// text matches it.
#[verifier::external_body]
fn regex_search(pattern: &str, text: &str) -> (r: Result<bool, regex::Error>)
    ensures
        r is Ok <==> regex_compiles(pattern@),
        r matches Ok(b) ==> b == regex_is_match(pattern@, text@),
{
    match regex::Regex::new(pattern) {
        Ok(re) => Ok(re.is_match(text)),
        Err(e) => Err(e),
    }
}

/// Relies on `chrono::NaiveDate::parse_from_str` with the format `%Y-%m-%d`,
/// and on chrono's conversion of that day's midnight UTC to a timestamp.
#[verifier::external_body]
fn parse_iso_date(s: &str) -> (r: Option<i64>)
    ensures
        r == iso_date_seconds(s@),
{
    match chrono::NaiveDate::parse_from_str(s, "%Y-%m-%d") {
        Ok(d) => Some(d.and_time(chrono::NaiveTime::MIN).and_utc().timestamp()),
        Err(_) => None,
    }
}

/// The value that a condition reads for `attribute` of the entry `f`.
pub open spec fn attribute_value(f: FileResult, attribute: FileAttribute) -> Result<
    ValueView,
    ExecErrorKind,
> {
    match attribute {
        FileAttribute::Name => Ok(ValueView::Str(f.name@)),
        FileAttribute::Path => Ok(ValueView::Str(f.path@)),
        FileAttribute::Size => Ok(ValueView::Number(f.size)),
        FileAttribute::Extension => Ok(
            ValueView::Str(
                match f.extension {
                    Some(e) => e@,
                    None => Seq::empty(),
                },
            ),
        ),
        FileAttribute::Modified => Ok(ValueView::DateTime(f.modified)),
        FileAttribute::Permissions => Ok(ValueView::Number(f.permissions as u64)),
        FileAttribute::IsDirectory => Ok(ValueView::Boolean(f.is_directory)),
        FileAttribute::Owner => match f.owner {
            Some(o) => Ok(ValueView::Str(o@)),
            None => Ok(ValueView::Null),
        },
        FileAttribute::IsExecutable => Ok(ValueView::Boolean(f.permissions & 0o100u32 != 0)),
        _ => Err(ExecErrorKind::UnsupportedAttribute),
    }
}

/// Reads `attribute` of `file` through the accessor table.
pub fn get_attribute_value(file: &FileResult, attribute: FileAttribute) -> (r: Result<
    FileValue,
    ExecutorError,
>)
    ensures
        value_result_view(r) == attribute_value(*file, attribute),
{
    match attribute {
        FileAttribute::Name => Ok(FileValue::String(file.name.clone())),
        FileAttribute::Path => Ok(FileValue::String(file.path.clone())),
        FileAttribute::Size => Ok(FileValue::Number(file.size)),
        FileAttribute::Extension => match &file.extension {
            Some(e) => Ok(FileValue::String(e.clone())),
            None => Ok(FileValue::String(String::new())),
        },
        FileAttribute::Modified => Ok(FileValue::DateTime(file.modified)),
        FileAttribute::Permissions => Ok(FileValue::Number(file.permissions as u64)),
        FileAttribute::IsDirectory => Ok(FileValue::Boolean(file.is_directory)),
        FileAttribute::Owner => match &file.owner {
            Some(o) => Ok(FileValue::String(o.clone())),
            None => Ok(FileValue::Null),
        },
        FileAttribute::IsExecutable => Ok(FileValue::Boolean(file.permissions & 0o100u32 != 0)),
        _ => Err(
            ExecutorError::UnsupportedAttribute(
                "attribute cannot be read in a condition".to_string(),
            ),
        ),
    }
}

/// Whether `op` holds of two values whose order is `c` (negative: less,
/// zero: equal, positive: greater).
pub open spec fn order_holds(op: ComparisonOperator, c: int) -> bool {
    match op {
        ComparisonOperator::Eq => c == 0,
        ComparisonOperator::NotEq => c != 0,
        ComparisonOperator::Lt => c < 0,
        ComparisonOperator::LtEq => c <= 0,
        ComparisonOperator::Gt => c > 0,
        ComparisonOperator::GtEq => c >= 0,
    }
}

pub open spec fn int_order(a: int, b: int) -> int {
    if a < b {
        -1
    } else if a == b {
        0
    } else {
        1
    }
}

/// Lexicographic order of two strings by code point, which is the order of
/// their UTF-8 encodings.
pub open spec fn text_order(a: Seq<char>, b: Seq<char>) -> int
    decreases a.len(),
{
    if a.len() == 0 {
        if b.len() == 0 {
            0
        } else {
            -1
        }
    } else if b.len() == 0 {
        1
    } else if a[0] != b[0] {
        if a[0] < b[0] {
            -1
        } else {
            1
        }
    } else {
        text_order(a.drop_first(), b.drop_first())
    }
}

/// The outcome of comparing the value `l` with the literal `r`.
///
/// Values compare within one kind; a date-like string literal is read as a
/// date when the value is a time. `Null` supports only `=` and `!=`, and is
/// unequal to every other value.
pub open spec fn compare_spec(l: ValueView, op: ComparisonOperator, r: ValueView) -> Result<
    bool,
    ExecErrorKind,
> {
    match (l, r) {
        (ValueView::Str(a), ValueView::Str(b)) => Ok(order_holds(op, text_order(a, b))),
        (ValueView::Number(a), ValueView::Number(b)) => Ok(order_holds(op, int_order(a as int, b as int))),
        (ValueView::DateTime(a), ValueView::DateTime(b)) => Ok(order_holds(op, int_order(a as int, b as int))),
        (ValueView::DateTime(a), ValueView::Str(b)) => match iso_date_seconds(b) {
            Some(t) => Ok(order_holds(op, int_order(a as int, t as int))),
            None => Err(ExecErrorKind::TypeError),
        },
        (ValueView::Boolean(a), ValueView::Boolean(b)) => match op {
            ComparisonOperator::Eq => Ok(a == b),
            ComparisonOperator::NotEq => Ok(a != b),
            _ => Err(ExecErrorKind::UnsupportedOperation),
        },
        (ValueView::Null, ValueView::Null) => match op {
            ComparisonOperator::Eq => Ok(true),
            ComparisonOperator::NotEq => Ok(false),
            _ => Err(ExecErrorKind::UnsupportedOperation),
        },
        (ValueView::Null, _) | (_, ValueView::Null) => match op {
            ComparisonOperator::Eq => Ok(false),
            ComparisonOperator::NotEq => Ok(true),
            _ => Err(ExecErrorKind::UnsupportedOperation),
        },
        _ => Err(ExecErrorKind::TypeError),
    }
}

fn order_matches(op: ComparisonOperator, c: i8) -> (r: bool)
    ensures
        r == order_holds(op, c as int),
{
    match op {
        ComparisonOperator::Eq => c == 0,
        ComparisonOperator::NotEq => c != 0,
        ComparisonOperator::Lt => c < 0,
        ComparisonOperator::LtEq => c <= 0,
        ComparisonOperator::Gt => c > 0,
        ComparisonOperator::GtEq => c >= 0,
    }
}

pub(crate) fn order_of_ints(a: i128, b: i128) -> (r: i8)
    ensures
        r as int == int_order(a as int, b as int),
{
    if a < b {
        -1
    } else if a == b {
        0
    } else {
        1
    }
}

/// Compares two strings by code point.
pub fn order_of_texts(a: &str, b: &str) -> (r: i8)
    ensures
        r as int == text_order(a@, b@),
{
    let av = chars_of(a);
    let bv = chars_of(b);
    let mut i: usize = 0;
    assert(av@.skip(0) =~= av@);
    assert(bv@.skip(0) =~= bv@);
    while i < av.len() && i < bv.len()
        invariant
            av@ == a@,
            bv@ == b@,
            i <= av.len(),
            i <= bv.len(),
            text_order(av@, bv@) == text_order(av@.skip(i as int), bv@.skip(i as int)),
        decreases av.len() - i,
    {
        assert(av@.skip(i as int)[0] == av@[i as int]);
        assert(bv@.skip(i as int)[0] == bv@[i as int]);
        if av[i] != bv[i] {
            assert(av@.skip(i as int).len() > 0 && bv@.skip(i as int).len() > 0);
            if av[i] < bv[i] {
                assert(text_order(av@.skip(i as int), bv@.skip(i as int)) == -1);
                return -1;
            } else {
                return 1;
            }
        }
        assert(av@.skip(i as int).drop_first() =~= av@.skip(i + 1));
        assert(bv@.skip(i as int).drop_first() =~= bv@.skip(i + 1));
        i += 1;
    }
    if av.len() == bv.len() {
        assert(av@.skip(i as int).len() == 0);
        0
    } else if i == av.len() {
        assert(av@.skip(i as int).len() == 0);
        -1
    } else {
        assert(bv@.skip(i as int).len() == 0);
        1
    }
}

/// Compares the value `left` of an entry with the literal `right`.
pub fn compare_values(left: &FileValue, operator: ComparisonOperator, right: &FileValue) -> (r:
    Result<bool, ExecutorError>)
    ensures
        bool_result_view(r) == compare_spec(left@, operator, right@),
{
    match (left, right) {
        (FileValue::String(l), FileValue::String(r)) => Ok(
            order_matches(operator, order_of_texts(l.as_str(), r.as_str())),
        ),
        (FileValue::Number(l), FileValue::Number(r)) => Ok(
            order_matches(operator, order_of_ints(*l as i128, *r as i128)),
        ),
        (FileValue::DateTime(l), FileValue::DateTime(r)) => Ok(
            order_matches(operator, order_of_ints(*l as i128, *r as i128)),
        ),
        (FileValue::DateTime(l), FileValue::String(r)) => match parse_iso_date(r.as_str()) {
            Some(t) => Ok(order_matches(operator, order_of_ints(*l as i128, t as i128))),
            None => Err(
                ExecutorError::TypeError("a time can only be compared with a date".to_string()),
            ),
        },
        (FileValue::Boolean(l), FileValue::Boolean(r)) => match operator {
            ComparisonOperator::Eq => Ok(*l == *r),
            ComparisonOperator::NotEq => Ok(*l != *r),
            _ => Err(
                ExecutorError::UnsupportedOperation(
                    "booleans support only = and !=".to_string(),
                ),
            ),
        },
        (FileValue::Null, FileValue::Null) => match operator {
            ComparisonOperator::Eq => Ok(true),
            ComparisonOperator::NotEq => Ok(false),
            _ => Err(
                ExecutorError::UnsupportedOperation("NULL supports only = and !=".to_string()),
            ),
        },
        (FileValue::Null, _) | (_, FileValue::Null) => match operator {
            ComparisonOperator::Eq => Ok(false),
            ComparisonOperator::NotEq => Ok(true),
            _ => Err(
                ExecutorError::UnsupportedOperation("NULL supports only = and !=".to_string()),
            ),
        },
        _ => Err(
            ExecutorError::TypeError("values of different kinds cannot be compared".to_string()),
        ),
    }
}

/// The regular-expression text that stands for one character of a `LIKE`
/// pattern. Other characters are kept as they are, so they keep their
/// meaning in regular expressions (`.` matches any character).
pub open spec fn like_piece(c: char) -> Seq<char> {
    if c == '%' {
        seq!['.', '*']
    } else if c == '_' {
        seq!['.']
    } else {
        seq![c]
    }
}

pub open spec fn like_body(p: Seq<char>) -> Seq<char>
    decreases p.len(),
{
    if p.len() == 0 {
        Seq::empty()
    } else {
        like_body(p.drop_last()) + like_piece(p.last())
    }
}

/// The anchored regular expression for a `LIKE` pattern.
pub open spec fn like_regex(p: Seq<char>) -> Seq<char> {
    seq!['^'] + like_body(p) + seq!['$']
}

/// Translates a `LIKE` pattern into an anchored regular expression.
pub fn like_to_regex(pattern: &str) -> (r: String)
    ensures
        r@ == like_regex(pattern@),
{
    let p = chars_of(pattern);
    let mut out: Vec<char> = Vec::new();
    out.push('^');
    let mut i: usize = 0;
    assert(p@.take(0) =~= Seq::<char>::empty());
    assert(out@ =~= seq!['^'] + like_body(p@.take(0)));
    while i < p.len()
        invariant
            p@ == pattern@,
            i <= p.len(),
            out@ == seq!['^'] + like_body(p@.take(i as int)),
        decreases p.len() - i,
    {
        let c = p[i];
        if c == '%' {
            out.push('.');
            out.push('*');
        } else if c == '_' {
            out.push('.');
        } else {
            out.push(c);
        }
        assert(p@.take(i + 1).drop_last() =~= p@.take(i as int));
        assert(out@ =~= seq!['^'] + like_body(p@.take(i + 1)));
        i += 1;
    }
    out.push('$');
    assert(p@.take(i as int) =~= p@);
    string_from_chars(&out)
}

/// The outcome of searching `text` for the regular expression `pattern`.
pub open spec fn regex_spec(pattern: Seq<char>, text: Seq<char>) -> Result<bool, ExecErrorKind> {
    if regex_compiles(pattern) {
        Ok(regex_is_match(pattern, text))
    } else {
        Err(ExecErrorKind::InvalidRegex)
    }
}

/// The outcome of `text LIKE pattern`; without case sensitivity both sides
/// are lowered first.
pub open spec fn like_spec(text: Seq<char>, pattern: Seq<char>, case_sensitive: bool) -> Result<
    bool,
    ExecErrorKind,
> {
    if case_sensitive {
        regex_spec(like_regex(pattern), text)
    } else {
        regex_spec(like_regex(lower_of(pattern)), lower_of(text))
    }
}

/// The outcome of evaluating the condition `c` on the entry `f`.
pub open spec fn eval_spec(f: FileResult, c: CondView) -> Result<bool, ExecErrorKind>
    decreases c,
{
    match c {
        CondView::Compare { attribute, operator, value } => match attribute_value(f, attribute) {
            Ok(v) => compare_spec(v, operator, value),
            Err(e) => Err(e),
        },
        CondView::And(l, r) => match eval_spec(f, *l) {
            Ok(true) => eval_spec(f, *r),
            Ok(false) => Ok(false),
            Err(e) => Err(e),
        },
        CondView::Or(l, r) => match eval_spec(f, *l) {
            Ok(true) => Ok(true),
            Ok(false) => eval_spec(f, *r),
            Err(e) => Err(e),
        },
        CondView::Not(inner) => match eval_spec(f, *inner) {
            Ok(b) => Ok(!b),
            Err(e) => Err(e),
        },
        CondView::Like { attribute, pattern, case_sensitive } => match attribute_value(
            f,
            attribute,
        ) {
            Ok(ValueView::Str(s)) => like_spec(s, pattern, case_sensitive),
            Ok(_) => Err(ExecErrorKind::TypeError),
            Err(e) => Err(e),
        },
        CondView::Between { attribute, lower, upper } => match attribute_value(f, attribute) {
            Ok(v) => match compare_spec(v, ComparisonOperator::GtEq, lower) {
                Ok(true) => compare_spec(v, ComparisonOperator::LtEq, upper),
                Ok(false) => Ok(false),
                Err(e) => Err(e),
            },
            Err(e) => Err(e),
        },
        CondView::Regexp { attribute, pattern } => match attribute_value(f, attribute) {
            Ok(ValueView::Str(s)) => regex_spec(pattern, s),
            Ok(_) => Err(ExecErrorKind::TypeError),
            Err(e) => Err(e),
        },
    }
}

fn regex_matches(pattern: &str, text: &str) -> (r: Result<bool, ExecutorError>)
    ensures
        bool_result_view(r) == regex_spec(pattern@, text@),
{
    match regex_search(pattern, text) {
        Ok(b) => Ok(b),
        Err(e) => Err(ExecutorError::InvalidRegex(e.to_string())),
    }
}

/// Evaluates `text LIKE pattern`.
pub fn like_matches(text: &str, pattern: &str, case_sensitive: bool) -> (r: Result<
    bool,
    ExecutorError,
>)
    ensures
        bool_result_view(r) == like_spec(text@, pattern@, case_sensitive),
{
    if case_sensitive {
        let re = like_to_regex(pattern);
        regex_matches(re.as_str(), text)
    } else {
        let t = lowercase(text);
        let p = lowercase(pattern);
        let re = like_to_regex(p.as_str());
        regex_matches(re.as_str(), t.as_str())
    }
}

/// Evaluates `condition` on the entry `file`. Errors are not skipped over:
/// the first one met ends the evaluation.
pub fn evaluate_condition(file: &FileResult, condition: &FileCondition) -> (r: Result<
    bool,
    ExecutorError,
>)
    ensures
        bool_result_view(r) == eval_spec(*file, condition@),
    decreases condition,
{
    match condition {
        FileCondition::Compare { attribute, operator, value } => {
            match get_attribute_value(file, *attribute) {
                Ok(v) => compare_values(&v, *operator, value),
                Err(e) => Err(e),
            }
        },
        FileCondition::And(left, right) => match evaluate_condition(file, left) {
            Ok(true) => evaluate_condition(file, right),
            Ok(false) => Ok(false),
            Err(e) => Err(e),
        },
        FileCondition::Or(left, right) => match evaluate_condition(file, left) {
            Ok(true) => Ok(true),
            Ok(false) => evaluate_condition(file, right),
            Err(e) => Err(e),
        },
        FileCondition::Not(inner) => match evaluate_condition(file, inner) {
            Ok(b) => Ok(!b),
            Err(e) => Err(e),
        },
        FileCondition::Like { attribute, pattern, case_sensitive } => {
            match get_attribute_value(file, *attribute) {
                Ok(FileValue::String(s)) => like_matches(s.as_str(), pattern.as_str(), *case_sensitive),
                Ok(_) => Err(
                    ExecutorError::TypeError("LIKE applies to text attributes only".to_string()),
                ),
                Err(e) => Err(e),
            }
        },
        FileCondition::Between { attribute, lower, upper } => {
            match get_attribute_value(file, *attribute) {
                Ok(v) => match compare_values(&v, ComparisonOperator::GtEq, lower) {
                    Ok(true) => compare_values(&v, ComparisonOperator::LtEq, upper),
                    Ok(false) => Ok(false),
                    Err(e) => Err(e),
                },
                Err(e) => Err(e),
            }
        },
        FileCondition::Regexp { attribute, pattern } => {
            match get_attribute_value(file, *attribute) {
                Ok(FileValue::String(s)) => regex_matches(pattern.as_str(), s.as_str()),
                Ok(_) => Err(
                    ExecutorError::TypeError("REGEXP applies to text attributes only".to_string()),
                ),
                Err(e) => Err(e),
            }
        },
    }
}

} // verus!
