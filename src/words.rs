//! Words of the dialect: keywords and attribute names, both matched without
//! regard to the case of ASCII letters.
use vstd::prelude::*;

use crate::ast::FileAttribute;

verus! {

/// The reserved words of the dialect.
#[derive(Clone, Copy, Debug, PartialEq, Eq, Structural)]
pub enum Keyword {
    Select,
    From,
    Where,
    Update,
    /// `SET`
    SetClause,
    With,
    Recursive,
    Like,
    Regexp,
    Between,
    And,
    Or,
    Not,
    True,
    False,
    Null,
}

/// The spelling of a keyword, in upper case.
pub open spec fn keyword_text(k: Keyword) -> Seq<char> {
    match k {
        Keyword::Select => seq!['S', 'E', 'L', 'E', 'C', 'T'],
        Keyword::From => seq!['F', 'R', 'O', 'M'],
        Keyword::Where => seq!['W', 'H', 'E', 'R', 'E'],
        Keyword::Update => seq!['U', 'P', 'D', 'A', 'T', 'E'],
        Keyword::SetClause => seq!['S', 'E', 'T'],
        Keyword::With => seq!['W', 'I', 'T', 'H'],
        Keyword::Recursive => seq!['R', 'E', 'C', 'U', 'R', 'S', 'I', 'V', 'E'],
        Keyword::Like => seq!['L', 'I', 'K', 'E'],
        Keyword::Regexp => seq!['R', 'E', 'G', 'E', 'X', 'P'],
        Keyword::Between => seq!['B', 'E', 'T', 'W', 'E', 'E', 'N'],
        Keyword::And => seq!['A', 'N', 'D'],
        Keyword::Or => seq!['O', 'R'],
        Keyword::Not => seq!['N', 'O', 'T'],
        Keyword::True => seq!['T', 'R', 'U', 'E'],
        Keyword::False => seq!['F', 'A', 'L', 'S', 'E'],
        Keyword::Null => seq!['N', 'U', 'L', 'L'],
    }
}

fn keyword_chars(k: Keyword) -> (r: Vec<char>)
    ensures
        r@ == keyword_text(k),
{
    match k {
        Keyword::Select => vec!['S', 'E', 'L', 'E', 'C', 'T'],
        Keyword::From => vec!['F', 'R', 'O', 'M'],
        Keyword::Where => vec!['W', 'H', 'E', 'R', 'E'],
        Keyword::Update => vec!['U', 'P', 'D', 'A', 'T', 'E'],
        Keyword::SetClause => vec!['S', 'E', 'T'],
        Keyword::With => vec!['W', 'I', 'T', 'H'],
        Keyword::Recursive => vec!['R', 'E', 'C', 'U', 'R', 'S', 'I', 'V', 'E'],
        Keyword::Like => vec!['L', 'I', 'K', 'E'],
        Keyword::Regexp => vec!['R', 'E', 'G', 'E', 'X', 'P'],
        Keyword::Between => vec!['B', 'E', 'T', 'W', 'E', 'E', 'N'],
        Keyword::And => vec!['A', 'N', 'D'],
        Keyword::Or => vec!['O', 'R'],
        Keyword::Not => vec!['N', 'O', 'T'],
        Keyword::True => vec!['T', 'R', 'U', 'E'],
        Keyword::False => vec!['F', 'A', 'L', 'S', 'E'],
        Keyword::Null => vec!['N', 'U', 'L', 'L'],
    }
}

/// The name of an attribute in queries, in upper case.
pub open spec fn attribute_text(a: FileAttribute) -> Seq<char> {
    match a {
        FileAttribute::All => seq!['*'],
        FileAttribute::Name => seq!['N', 'A', 'M', 'E'],
        FileAttribute::Path => seq!['P', 'A', 'T', 'H'],
        FileAttribute::Size => seq!['S', 'I', 'Z', 'E'],
        FileAttribute::Extension => seq!['E', 'X', 'T', 'E', 'N', 'S', 'I', 'O', 'N'],
        FileAttribute::Modified => seq!['M', 'O', 'D', 'I', 'F', 'I', 'E', 'D'],
        FileAttribute::Created => seq!['C', 'R', 'E', 'A', 'T', 'E', 'D'],
        FileAttribute::Accessed => seq!['A', 'C', 'C', 'E', 'S', 'S', 'E', 'D'],
        FileAttribute::Permissions => seq!['P', 'E', 'R', 'M', 'I', 'S', 'S', 'I', 'O', 'N', 'S'],
        FileAttribute::Owner => seq!['O', 'W', 'N', 'E', 'R'],
        FileAttribute::IsDirectory => seq!['I', 'S', '_', 'D', 'I', 'R', 'E', 'C', 'T', 'O', 'R', 'Y'],
        FileAttribute::IsSymlink => seq!['I', 'S', '_', 'S', 'Y', 'M', 'L', 'I', 'N', 'K'],
        FileAttribute::IsExecutable => seq!['I', 'S', '_', 'E', 'X', 'E', 'C', 'U', 'T', 'A', 'B', 'L', 'E'],
    }
}

fn attribute_chars(a: FileAttribute) -> (r: Vec<char>)
    ensures
        r@ == attribute_text(a),
{
    match a {
        FileAttribute::All => vec!['*'],
        FileAttribute::Name => vec!['N', 'A', 'M', 'E'],
        FileAttribute::Path => vec!['P', 'A', 'T', 'H'],
        FileAttribute::Size => vec!['S', 'I', 'Z', 'E'],
        FileAttribute::Extension => vec!['E', 'X', 'T', 'E', 'N', 'S', 'I', 'O', 'N'],
        FileAttribute::Modified => vec!['M', 'O', 'D', 'I', 'F', 'I', 'E', 'D'],
        FileAttribute::Created => vec!['C', 'R', 'E', 'A', 'T', 'E', 'D'],
        FileAttribute::Accessed => vec!['A', 'C', 'C', 'E', 'S', 'S', 'E', 'D'],
        FileAttribute::Permissions => vec!['P', 'E', 'R', 'M', 'I', 'S', 'S', 'I', 'O', 'N', 'S'],
        FileAttribute::Owner => vec!['O', 'W', 'N', 'E', 'R'],
        FileAttribute::IsDirectory => vec!['I', 'S', '_', 'D', 'I', 'R', 'E', 'C', 'T', 'O', 'R', 'Y'],
        FileAttribute::IsSymlink => vec!['I', 'S', '_', 'S', 'Y', 'M', 'L', 'I', 'N', 'K'],
        FileAttribute::IsExecutable => vec!['I', 'S', '_', 'E', 'X', 'E', 'C', 'U', 'T', 'A', 'B', 'L', 'E'],
    }
}

/// `c` is the upper-case letter `k`, in either case, or equals `k`.
pub open spec fn same_letter(c: char, k: char) -> bool {
    c == k || (('A' <= k <= 'Z') && (c as u32) == (k as u32) + 32)
}

/// The span `start..end` of `s` spells `w`, ignoring the case of letters.
pub open spec fn spells(s: Seq<char>, start: int, end: int, w: Seq<char>) -> bool {
    end - start == w.len() && forall|i: int|
        0 <= i < w.len() ==> same_letter(#[trigger] s[start + i], w[i])
}

fn span_spells(s: &Vec<char>, start: usize, end: usize, w: &Vec<char>) -> (r: bool)
    requires
        start <= end <= s.len(),
    ensures
        r == spells(s@, start as int, end as int, w@),
{
    if end - start != w.len() {
        return false;
    }
    let mut i: usize = 0;
    while i < w.len()
        invariant
            end - start == w.len(),
            start <= end <= s.len(),
            i <= w.len(),
            forall|j: int| 0 <= j < i ==> same_letter(#[trigger] s@[start + j], w@[j]),
        decreases w.len() - i,
    {
        let c = s[start + i];
        let k = w[i];
        if !(c == k || ('A' <= k && k <= 'Z' && (c as u32) == (k as u32) + 32)) {
            assert(!same_letter(s@[start + i], w@[i as int]));
            return false;
        }
        i += 1;
    }
    true
}

/// Whether the span `start..end` of `s` is the keyword `k`.
pub fn spells_keyword(s: &Vec<char>, start: usize, end: usize, k: Keyword) -> (r: bool)
    requires
        start <= end <= s.len(),
    ensures
        r == spells(s@, start as int, end as int, keyword_text(k)),
{
    let w = keyword_chars(k);
    span_spells(s, start, end, &w)
}

/// The attribute that the span `start..end` of `s` names, if any.
pub open spec fn word_attribute(s: Seq<char>, start: int, end: int) -> Option<FileAttribute> {
    if spells(s, start, end, attribute_text(FileAttribute::Name)) {
        Some(FileAttribute::Name)
    }     else if spells(s, start, end, attribute_text(FileAttribute::Path)) {
        Some(FileAttribute::Path)
    }     else if spells(s, start, end, attribute_text(FileAttribute::Size)) {
        Some(FileAttribute::Size)
    }     else if spells(s, start, end, attribute_text(FileAttribute::Extension)) {
        Some(FileAttribute::Extension)
    }     else if spells(s, start, end, attribute_text(FileAttribute::Modified)) {
        Some(FileAttribute::Modified)
    }     else if spells(s, start, end, attribute_text(FileAttribute::Created)) {
        Some(FileAttribute::Created)
    }     else if spells(s, start, end, attribute_text(FileAttribute::Accessed)) {
        Some(FileAttribute::Accessed)
    }     else if spells(s, start, end, attribute_text(FileAttribute::Permissions)) {
        Some(FileAttribute::Permissions)
    }     else if spells(s, start, end, attribute_text(FileAttribute::Owner)) {
        Some(FileAttribute::Owner)
    }     else if spells(s, start, end, attribute_text(FileAttribute::IsDirectory)) {
        Some(FileAttribute::IsDirectory)
    }     else if spells(s, start, end, attribute_text(FileAttribute::IsSymlink)) {
        Some(FileAttribute::IsSymlink)
    }     else if spells(s, start, end, attribute_text(FileAttribute::IsExecutable)) {
        Some(FileAttribute::IsExecutable)
    } else {
        None
    }
}

/// Reads an attribute name.
pub fn attribute_named(s: &Vec<char>, start: usize, end: usize) -> (r: Option<FileAttribute>)
    requires
        start <= end <= s.len(),
    ensures
        r == word_attribute(s@, start as int, end as int),
{
    if span_spells(s, start, end, &attribute_chars(FileAttribute::Name)) {
        return Some(FileAttribute::Name);
    }
    if span_spells(s, start, end, &attribute_chars(FileAttribute::Path)) {
        return Some(FileAttribute::Path);
    }
    if span_spells(s, start, end, &attribute_chars(FileAttribute::Size)) {
        return Some(FileAttribute::Size);
    }
    if span_spells(s, start, end, &attribute_chars(FileAttribute::Extension)) {
        return Some(FileAttribute::Extension);
    }
    if span_spells(s, start, end, &attribute_chars(FileAttribute::Modified)) {
        return Some(FileAttribute::Modified);
    }
    if span_spells(s, start, end, &attribute_chars(FileAttribute::Created)) {
        return Some(FileAttribute::Created);
    }
    if span_spells(s, start, end, &attribute_chars(FileAttribute::Accessed)) {
        return Some(FileAttribute::Accessed);
    }
    if span_spells(s, start, end, &attribute_chars(FileAttribute::Permissions)) {
        return Some(FileAttribute::Permissions);
    }
    if span_spells(s, start, end, &attribute_chars(FileAttribute::Owner)) {
        return Some(FileAttribute::Owner);
    }
    if span_spells(s, start, end, &attribute_chars(FileAttribute::IsDirectory)) {
        return Some(FileAttribute::IsDirectory);
    }
    if span_spells(s, start, end, &attribute_chars(FileAttribute::IsSymlink)) {
        return Some(FileAttribute::IsSymlink);
    }
    if span_spells(s, start, end, &attribute_chars(FileAttribute::IsExecutable)) {
        return Some(FileAttribute::IsExecutable);
    }
    None
}

} // verus!
