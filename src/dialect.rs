//! Which characters make up identifiers in this dialect. Paths such as
//! `~/Documents`, `/var/log` or `C:/Users` are read as single identifiers.
use vstd::prelude::*;

use sqlparser::dialect::Dialect;

verus! {

/// What sqlparser's `GenericDialect::is_identifier_start` returns for a
/// character.
pub uninterp spec fn generic_identifier_start(c: char) -> bool;

/// What sqlparser's `GenericDialect::is_identifier_part` returns for a
/// character.
pub uninterp spec fn generic_identifier_part(c: char) -> bool;

pub open spec fn is_ascii_letter(c: char) -> bool {
    ('a' <= c <= 'z') || ('A' <= c <= 'Z')
}

/// Relies on sqlparser's `GenericDialect::is_identifier_start`: an alphabetic
/// character, `_`, `#` or `@`.
#[verifier::external_body]
fn generic_start(c: char) -> (r: bool)
    ensures
        r == generic_identifier_start(c),
        is_ascii_letter(c) || c == '_' ==> r,
{
    sqlparser::dialect::GenericDialect {}.is_identifier_start(c)
}

/// Relies on sqlparser's `GenericDialect::is_identifier_part`: an alphabetic
/// character, an ASCII digit, `@`, `$`, `#` or `_`.
#[verifier::external_body]
fn generic_part(c: char) -> (r: bool)
    ensures
        r == generic_identifier_part(c),
        is_ascii_letter(c) || ('0' <= c <= '9') || c == '_' ==> r,
{
    sqlparser::dialect::GenericDialect {}.is_identifier_part(c)
}

/// Characters that may start an identifier: those of the generic SQL
/// dialect (ASCII letters among them), and `~ / . _ -` so that paths can.
pub open spec fn file_identifier_start(c: char) -> bool {
    c == '~' || c == '/' || c == '.' || c == '_' || c == '-' || is_ascii_letter(c)
        || generic_identifier_start(c)
}

/// Characters that may continue an identifier: those of the generic SQL
/// dialect (ASCII letters and digits among them), and `/ \ . _ - ~ :` (the
/// colon for drive letters).
pub open spec fn file_identifier_part(c: char) -> bool {
    c == '/' || c == '\\' || c == '.' || c == '_' || c == '-' || c == '~' || c == ':'
        || is_ascii_letter(c) || ('0' <= c <= '9') || generic_identifier_part(c)
}

/// The character classes of the file query dialect.
#[derive(Debug, Default)]
pub struct FileDialect {}

impl FileDialect {
    pub fn new() -> Self {
        FileDialect {  }
    }

    pub fn is_identifier_start(&self, c: char) -> (r: bool)
        ensures
            r == file_identifier_start(c),
    {
        c == '~' || c == '/' || c == '.' || c == '_' || c == '-' || generic_start(c)
    }

    pub fn is_identifier_part(&self, c: char) -> (r: bool)
        ensures
            r == file_identifier_part(c),
    {
        c == '/' || c == '\\' || c == '.' || c == '_' || c == '-' || c == '~' || c == ':'
            || generic_part(c)
    }

    /// Whether `c` opens a quoted identifier, as in the generic dialect.
    pub fn is_delimited_identifier_start(&self, c: char) -> (r: bool)
        ensures
            r == (c == '"' || c == '`'),
    {
        c == '"' || c == '`'
    }
}

} // verus!
