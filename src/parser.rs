//! The parser: statement text to a [`FileQuery`], by recursive descent over
//! the tokens. Each rule of the grammar is a spec function, and the parsing
//! function of the rule returns exactly what it gives.
//!
//! ```text
//! statement  := select | "WITH" "RECURSIVE" select | update
//! select     := "SELECT" projection "FROM" path [ "WHERE" or ]
//! update     := "UPDATE" path "SET" assignment { "," assignment } [ "WHERE" or ]
//! projection := "*" | attribute { "," attribute }
//! assignment := attribute "=" ( string | number )
//! or         := and { "OR" and }
//! and        := unary { "AND" unary }
//! unary      := "NOT" unary | primary
//! primary    := "(" or ")" | "REGEXP" "(" attribute "," string ")"
//!             | attribute op literal | attribute "LIKE" string
//!             | attribute "BETWEEN" literal "AND" literal
//! literal    := string | number | "TRUE" | "FALSE" | "NULL"
//! ```
use vstd::prelude::*;

use crate::ast::{
    chars_of, string_from_chars, updates_view, CondView, ComparisonOperator, FileAttribute,
    FileAttributeUpdate, FileCondition, FileQuery, FileValue, QueryView, ValueView,
};
use crate::lexer::{is_digit, lex_spec, tokenize, tokens_wf, Token, TokenKind};
use crate::words::{attribute_named, keyword_text, spells, spells_keyword, word_attribute, Keyword};

verus! {

/// Why a statement was rejected.
#[derive(Debug, PartialEq, Eq)]
pub enum ParserError {
    /// The statement is not a `SELECT`, `WITH RECURSIVE SELECT` or `UPDATE`.
    UnsupportedStatement(String),
    /// A path is not usable; here, `~` cannot be resolved.
    InvalidPath(String),
    /// A word stands where an attribute name is expected.
    InvalidAttribute(String),
    /// An operator is missing or unknown.
    InvalidOperator(String),
    /// A literal is missing or malformed.
    InvalidValue(String),
    /// A clause, a path or a closing parenthesis is missing.
    MissingClause(String),
    /// The statement goes on past what the dialect supports.
    UnsupportedFeature(String),
}

/// The kind of a [`ParserError`], which the contracts speak of.
pub enum ParseErrorKind {
    UnsupportedStatement,
    InvalidPath,
    InvalidAttribute,
    InvalidOperator,
    InvalidValue,
    MissingClause,
    UnsupportedFeature,
}

impl ParserError {
    pub open spec fn kind(&self) -> ParseErrorKind {
        match self {
            ParserError::UnsupportedStatement(_) => ParseErrorKind::UnsupportedStatement,
            ParserError::InvalidPath(_) => ParseErrorKind::InvalidPath,
            ParserError::InvalidAttribute(_) => ParseErrorKind::InvalidAttribute,
            ParserError::InvalidOperator(_) => ParseErrorKind::InvalidOperator,
            ParserError::InvalidValue(_) => ParseErrorKind::InvalidValue,
            ParserError::MissingClause(_) => ParseErrorKind::MissingClause,
            ParserError::UnsupportedFeature(_) => ParseErrorKind::UnsupportedFeature,
        }
    }
}

// ----- tokens -----

pub open spec fn kind_at(t: Seq<Token>, p: int) -> Option<TokenKind> {
    if 0 <= p < t.len() {
        Some(t[p].kind)
    } else {
        None
    }
}

pub open spec fn span_text(s: Seq<char>, tk: Token) -> Seq<char> {
    s.subrange(tk.start as int, tk.end as int)
}

/// Token `p` is the keyword `k`.
pub open spec fn is_kw(s: Seq<char>, t: Seq<Token>, p: int, k: Keyword) -> bool {
    0 <= p < t.len() && t[p].kind == TokenKind::Word && spells(
        s,
        t[p].start as int,
        t[p].end as int,
        keyword_text(k),
    )
}

/// The attribute that token `p` names.
pub open spec fn attr_at(s: Seq<char>, t: Seq<Token>, p: int) -> Option<FileAttribute> {
    if 0 <= p < t.len() && t[p].kind == TokenKind::Word {
        word_attribute(s, t[p].start as int, t[p].end as int)
    } else {
        None
    }
}

/// The path that token `p` spells: a word, or a string literal.
pub open spec fn path_at(s: Seq<char>, t: Seq<Token>, p: int) -> Option<Seq<char>> {
    if 0 <= p < t.len() && (t[p].kind == TokenKind::Word || t[p].kind == TokenKind::Str) {
        Some(span_text(s, t[p]))
    } else {
        None
    }
}

fn kind_of(t: &Vec<Token>, p: usize) -> (r: Option<TokenKind>)
    ensures
        r == kind_at(t@, p as int),
{
    if p < t.len() {
        Some(t[p].kind)
    } else {
        None
    }
}

fn keyword_at(s: &Vec<char>, t: &Vec<Token>, p: usize, k: Keyword) -> (r: bool)
    requires
        tokens_wf(s@, t@),
    ensures
        r == is_kw(s@, t@, p as int, k),
{
    if p < t.len() && matches!(t[p].kind, TokenKind::Word) {
        spells_keyword(s, t[p].start, t[p].end, k)
    } else {
        false
    }
}

fn attribute_at(s: &Vec<char>, t: &Vec<Token>, p: usize) -> (r: Option<FileAttribute>)
    requires
        tokens_wf(s@, t@),
    ensures
        r == attr_at(s@, t@, p as int),
{
    if p < t.len() && matches!(t[p].kind, TokenKind::Word) {
        attribute_named(s, t[p].start, t[p].end)
    } else {
        None
    }
}

/// The characters `start..end` of `s`, as a string.
fn text_of(s: &Vec<char>, start: usize, end: usize) -> (r: String)
    requires
        start <= end <= s.len(),
    ensures
        r@ == s@.subrange(start as int, end as int),
{
    let mut v: Vec<char> = Vec::new();
    let mut i: usize = start;
    while i < end
        invariant
            start <= i <= end <= s.len(),
            v@ == s@.subrange(start as int, i as int),
        decreases end - i,
    {
        v.push(s[i]);
        assert(v@ =~= s@.subrange(start as int, i + 1));
        i += 1;
    }
    string_from_chars(&v)
}

fn token_text(s: &Vec<char>, t: &Vec<Token>, p: usize) -> (r: String)
    requires
        tokens_wf(s@, t@),
        p < t.len(),
    ensures
        r@ == span_text(s@, t@[p as int]),
{
    let tk = t[p];
    assert(tk.start <= tk.end && tk.end <= s.len());
    text_of(s, tk.start, tk.end)
}

// ----- numbers -----

pub open spec fn decimal_value(d: Seq<char>) -> nat
    decreases d.len(),
{
    if d.len() == 0 {
        0
    } else {
        decimal_value(d.drop_last()) * 10 + ((d.last() as int) - ('0' as int)) as nat
    }
}

pub open spec fn all_digits(d: Seq<char>) -> bool {
    forall|i: int| 0 <= i < d.len() ==> is_digit(#[trigger] d[i])
}

/// The number that a run of digits spells, if it fits in 64 bits.
pub open spec fn decimal_u64(d: Seq<char>) -> Option<u64> {
    if d.len() > 0 && all_digits(d) && decimal_value(d) <= u64::MAX {
        Some(decimal_value(d) as u64)
    } else {
        None
    }
}

proof fn lemma_decimal_prefix(d: Seq<char>, j: int)
    requires
        all_digits(d),
        0 <= j <= d.len(),
    ensures
        decimal_value(d.take(j)) <= decimal_value(d),
    decreases d.len(),
{
    if j < d.len() {
        assert(d.drop_last().take(j) =~= d.take(j));
        assert(all_digits(d.drop_last()));
        lemma_decimal_prefix(d.drop_last(), j);
    } else {
        assert(d.take(j) =~= d);
    }
}

/// Reads the digits `start..end` of `s` as a number.
fn parse_decimal(s: &Vec<char>, start: usize, end: usize) -> (r: Option<u64>)
    requires
        start <= end <= s.len(),
    ensures
        r == decimal_u64(s@.subrange(start as int, end as int)),
{
    let ghost d = s@.subrange(start as int, end as int);
    if start == end {
        return None;
    }
    let mut acc: u64 = 0;
    let mut i: usize = start;
    assert(d.take(0) =~= Seq::<char>::empty());
    while i < end
        invariant
            d == s@.subrange(start as int, end as int),
            start <= i <= end <= s.len(),
            acc as nat == decimal_value(d.take(i - start)),
            forall|j: int| 0 <= j < i - start ==> is_digit(#[trigger] d[j]),
        decreases end - i,
    {
        let c = s[i];
        assert(d[i - start] == c);
        if !('0' <= c && c <= '9') {
            return None;
        }
        let dig: u64 = ((c as u32) - ('0' as u32)) as u64;
        assert(d.take(i - start + 1).drop_last() =~= d.take(i - start));
        if acc > 1844674407370955161 || (acc == 1844674407370955161 && dig > 5) {
            proof {
                if all_digits(d) {
                    lemma_decimal_prefix(d, i - start + 1);
                }
            }
            return None;
        }
        acc = acc * 10 + dig;
        i += 1;
    }
    assert(d.take(i - start) =~= d);
    Some(acc)
}

// ----- conditions -----

/// How many tokens are left from `p` on.
pub open spec fn remaining(t: Seq<Token>, p: int) -> nat {
    if p <= t.len() {
        (t.len() - p) as nat
    } else {
        0
    }
}

pub open spec fn cond_presult_view(r: Result<(FileCondition, usize), ParserError>) -> Result<
    (CondView, int),
    ParseErrorKind,
> {
    match r {
        Ok((c, q)) => Ok((c@, q as int)),
        Err(e) => Err(e.kind()),
    }
}

pub open spec fn value_presult_view(r: Result<FileValue, ParserError>) -> Result<
    ValueView,
    ParseErrorKind,
> {
    match r {
        Ok(v) => Ok(v@),
        Err(e) => Err(e.kind()),
    }
}

/// The literal at token `p`.
pub open spec fn literal_spec(s: Seq<char>, t: Seq<Token>, p: int) -> Result<
    ValueView,
    ParseErrorKind,
> {
    if 0 <= p < t.len() {
        let tk = t[p];
        match tk.kind {
            TokenKind::Str => Ok(ValueView::Str(span_text(s, tk))),
            TokenKind::Number => match decimal_u64(span_text(s, tk)) {
                Some(n) => Ok(ValueView::Number(n)),
                None => Err(ParseErrorKind::InvalidValue),
            },
            TokenKind::Word => if is_kw(s, t, p, Keyword::True) {
                Ok(ValueView::Boolean(true))
            } else if is_kw(s, t, p, Keyword::False) {
                Ok(ValueView::Boolean(false))
            } else if is_kw(s, t, p, Keyword::Null) {
                Ok(ValueView::Null)
            } else {
                Err(ParseErrorKind::InvalidValue)
            },
            _ => Err(ParseErrorKind::InvalidValue),
        }
    } else {
        Err(ParseErrorKind::InvalidValue)
    }
}

/// `primary := "(" or ")" | "REGEXP" "(" attribute "," string ")"
///            | attribute op literal | attribute "LIKE" string
///            | attribute "BETWEEN" literal "AND" literal`
pub open spec fn primary_spec(s: Seq<char>, t: Seq<Token>, p: int) -> Result<
    (CondView, int),
    ParseErrorKind,
>
    decreases 8 * remaining(t, p) + 1,
{
    if kind_at(t, p) == Some(TokenKind::LParen) {
        match or_spec(s, t, p + 1) {
            Ok((c, q)) => if kind_at(t, q) == Some(TokenKind::RParen) {
                Ok((c, q + 1))
            } else {
                Err(ParseErrorKind::MissingClause)
            },
            Err(e) => Err(e),
        }
    } else if is_kw(s, t, p, Keyword::Regexp) {
        if kind_at(t, p + 1) != Some(TokenKind::LParen) {
            Err(ParseErrorKind::InvalidOperator)
        } else {
            match attr_at(s, t, p + 2) {
                None => Err(ParseErrorKind::InvalidAttribute),
                Some(a) => if kind_at(t, p + 3) != Some(TokenKind::Comma) {
                    Err(ParseErrorKind::InvalidValue)
                } else if kind_at(t, p + 4) != Some(TokenKind::Str) {
                    Err(ParseErrorKind::InvalidValue)
                } else if kind_at(t, p + 5) != Some(TokenKind::RParen) {
                    Err(ParseErrorKind::MissingClause)
                } else {
                    Ok((CondView::Regexp { attribute: a, pattern: span_text(s, t[p + 4]) }, p + 6))
                },
            }
        }
    } else {
        match attr_at(s, t, p) {
            None => Err(ParseErrorKind::InvalidAttribute),
            Some(a) => match kind_at(t, p + 1) {
                Some(TokenKind::Op(op)) => match literal_spec(s, t, p + 2) {
                    Ok(v) => Ok((CondView::Compare { attribute: a, operator: op, value: v }, p + 3)),
                    Err(e) => Err(e),
                },
                _ => if is_kw(s, t, p + 1, Keyword::Like) {
                    if kind_at(t, p + 2) == Some(TokenKind::Str) {
                        Ok(
                            (
                                CondView::Like {
                                    attribute: a,
                                    pattern: span_text(s, t[p + 2]),
                                    case_sensitive: false,
                                },
                                p + 3,
                            ),
                        )
                    } else {
                        Err(ParseErrorKind::InvalidValue)
                    }
                } else if is_kw(s, t, p + 1, Keyword::Between) {
                    match literal_spec(s, t, p + 2) {
                        Ok(lo) => if is_kw(s, t, p + 3, Keyword::And) {
                            match literal_spec(s, t, p + 4) {
                                Ok(hi) => Ok(
                                    (CondView::Between { attribute: a, lower: lo, upper: hi }, p + 5),
                                ),
                                Err(e) => Err(e),
                            }
                        } else {
                            Err(ParseErrorKind::MissingClause)
                        },
                        Err(e) => Err(e),
                    }
                } else {
                    Err(ParseErrorKind::InvalidOperator)
                },
            },
        }
    }
}

/// `unary := "NOT" unary | primary`
pub open spec fn unary_spec(s: Seq<char>, t: Seq<Token>, p: int) -> Result<
    (CondView, int),
    ParseErrorKind,
>
    decreases 8 * remaining(t, p) + 2,
{
    if is_kw(s, t, p, Keyword::Not) {
        match unary_spec(s, t, p + 1) {
            Ok((c, q)) => Ok((CondView::Not(Box::new(c)), q)),
            Err(e) => Err(e),
        }
    } else {
        primary_spec(s, t, p)
    }
}

/// Further `AND unary` operands after `acc`, grouped to the left.
pub open spec fn and_tail_spec(s: Seq<char>, t: Seq<Token>, p: int, acc: CondView) -> Result<
    (CondView, int),
    ParseErrorKind,
>
    decreases 8 * remaining(t, p),
{
    if is_kw(s, t, p, Keyword::And) {
        match unary_spec(s, t, p + 1) {
            Ok((r, q)) => if p + 1 < q <= t.len() {
                and_tail_spec(s, t, q, CondView::And(Box::new(acc), Box::new(r)))
            } else {
                Err(ParseErrorKind::InvalidValue)
            },
            Err(e) => Err(e),
        }
    } else {
        Ok((acc, p))
    }
}

/// `and := unary { "AND" unary }`
pub open spec fn and_spec(s: Seq<char>, t: Seq<Token>, p: int) -> Result<
    (CondView, int),
    ParseErrorKind,
>
    decreases 8 * remaining(t, p) + 3,
{
    match unary_spec(s, t, p) {
        Ok((l, q)) => if p < q <= t.len() {
            and_tail_spec(s, t, q, l)
        } else {
            Err(ParseErrorKind::InvalidValue)
        },
        Err(e) => Err(e),
    }
}

/// Further `OR and` operands after `acc`, grouped to the left.
pub open spec fn or_tail_spec(s: Seq<char>, t: Seq<Token>, p: int, acc: CondView) -> Result<
    (CondView, int),
    ParseErrorKind,
>
    decreases 8 * remaining(t, p),
{
    if is_kw(s, t, p, Keyword::Or) {
        match and_spec(s, t, p + 1) {
            Ok((r, q)) => if p + 1 < q <= t.len() {
                or_tail_spec(s, t, q, CondView::Or(Box::new(acc), Box::new(r)))
            } else {
                Err(ParseErrorKind::InvalidValue)
            },
            Err(e) => Err(e),
        }
    } else {
        Ok((acc, p))
    }
}

/// `or := and { "OR" and }`
pub open spec fn or_spec(s: Seq<char>, t: Seq<Token>, p: int) -> Result<
    (CondView, int),
    ParseErrorKind,
>
    decreases 8 * remaining(t, p) + 4,
{
    match and_spec(s, t, p) {
        Ok((l, q)) => if p < q <= t.len() {
            or_tail_spec(s, t, q, l)
        } else {
            Err(ParseErrorKind::InvalidValue)
        },
        Err(e) => Err(e),
    }
}

fn invalid_value(what: &str) -> (r: ParserError)
    ensures
        r.kind() == ParseErrorKind::InvalidValue,
{
    ParserError::InvalidValue(what.to_string())
}

/// Reads the literal at token `p`.
fn literal(s: &Vec<char>, t: &Vec<Token>, p: usize) -> (r: Result<FileValue, ParserError>)
    requires
        tokens_wf(s@, t@),
    ensures
        value_presult_view(r) == literal_spec(s@, t@, p as int),
{
    if p >= t.len() {
        return Err(invalid_value("a literal is missing"));
    }
    let tk = t[p];
    assert(tk.start <= tk.end && tk.end <= s.len());
    match tk.kind {
        TokenKind::Str => Ok(FileValue::String(token_text(s, t, p))),
        TokenKind::Number => match parse_decimal(s, tk.start, tk.end) {
            Some(n) => Ok(FileValue::Number(n)),
            None => Err(invalid_value("a number does not fit in 64 bits")),
        },
        TokenKind::Word => {
            if keyword_at(s, t, p, Keyword::True) {
                Ok(FileValue::Boolean(true))
            } else if keyword_at(s, t, p, Keyword::False) {
                Ok(FileValue::Boolean(false))
            } else if keyword_at(s, t, p, Keyword::Null) {
                Ok(FileValue::Null)
            } else {
                Err(invalid_value("a literal is expected"))
            }
        },
        _ => Err(invalid_value("a literal is expected")),
    }
}

fn primary(s: &Vec<char>, t: &Vec<Token>, p: usize) -> (r: Result<
    (FileCondition, usize),
    ParserError,
>)
    requires
        tokens_wf(s@, t@),
        p <= t.len(),
    ensures
        cond_presult_view(r) == primary_spec(s@, t@, p as int),
    decreases 8 * remaining(t@, p as int) + 1,
{
    if matches!(kind_of(t, p), Some(TokenKind::LParen)) {
        match or_condition(s, t, p + 1) {
            Ok((c, q)) => if matches!(kind_of(t, q), Some(TokenKind::RParen)) {
                Ok((c, q + 1))
            } else {
                Err(ParserError::MissingClause("a closing parenthesis is missing".to_string()))
            },
            Err(e) => Err(e),
        }
    } else if keyword_at(s, t, p, Keyword::Regexp) {
        if !matches!(kind_of(t, p + 1), Some(TokenKind::LParen)) {
            return Err(
                ParserError::InvalidOperator(
                    "REGEXP takes its operands in parentheses".to_string(),
                ),
            );
        }
        match attribute_at(s, t, p + 2) {
            None => Err(ParserError::InvalidAttribute("REGEXP needs an attribute".to_string())),
            Some(a) => if !matches!(kind_of(t, p + 3), Some(TokenKind::Comma)) {
                Err(invalid_value("REGEXP needs a comma after the attribute"))
            } else if !matches!(kind_of(t, p + 4), Some(TokenKind::Str)) {
                Err(invalid_value("REGEXP needs a quoted pattern"))
            } else if !matches!(kind_of(t, p + 5), Some(TokenKind::RParen)) {
                Err(ParserError::MissingClause("REGEXP is not closed".to_string()))
            } else {
                Ok((FileCondition::Regexp { attribute: a, pattern: token_text(s, t, p + 4) }, p + 6))
            },
        }
    } else {
        match attribute_at(s, t, p) {
            None => Err(ParserError::InvalidAttribute("an attribute is expected".to_string())),
            Some(a) => match kind_of(t, p + 1) {
                Some(TokenKind::Op(op)) => match literal(s, t, p + 2) {
                    Ok(v) => Ok(
                        (FileCondition::Compare { attribute: a, operator: op, value: v }, p + 3),
                    ),
                    Err(e) => Err(e),
                },
                _ => {
                    if keyword_at(s, t, p + 1, Keyword::Like) {
                        if matches!(kind_of(t, p + 2), Some(TokenKind::Str)) {
                            Ok(
                                (
                                    FileCondition::Like {
                                        attribute: a,
                                        pattern: token_text(s, t, p + 2),
                                        case_sensitive: false,
                                    },
                                    p + 3,
                                ),
                            )
                        } else {
                            Err(invalid_value("LIKE needs a quoted pattern"))
                        }
                    } else if keyword_at(s, t, p + 1, Keyword::Between) {
                        match literal(s, t, p + 2) {
                            Ok(lo) => if keyword_at(s, t, p + 3, Keyword::And) {
                                match literal(s, t, p + 4) {
                                    Ok(hi) => Ok(
                                        (
                                            FileCondition::Between {
                                                attribute: a,
                                                lower: lo,
                                                upper: hi,
                                            },
                                            p + 5,
                                        ),
                                    ),
                                    Err(e) => Err(e),
                                }
                            } else {
                                Err(
                                    ParserError::MissingClause(
                                        "BETWEEN needs AND between its bounds".to_string(),
                                    ),
                                )
                            },
                            Err(e) => Err(e),
                        }
                    } else {
                        Err(
                            ParserError::InvalidOperator(
                                "a comparison, LIKE or BETWEEN is expected".to_string(),
                            ),
                        )
                    }
                },
            },
        }
    }
}

fn unary(s: &Vec<char>, t: &Vec<Token>, p: usize) -> (r: Result<(FileCondition, usize), ParserError>)
    requires
        tokens_wf(s@, t@),
        p <= t.len(),
    ensures
        cond_presult_view(r) == unary_spec(s@, t@, p as int),
    decreases 8 * remaining(t@, p as int) + 2,
{
    if keyword_at(s, t, p, Keyword::Not) {
        match unary(s, t, p + 1) {
            Ok((c, q)) => Ok((FileCondition::Not(Box::new(c)), q)),
            Err(e) => Err(e),
        }
    } else {
        primary(s, t, p)
    }
}

fn and_tail(s: &Vec<char>, t: &Vec<Token>, p: usize, acc: FileCondition) -> (r: Result<
    (FileCondition, usize),
    ParserError,
>)
    requires
        tokens_wf(s@, t@),
        p <= t.len(),
    ensures
        cond_presult_view(r) == and_tail_spec(s@, t@, p as int, acc@),
    decreases 8 * remaining(t@, p as int),
{
    if keyword_at(s, t, p, Keyword::And) {
        match unary(s, t, p + 1) {
            Ok((r, q)) => {
                // A successful operand always consumes a token.
                if p + 1 < q && q <= t.len() {
                    and_tail(s, t, q, FileCondition::And(Box::new(acc), Box::new(r)))
                } else {
                    Err(invalid_value("an operand of AND is empty"))
                }
            },
            Err(e) => Err(e),
        }
    } else {
        Ok((acc, p))
    }
}

fn and_condition(s: &Vec<char>, t: &Vec<Token>, p: usize) -> (r: Result<
    (FileCondition, usize),
    ParserError,
>)
    requires
        tokens_wf(s@, t@),
        p <= t.len(),
    ensures
        cond_presult_view(r) == and_spec(s@, t@, p as int),
    decreases 8 * remaining(t@, p as int) + 3,
{
    match unary(s, t, p) {
        Ok((l, q)) => if p < q && q <= t.len() {
            and_tail(s, t, q, l)
        } else {
            Err(invalid_value("an operand of AND is empty"))
        },
        Err(e) => Err(e),
    }
}

fn or_tail(s: &Vec<char>, t: &Vec<Token>, p: usize, acc: FileCondition) -> (r: Result<
    (FileCondition, usize),
    ParserError,
>)
    requires
        tokens_wf(s@, t@),
        p <= t.len(),
    ensures
        cond_presult_view(r) == or_tail_spec(s@, t@, p as int, acc@),
    decreases 8 * remaining(t@, p as int),
{
    if keyword_at(s, t, p, Keyword::Or) {
        match and_condition(s, t, p + 1) {
            Ok((r, q)) => {
                // A successful operand always consumes a token.
                if p + 1 < q && q <= t.len() {
                    or_tail(s, t, q, FileCondition::Or(Box::new(acc), Box::new(r)))
                } else {
                    Err(invalid_value("an operand of OR is empty"))
                }
            },
            Err(e) => Err(e),
        }
    } else {
        Ok((acc, p))
    }
}

fn or_condition(s: &Vec<char>, t: &Vec<Token>, p: usize) -> (r: Result<
    (FileCondition, usize),
    ParserError,
>)
    requires
        tokens_wf(s@, t@),
        p <= t.len(),
    ensures
        cond_presult_view(r) == or_spec(s@, t@, p as int),
    decreases 8 * remaining(t@, p as int) + 4,
{
    match and_condition(s, t, p) {
        Ok((l, q)) => if p < q && q <= t.len() {
            or_tail(s, t, q, l)
        } else {
            Err(invalid_value("an operand of OR is empty"))
        },
        Err(e) => Err(e),
    }
}

// ----- statements -----

/// `[ "WHERE" or ]`
pub open spec fn where_spec(s: Seq<char>, t: Seq<Token>, p: int) -> Result<
    (Option<CondView>, int),
    ParseErrorKind,
> {
    if is_kw(s, t, p, Keyword::Where) {
        match or_spec(s, t, p + 1) {
            Ok((c, q)) => Ok((Some(c), q)),
            Err(e) => Err(e),
        }
    } else {
        Ok((None, p))
    }
}

/// `attribute { "," attribute }`
pub open spec fn attr_list_spec(s: Seq<char>, t: Seq<Token>, p: int) -> Result<
    (Seq<FileAttribute>, int),
    ParseErrorKind,
>
    decreases remaining(t, p),
{
    match attr_at(s, t, p) {
        None => Err(ParseErrorKind::InvalidAttribute),
        Some(a) => if kind_at(t, p + 1) == Some(TokenKind::Comma) {
            match attr_list_spec(s, t, p + 2) {
                Ok((rest, q)) => Ok((seq![a] + rest, q)),
                Err(e) => Err(e),
            }
        } else {
            Ok((seq![a], p + 1))
        },
    }
}

/// `projection := "*" | attribute { "," attribute }`
pub open spec fn projection_spec(s: Seq<char>, t: Seq<Token>, p: int) -> Result<
    (Seq<FileAttribute>, int),
    ParseErrorKind,
> {
    if kind_at(t, p) == Some(TokenKind::Star) {
        Ok((seq![FileAttribute::All], p + 1))
    } else {
        attr_list_spec(s, t, p)
    }
}

/// The new value of an assignment: a string literal or a number, as written.
pub open spec fn assigned_at(s: Seq<char>, t: Seq<Token>, p: int) -> Option<Seq<char>> {
    if 0 <= p < t.len() && (t[p].kind == TokenKind::Str || t[p].kind == TokenKind::Number) {
        Some(span_text(s, t[p]))
    } else {
        None
    }
}

/// `assignment { "," assignment }`
pub open spec fn assign_list_spec(s: Seq<char>, t: Seq<Token>, p: int) -> Result<
    (Seq<(FileAttribute, Seq<char>)>, int),
    ParseErrorKind,
>
    decreases remaining(t, p),
{
    match attr_at(s, t, p) {
        None => Err(ParseErrorKind::InvalidAttribute),
        Some(a) => if kind_at(t, p + 1) != Some(TokenKind::Op(ComparisonOperator::Eq)) {
            Err(ParseErrorKind::InvalidOperator)
        } else {
            match assigned_at(s, t, p + 2) {
                None => Err(ParseErrorKind::InvalidValue),
                Some(v) => if kind_at(t, p + 3) == Some(TokenKind::Comma) {
                    match assign_list_spec(s, t, p + 4) {
                        Ok((rest, q)) => Ok((seq![(a, v)] + rest, q)),
                        Err(e) => Err(e),
                    }
                } else {
                    Ok((seq![(a, v)], p + 3))
                },
            }
        },
    }
}

/// `home` joined with the relative path `rest`.
pub open spec fn join_path(home: Seq<char>, rest: Seq<char>) -> Seq<char> {
    if home.len() == 0 || home.last() == '/' {
        home + rest
    } else {
        home + seq!['/'] + rest
    }
}

/// A path as written, with a leading `~` resolved against the home
/// directory: `~` and `~user` stand for `home`, `~/x` for `home/x`. Without a
/// home directory that is an `InvalidPath` error.
pub open spec fn resolve_path_spec(raw: Seq<char>, home: Option<Seq<char>>) -> Result<
    Seq<char>,
    ParseErrorKind,
> {
    if raw.len() >= 1 && raw[0] == '~' {
        match home {
            None => Err(ParseErrorKind::InvalidPath),
            Some(h) => if raw.len() >= 2 && raw[1] == '/' {
                Ok(join_path(h, raw.skip(2)))
            } else {
                Ok(h)
            },
        }
    } else {
        Ok(raw)
    }
}

/// The rest of a `SELECT` from its projection at token `p` on.
pub open spec fn select_stmt_spec(
    s: Seq<char>,
    t: Seq<Token>,
    p: int,
    recursive: bool,
    home: Option<Seq<char>>,
) -> Result<QueryView, ParseErrorKind> {
    match projection_spec(s, t, p) {
        Err(e) => Err(e),
        Ok((attributes, q)) => if !is_kw(s, t, q, Keyword::From) {
            Err(ParseErrorKind::MissingClause)
        } else {
            match path_at(s, t, q + 1) {
                None => Err(ParseErrorKind::MissingClause),
                Some(raw) => match resolve_path_spec(raw, home) {
                    Err(e) => Err(e),
                    Ok(path) => match where_spec(s, t, q + 2) {
                        Err(e) => Err(e),
                        Ok((condition, r)) => if r == t.len() {
                            Ok(QueryView::Select { path, recursive, attributes, condition })
                        } else {
                            Err(ParseErrorKind::UnsupportedFeature)
                        },
                    },
                },
            }
        },
    }
}

/// The rest of an `UPDATE` from its path at token `p` on.
pub open spec fn update_stmt_spec(
    s: Seq<char>,
    t: Seq<Token>,
    p: int,
    home: Option<Seq<char>>,
) -> Result<QueryView, ParseErrorKind> {
    match path_at(s, t, p) {
        None => Err(ParseErrorKind::MissingClause),
        Some(raw) => match resolve_path_spec(raw, home) {
            Err(e) => Err(e),
            Ok(path) => if !is_kw(s, t, p + 1, Keyword::SetClause) {
                Err(ParseErrorKind::MissingClause)
            } else {
                match assign_list_spec(s, t, p + 2) {
                    Err(e) => Err(e),
                    Ok((updates, q)) => match where_spec(s, t, q) {
                        Err(e) => Err(e),
                        Ok((condition, r)) => if r == t.len() {
                            Ok(QueryView::Update { path, updates, condition })
                        } else {
                            Err(ParseErrorKind::UnsupportedFeature)
                        },
                    },
                }
            },
        },
    }
}

/// A statement, by its leading keywords.
pub open spec fn statement_spec(s: Seq<char>, t: Seq<Token>, home: Option<Seq<char>>) -> Result<
    QueryView,
    ParseErrorKind,
> {
    if is_kw(s, t, 0, Keyword::Select) {
        select_stmt_spec(s, t, 1, false, home)
    } else if is_kw(s, t, 0, Keyword::With) && is_kw(s, t, 1, Keyword::Recursive) && is_kw(
        s,
        t,
        2,
        Keyword::Select,
    ) {
        select_stmt_spec(s, t, 3, true, home)
    } else if is_kw(s, t, 0, Keyword::Update) {
        update_stmt_spec(s, t, 1, home)
    } else {
        Err(ParseErrorKind::UnsupportedStatement)
    }
}

/// What parsing the statement `sql` gives, where `home` is the home
/// directory, if one is known.
pub open spec fn parse_spec(sql: Seq<char>, home: Option<Seq<char>>) -> Result<
    QueryView,
    ParseErrorKind,
> {
    statement_spec(sql, lex_spec(sql), home)
}

pub open spec fn query_result_view(r: Result<FileQuery, ParserError>) -> Result<
    QueryView,
    ParseErrorKind,
> {
    match r {
        Ok(q) => Ok(q@),
        Err(e) => Err(e.kind()),
    }
}

fn where_clause(s: &Vec<char>, t: &Vec<Token>, p: usize) -> (r: Result<
    (Option<FileCondition>, usize),
    ParserError,
>)
    requires
        tokens_wf(s@, t@),
    ensures
        match r {
            Ok((c, q)) => where_spec(s@, t@, p as int) == Ok::<_, ParseErrorKind>(
                (crate::ast::option_cond_view(c), q as int),
            ),
            Err(e) => where_spec(s@, t@, p as int) == Err::<(Option<CondView>, int), _>(e.kind()),
        },
{
    if keyword_at(s, t, p, Keyword::Where) {
        assert(p < t.len());
        match or_condition(s, t, p + 1) {
            Ok((c, q)) => Ok((Some(c), q)),
            Err(e) => Err(e),
        }
    } else {
        Ok((None, p))
    }
}

fn attribute_list(s: &Vec<char>, t: &Vec<Token>, p: usize) -> (r: Result<
    (Vec<FileAttribute>, usize),
    ParserError,
>)
    requires
        tokens_wf(s@, t@),
        p <= t.len(),
    ensures
        match r {
            Ok((v, q)) => attr_list_spec(s@, t@, p as int) == Ok::<_, ParseErrorKind>(
                (v@, q as int),
            ),
            Err(e) => attr_list_spec(s@, t@, p as int) == Err::<(Seq<FileAttribute>, int), _>(
                e.kind(),
            ),
        },
    decreases remaining(t@, p as int),
{
    match attribute_at(s, t, p) {
        None => Err(ParserError::InvalidAttribute("an attribute is expected".to_string())),
        Some(a) => {
            let mut v: Vec<FileAttribute> = Vec::new();
            v.push(a);
            if matches!(kind_of(t, p + 1), Some(TokenKind::Comma)) {
                match attribute_list(s, t, p + 2) {
                    Ok((mut rest, q)) => {
                        let ghost rv = rest@;
                        v.append(&mut rest);
                        assert(v@ =~= seq![a] + rv);
                        Ok((v, q))
                    },
                    Err(e) => Err(e),
                }
            } else {
                assert(v@ =~= seq![a]);
                Ok((v, p + 1))
            }
        },
    }
}

fn projection(s: &Vec<char>, t: &Vec<Token>, p: usize) -> (r: Result<
    (Vec<FileAttribute>, usize),
    ParserError,
>)
    requires
        tokens_wf(s@, t@),
        p <= t.len(),
    ensures
        match r {
            Ok((v, q)) => projection_spec(s@, t@, p as int) == Ok::<_, ParseErrorKind>(
                (v@, q as int),
            ),
            Err(e) => projection_spec(s@, t@, p as int) == Err::<(Seq<FileAttribute>, int), _>(
                e.kind(),
            ),
        },
{
    if matches!(kind_of(t, p), Some(TokenKind::Star)) {
        let v: Vec<FileAttribute> = vec![FileAttribute::All];
        assert(v@ =~= seq![FileAttribute::All]);
        Ok((v, p + 1))
    } else {
        attribute_list(s, t, p)
    }
}

fn assignment_list(s: &Vec<char>, t: &Vec<Token>, p: usize) -> (r: Result<
    (Vec<FileAttributeUpdate>, usize),
    ParserError,
>)
    requires
        tokens_wf(s@, t@),
        p <= t.len(),
    ensures
        match r {
            Ok((v, q)) => assign_list_spec(s@, t@, p as int) == Ok::<_, ParseErrorKind>(
                (updates_view(v@), q as int),
            ),
            Err(e) => assign_list_spec(s@, t@, p as int) == Err::<
                (Seq<(FileAttribute, Seq<char>)>, int),
                _,
            >(e.kind()),
        },
    decreases remaining(t@, p as int),
{
    match attribute_at(s, t, p) {
        None => Err(ParserError::InvalidAttribute("an attribute is expected".to_string())),
        Some(a) => {
            if !matches!(kind_of(t, p + 1), Some(TokenKind::Op(ComparisonOperator::Eq))) {
                return Err(
                    ParserError::InvalidOperator("an assignment needs `=`".to_string()),
                );
            }
            let k = kind_of(t, p + 2);
            if !(matches!(k, Some(TokenKind::Str)) || matches!(k, Some(TokenKind::Number))) {
                return Err(invalid_value("an assignment needs a quoted value or a number"));
            }
            let value = token_text(s, t, p + 2);
            let mut v: Vec<FileAttributeUpdate> = Vec::new();
            v.push(FileAttributeUpdate { attribute: a, value });
            if matches!(kind_of(t, p + 3), Some(TokenKind::Comma)) {
                match assignment_list(s, t, p + 4) {
                    Ok((mut rest, q)) => {
                        let ghost rv = rest@;
                        v.append(&mut rest);
                        assert(updates_view(v@) =~= seq![(a, value@)] + updates_view(rv));
                        Ok((v, q))
                    },
                    Err(e) => Err(e),
                }
            } else {
                assert(updates_view(v@) =~= seq![(a, value@)]);
                Ok((v, p + 3))
            }
        },
    }
}

pub open spec fn option_str_view(h: Option<&str>) -> Option<Seq<char>> {
    match h {
        Some(h) => Some(h@),
        None => None,
    }
}

/// Resolves a leading `~` of a path against `home`.
pub fn resolve_path(raw: &str, home: Option<&str>) -> (r: Result<String, ParserError>)
    ensures
        match r {
            Ok(p) => resolve_path_spec(raw@, option_str_view(home)) == Ok::<_, ParseErrorKind>(
                p@,
            ),
            Err(e) => resolve_path_spec(raw@, option_str_view(home)) == Err::<Seq<char>, _>(
                e.kind(),
            ),
        },
{
    let r = chars_of(raw);
    if r.len() >= 1 && r[0] == '~' {
        match home {
            None => Err(
                ParserError::InvalidPath("the home directory cannot be determined".to_string()),
            ),
            Some(h) => {
                if r.len() >= 2 && r[1] == '/' {
                    let mut out = chars_of(h);
                    let ghost hv = out@;
                    if !(out.len() == 0 || out[out.len() - 1] == '/') {
                        out.push('/');
                    }
                    let ghost mid = out@;
                    let mut i: usize = 2;
                    while i < r.len()
                        invariant
                            r@ == raw@,
                            2 <= i <= r.len(),
                            out@ == mid + r@.subrange(2, i as int),
                        decreases r.len() - i,
                    {
                        out.push(r[i]);
                        assert(out@ =~= mid + r@.subrange(2, i + 1));
                        i += 1;
                    }
                    assert(r@.subrange(2, i as int) =~= r@.skip(2));
                    assert(out@ =~= join_path(hv, raw@.skip(2)));
                    Ok(string_from_chars(&out))
                } else {
                    Ok(h.to_string())
                }
            },
        }
    } else {
        Ok(raw.to_string())
    }
}

fn path_token(s: &Vec<char>, t: &Vec<Token>, p: usize) -> (r: Option<String>)
    requires
        tokens_wf(s@, t@),
    ensures
        match r {
            Some(x) => path_at(s@, t@, p as int) == Some(x@),
            None => path_at(s@, t@, p as int) is None,
        },
{
    let k = kind_of(t, p);
    if matches!(k, Some(TokenKind::Word)) || matches!(k, Some(TokenKind::Str)) {
        Some(token_text(s, t, p))
    } else {
        None
    }
}

fn unsupported_rest() -> (r: ParserError)
    ensures
        r.kind() == ParseErrorKind::UnsupportedFeature,
{
    ParserError::UnsupportedFeature("the statement goes on after its last clause".to_string())
}

fn select_statement(
    s: &Vec<char>,
    t: &Vec<Token>,
    p: usize,
    recursive: bool,
    home: Option<&str>,
) -> (r: Result<FileQuery, ParserError>)
    requires
        tokens_wf(s@, t@),
        p <= t.len(),
    ensures
        query_result_view(r) == select_stmt_spec(s@, t@, p as int, recursive, option_str_view(home)),
{
    let (attributes, q) = match projection(s, t, p) {
        Ok(x) => x,
        Err(e) => {
            return Err(e);
        },
    };
    if !keyword_at(s, t, q, Keyword::From) {
        return Err(ParserError::MissingClause("FROM is missing".to_string()));
    }
    let raw = match path_token(s, t, q + 1) {
        Some(raw) => raw,
        None => {
            return Err(ParserError::MissingClause("a path is missing after FROM".to_string()));
        },
    };
    let path = match resolve_path(raw.as_str(), home) {
        Ok(path) => path,
        Err(e) => {
            return Err(e);
        },
    };
    let (condition, r) = match where_clause(s, t, q + 2) {
        Ok(x) => x,
        Err(e) => {
            return Err(e);
        },
    };
    if r != t.len() {
        return Err(unsupported_rest());
    }
    Ok(FileQuery::Select { path, recursive, attributes, condition })
}

fn update_statement(s: &Vec<char>, t: &Vec<Token>, p: usize, home: Option<&str>) -> (r: Result<
    FileQuery,
    ParserError,
>)
    requires
        tokens_wf(s@, t@),
        p <= t.len(),
    ensures
        query_result_view(r) == update_stmt_spec(s@, t@, p as int, option_str_view(home)),
{
    let raw = match path_token(s, t, p) {
        Some(raw) => raw,
        None => {
            return Err(ParserError::MissingClause("a path is missing after UPDATE".to_string()));
        },
    };
    let path = match resolve_path(raw.as_str(), home) {
        Ok(path) => path,
        Err(e) => {
            return Err(e);
        },
    };
    if !keyword_at(s, t, p + 1, Keyword::SetClause) {
        return Err(ParserError::MissingClause("SET is missing".to_string()));
    }
    let (updates, q) = match assignment_list(s, t, p + 2) {
        Ok(x) => x,
        Err(e) => {
            return Err(e);
        },
    };
    let (condition, r) = match where_clause(s, t, q) {
        Ok(x) => x,
        Err(e) => {
            return Err(e);
        },
    };
    if r != t.len() {
        return Err(unsupported_rest());
    }
    Ok(FileQuery::Update { path, updates, condition })
}

/// Parses the statement `sql`, resolving a leading `~` of its path against
/// `home` (no home directory known: `None`).
pub fn parse_sql_with_home(sql: &str, home: Option<&str>) -> (r: Result<FileQuery, ParserError>)
    ensures
        query_result_view(r) == parse_spec(sql@, option_str_view(home)),
{
    let s = chars_of(sql);
    let t = tokenize(&s);
    if keyword_at(&s, &t, 0, Keyword::Select) {
        select_statement(&s, &t, 1, false, home)
    } else if keyword_at(&s, &t, 0, Keyword::With) && keyword_at(&s, &t, 1, Keyword::Recursive)
        && keyword_at(&s, &t, 2, Keyword::Select) {
        select_statement(&s, &t, 3, true, home)
    } else if keyword_at(&s, &t, 0, Keyword::Update) {
        update_statement(&s, &t, 1, home)
    } else {
        Err(
            ParserError::UnsupportedStatement(
                "only SELECT, WITH RECURSIVE SELECT and UPDATE are supported".to_string(),
            ),
        )
    }
}

/// Relies on `dirs::home_dir`: the current user's home directory, if it can
/// be found, turned into a string when it is valid Unicode. It depends on
/// the environment, so nothing is stated of it.
#[verifier::external_body]
fn home_directory() -> (r: Option<String>) {
    match dirs::home_dir() {
        Some(p) => p.into_os_string().into_string().ok(),
        None => None,
    }
}

/// Parses the statement `sql`, resolving a leading `~` of its path against
/// the current user's home directory.
pub fn parse_sql(sql: &str) -> (r: Result<FileQuery, ParserError>)
    ensures
        exists|home: Option<Seq<char>>| query_result_view(r) == parse_spec(sql@, home),
{
    let home = home_directory();
    let r = match &home {
        Some(h) => parse_sql_with_home(sql, Some(h.as_str())),
        None => parse_sql_with_home(sql, None),
    };
    assert(query_result_view(r) == parse_spec(
        sql@,
        match home {
            Some(h) => Some(h@),
            None => None,
        },
    ));
    r
}

} // verus!
