//! Splitting a statement into tokens. Tokenizing never fails: a character
//! that starts no token, or a string literal left open, becomes a token of
//! its own that the parser then rejects where it stands.
use vstd::prelude::*;

use crate::ast::ComparisonOperator;
use crate::dialect::{file_identifier_part, file_identifier_start, FileDialect};

verus! {

/// The kinds of tokens.
#[derive(Clone, Copy, Debug, PartialEq, Eq, Structural)]
pub enum TokenKind {
    /// An identifier, a keyword or a path.
    Word,
    /// A string literal; the token's span excludes the quotes.
    Str,
    /// A run of ASCII digits.
    Number,
    LParen,
    RParen,
    Comma,
    Star,
    Op(ComparisonOperator),
    /// A string literal without its closing quote; the span runs from the
    /// opening quote to the end.
    Unterminated,
    /// A character that starts no token.
    Unknown,
}

/// A token: its kind and the span `start..end` of the input that it covers.
#[derive(Clone, Copy, Debug, PartialEq, Eq, Structural)]
pub struct Token {
    pub kind: TokenKind,
    pub start: usize,
    pub end: usize,
}

/// Where the tokenizer stands: between tokens, or inside one that began at
/// the given index.
#[derive(Clone, Copy, Debug, PartialEq, Eq, Structural)]
pub enum LexState {
    Idle,
    InWord(usize),
    InNumber(usize),
    InQuote(usize),
}

pub open spec fn is_space(c: char) -> bool {
    c == ' ' || c == '\t' || c == '\n' || c == '\r'
}

pub open spec fn is_digit(c: char) -> bool {
    '0' <= c <= '9'
}

pub open spec fn state_rank(st: LexState) -> int {
    match st {
        LexState::Idle => 0,
        _ => 1,
    }
}

pub open spec fn tok(kind: TokenKind, start: int, end: int) -> Token {
    Token { kind, start: start as usize, end: end as usize }
}

/// The tokens of `s` from index `pos` on, in state `st`, after the tokens
/// `acc` already read.
pub open spec fn lex_from(s: Seq<char>, pos: int, st: LexState, acc: Seq<Token>) -> Seq<Token>
    decreases 2 * (s.len() - pos) + state_rank(st),
{
    if pos < 0 || pos >= s.len() {
        match st {
            LexState::Idle => acc,
            LexState::InWord(b) => acc.push(tok(TokenKind::Word, b as int, s.len() as int)),
            LexState::InNumber(b) => acc.push(tok(TokenKind::Number, b as int, s.len() as int)),
            LexState::InQuote(b) => acc.push(tok(TokenKind::Unterminated, b - 1, s.len() as int)),
        }
    } else {
        let c = s[pos];
        match st {
            LexState::InWord(b) => if file_identifier_part(c) {
                lex_from(s, pos + 1, st, acc)
            } else {
                lex_from(s, pos, LexState::Idle, acc.push(tok(TokenKind::Word, b as int, pos)))
            },
            LexState::InNumber(b) => if is_digit(c) {
                lex_from(s, pos + 1, st, acc)
            } else {
                lex_from(s, pos, LexState::Idle, acc.push(tok(TokenKind::Number, b as int, pos)))
            },
            LexState::InQuote(b) => if c == '\'' {
                lex_from(s, pos + 1, LexState::Idle, acc.push(tok(TokenKind::Str, b as int, pos)))
            } else {
                lex_from(s, pos + 1, st, acc)
            },
            LexState::Idle => {
                let next_is_eq = pos + 1 < s.len() && s[pos + 1] == '=';
                if is_space(c) {
                    lex_from(s, pos + 1, st, acc)
                } else if is_digit(c) {
                    lex_from(s, pos + 1, LexState::InNumber(pos as usize), acc)
                } else if c == '\'' {
                    lex_from(s, pos + 1, LexState::InQuote((pos + 1) as usize), acc)
                } else if c == '(' {
                    lex_from(s, pos + 1, st, acc.push(tok(TokenKind::LParen, pos, pos + 1)))
                } else if c == ')' {
                    lex_from(s, pos + 1, st, acc.push(tok(TokenKind::RParen, pos, pos + 1)))
                } else if c == ',' {
                    lex_from(s, pos + 1, st, acc.push(tok(TokenKind::Comma, pos, pos + 1)))
                } else if c == '*' {
                    lex_from(s, pos + 1, st, acc.push(tok(TokenKind::Star, pos, pos + 1)))
                } else if c == '=' {
                    lex_from(
                        s,
                        pos + 1,
                        st,
                        acc.push(tok(TokenKind::Op(ComparisonOperator::Eq), pos, pos + 1)),
                    )
                } else if c == '!' && next_is_eq {
                    lex_from(
                        s,
                        pos + 2,
                        st,
                        acc.push(tok(TokenKind::Op(ComparisonOperator::NotEq), pos, pos + 2)),
                    )
                } else if c == '<' && next_is_eq {
                    lex_from(
                        s,
                        pos + 2,
                        st,
                        acc.push(tok(TokenKind::Op(ComparisonOperator::LtEq), pos, pos + 2)),
                    )
                } else if c == '<' {
                    lex_from(
                        s,
                        pos + 1,
                        st,
                        acc.push(tok(TokenKind::Op(ComparisonOperator::Lt), pos, pos + 1)),
                    )
                } else if c == '>' && next_is_eq {
                    lex_from(
                        s,
                        pos + 2,
                        st,
                        acc.push(tok(TokenKind::Op(ComparisonOperator::GtEq), pos, pos + 2)),
                    )
                } else if c == '>' {
                    lex_from(
                        s,
                        pos + 1,
                        st,
                        acc.push(tok(TokenKind::Op(ComparisonOperator::Gt), pos, pos + 1)),
                    )
                } else if file_identifier_start(c) {
                    lex_from(s, pos + 1, LexState::InWord(pos as usize), acc)
                } else {
                    lex_from(s, pos + 1, st, acc.push(tok(TokenKind::Unknown, pos, pos + 1)))
                }
            },
        }
    }
}

/// The tokens of a statement.
pub open spec fn lex_spec(s: Seq<char>) -> Seq<Token> {
    lex_from(s, 0, LexState::Idle, Seq::empty())
}

/// Every token covers a span of `s`.
pub open spec fn tokens_wf(s: Seq<char>, t: Seq<Token>) -> bool {
    forall|i: int| 0 <= i < t.len() ==> (#[trigger] t[i]).start <= t[i].end && t[i].end <= s.len()
}

pub open spec fn state_wf(st: LexState, pos: int) -> bool {
    match st {
        LexState::Idle => true,
        LexState::InWord(b) => b <= pos,
        LexState::InNumber(b) => b <= pos,
        LexState::InQuote(b) => 1 <= b <= pos,
    }
}

/// Splits the characters `s` of a statement into tokens.
pub fn tokenize(s: &Vec<char>) -> (r: Vec<Token>)
    ensures
        r@ == lex_spec(s@),
        tokens_wf(s@, r@),
{
    let dialect = FileDialect::new();
    let mut toks: Vec<Token> = Vec::new();
    let mut pos: usize = 0;
    let mut st = LexState::Idle;
    let n = s.len();
    while pos < n
        invariant
            n == s.len(),
            pos <= n,
            state_wf(st, pos as int),
            lex_spec(s@) == lex_from(s@, pos as int, st, toks@),
            tokens_wf(s@, toks@),
        decreases 2 * (n - pos) + state_rank(st),
    {
        let c = s[pos];
        match st {
            LexState::InWord(b) => {
                if dialect.is_identifier_part(c) {
                    pos += 1;
                } else {
                    toks.push(Token { kind: TokenKind::Word, start: b, end: pos });
                    st = LexState::Idle;
                }
            },
            LexState::InNumber(b) => {
                if '0' <= c && c <= '9' {
                    pos += 1;
                } else {
                    toks.push(Token { kind: TokenKind::Number, start: b, end: pos });
                    st = LexState::Idle;
                }
            },
            LexState::InQuote(b) => {
                if c == '\'' {
                    toks.push(Token { kind: TokenKind::Str, start: b, end: pos });
                    st = LexState::Idle;
                }
                pos += 1;
            },
            LexState::Idle => {
                let next_is_eq = pos + 1 < n && s[pos + 1] == '=';
                if c == ' ' || c == '\t' || c == '\n' || c == '\r' {
                    pos += 1;
                } else if '0' <= c && c <= '9' {
                    st = LexState::InNumber(pos);
                    pos += 1;
                } else if c == '\'' {
                    st = LexState::InQuote(pos + 1);
                    pos += 1;
                } else if c == '(' {
                    toks.push(Token { kind: TokenKind::LParen, start: pos, end: pos + 1 });
                    pos += 1;
                } else if c == ')' {
                    toks.push(Token { kind: TokenKind::RParen, start: pos, end: pos + 1 });
                    pos += 1;
                } else if c == ',' {
                    toks.push(Token { kind: TokenKind::Comma, start: pos, end: pos + 1 });
                    pos += 1;
                } else if c == '*' {
                    toks.push(Token { kind: TokenKind::Star, start: pos, end: pos + 1 });
                    pos += 1;
                } else if c == '=' {
                    toks.push(
                        Token {
                            kind: TokenKind::Op(ComparisonOperator::Eq),
                            start: pos,
                            end: pos + 1,
                        },
                    );
                    pos += 1;
                } else if c == '!' && next_is_eq {
                    toks.push(
                        Token {
                            kind: TokenKind::Op(ComparisonOperator::NotEq),
                            start: pos,
                            end: pos + 2,
                        },
                    );
                    pos += 2;
                } else if c == '<' && next_is_eq {
                    toks.push(
                        Token {
                            kind: TokenKind::Op(ComparisonOperator::LtEq),
                            start: pos,
                            end: pos + 2,
                        },
                    );
                    pos += 2;
                } else if c == '<' {
                    toks.push(
                        Token {
                            kind: TokenKind::Op(ComparisonOperator::Lt),
                            start: pos,
                            end: pos + 1,
                        },
                    );
                    pos += 1;
                } else if c == '>' && next_is_eq {
                    toks.push(
                        Token {
                            kind: TokenKind::Op(ComparisonOperator::GtEq),
                            start: pos,
                            end: pos + 2,
                        },
                    );
                    pos += 2;
                } else if c == '>' {
                    toks.push(
                        Token {
                            kind: TokenKind::Op(ComparisonOperator::Gt),
                            start: pos,
                            end: pos + 1,
                        },
                    );
                    pos += 1;
                } else if dialect.is_identifier_start(c) {
                    st = LexState::InWord(pos);
                    pos += 1;
                } else {
                    toks.push(Token { kind: TokenKind::Unknown, start: pos, end: pos + 1 });
                    pos += 1;
                }
            },
        }
    }
    match st {
        LexState::Idle => {},
        LexState::InWord(b) => {
            toks.push(Token { kind: TokenKind::Word, start: b, end: n });
        },
        LexState::InNumber(b) => {
            toks.push(Token { kind: TokenKind::Number, start: b, end: n });
        },
        LexState::InQuote(b) => {
            toks.push(Token { kind: TokenKind::Unterminated, start: b - 1, end: n });
        },
    }
    toks
}

} // verus!
