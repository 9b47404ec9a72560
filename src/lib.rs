//! A query engine for a small SQL dialect over filesystem entries:
//! `SELECT`, `WITH RECURSIVE SELECT` and `UPDATE` statements, parsed into an
//! abstract syntax tree, evaluated against snapshots of file metadata.
pub mod ast;
pub mod cli;
pub mod dialect;
pub mod error;
pub mod eval;
pub mod executor;
pub mod laws;
pub mod lexer;
pub mod listing;
pub mod parser;
pub mod words;
