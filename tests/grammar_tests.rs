use fmql::ast::{ComparisonOperator, FileAttribute, FileCondition, FileQuery, FileValue};
use fmql::dialect::FileDialect;
use fmql::lexer::{tokenize, TokenKind};
use fmql::parser::{parse_sql_with_home, resolve_path, ParserError};

fn parse(sql: &str) -> Result<FileQuery, ParserError> {
    parse_sql_with_home(sql, Some("/home/alice"))
}

#[test]
fn home_is_joined_with_the_rest_of_the_path() {
    match parse("SELECT * FROM ~/Documents").unwrap() {
        FileQuery::Select { path, .. } => assert_eq!(path, "/home/alice/Documents"),
        _ => panic!("expected SELECT"),
    }
    assert_eq!(resolve_path("~", Some("/home/alice")).unwrap(), "/home/alice");
    assert_eq!(resolve_path("~/x", Some("/")).unwrap(), "/x");
    assert_eq!(resolve_path("/var/log", None).unwrap(), "/var/log");
}

#[test]
fn unknown_home_is_an_invalid_path() {
    let r = parse_sql_with_home("SELECT * FROM ~/Documents", None);
    assert!(matches!(r, Err(ParserError::InvalidPath(_))));
    let r = parse_sql_with_home("SELECT * FROM /tmp", None);
    assert!(r.is_ok());
}

#[test]
fn windows_and_relative_paths_are_single_words() {
    match parse("select * from C:/Users/Documents where extension = 'pdf'").unwrap() {
        FileQuery::Select { path, .. } => assert_eq!(path, "C:/Users/Documents"),
        _ => panic!("expected SELECT"),
    }
    match parse("SELECT * FROM ./select").unwrap() {
        FileQuery::Select { path, condition, .. } => {
            assert_eq!(path, "./select");
            assert!(condition.is_none());
        }
        _ => panic!("expected SELECT"),
    }
}

#[test]
fn projection_lists_attributes() {
    match parse("SELECT name, size FROM .").unwrap() {
        FileQuery::Select { attributes, .. } => {
            assert_eq!(attributes, vec![FileAttribute::Name, FileAttribute::Size]);
        }
        _ => panic!("expected SELECT"),
    }
}

#[test]
fn or_binds_looser_than_and_and_not() {
    let q = parse("SELECT * FROM . WHERE NOT size < 10 OR name = 'a' AND is_directory = TRUE").unwrap();
    match q {
        FileQuery::Select { condition: Some(FileCondition::Or(l, r)), .. } => {
            assert!(matches!(*l, FileCondition::Not(_)));
            match *r {
                FileCondition::And(a, b) => {
                    assert!(matches!(*a, FileCondition::Compare { attribute: FileAttribute::Name, .. }));
                    assert!(matches!(
                        *b,
                        FileCondition::Compare {
                            attribute: FileAttribute::IsDirectory,
                            operator: ComparisonOperator::Eq,
                            value: FileValue::Boolean(true)
                        }
                    ));
                }
                _ => panic!("expected AND"),
            }
        }
        _ => panic!("expected OR"),
    }
}

#[test]
fn parentheses_group_conditions() {
    let q = parse("SELECT * FROM . WHERE (extension = 'jpg' OR extension = 'png') AND size >= 1000000").unwrap();
    match q {
        FileQuery::Select { condition: Some(FileCondition::And(l, r)), .. } => {
            assert!(matches!(*l, FileCondition::Or(_, _)));
            assert!(matches!(
                *r,
                FileCondition::Compare {
                    attribute: FileAttribute::Size,
                    operator: ComparisonOperator::GtEq,
                    value: FileValue::Number(1000000)
                }
            ));
        }
        _ => panic!("expected AND"),
    }
}

#[test]
fn every_comparison_operator_parses() {
    let cases = [
        ("=", ComparisonOperator::Eq),
        ("!=", ComparisonOperator::NotEq),
        ("<", ComparisonOperator::Lt),
        ("<=", ComparisonOperator::LtEq),
        (">", ComparisonOperator::Gt),
        (">=", ComparisonOperator::GtEq),
    ];
    for (text, op) in cases {
        let sql = format!("SELECT * FROM . WHERE size {} 5", text);
        match parse(&sql).unwrap() {
            FileQuery::Select { condition: Some(FileCondition::Compare { operator, .. }), .. } => {
                assert_eq!(operator, op);
                assert_eq!(operator.symbol(), text);
            }
            _ => panic!("expected a comparison"),
        }
    }
}

#[test]
fn null_and_false_literals() {
    match parse("SELECT * FROM . WHERE owner = NULL OR is_executable = false").unwrap() {
        FileQuery::Select { condition: Some(FileCondition::Or(l, r)), .. } => {
            assert!(matches!(*l, FileCondition::Compare { value: FileValue::Null, .. }));
            assert!(matches!(*r, FileCondition::Compare { value: FileValue::Boolean(false), .. }));
        }
        _ => panic!("expected OR"),
    }
}

#[test]
fn each_parse_error_kind() {
    assert!(matches!(parse("DELETE FROM x"), Err(ParserError::UnsupportedStatement(_))));
    assert!(matches!(parse("SELECT * x"), Err(ParserError::MissingClause(_))));
    assert!(matches!(parse("SELECT * FROM"), Err(ParserError::MissingClause(_))));
    assert!(matches!(parse("UPDATE x permissions = '7'"), Err(ParserError::MissingClause(_))));
    assert!(matches!(parse("SELECT * FROM . WHERE colour = 'red'"), Err(ParserError::InvalidAttribute(_))));
    assert!(matches!(parse("SELECT * FROM . WHERE size ~ 3"), Err(ParserError::InvalidOperator(_))));
    assert!(matches!(parse("SELECT * FROM . WHERE size > 'x"), Err(ParserError::InvalidValue(_))));
    assert!(matches!(
        parse("SELECT * FROM . WHERE size > 99999999999999999999"),
        Err(ParserError::InvalidValue(_))
    ));
    assert!(matches!(parse("SELECT * FROM . WHERE (size > 3"), Err(ParserError::MissingClause(_))));
    assert!(matches!(parse("SELECT * FROM . ORDER BY name"), Err(ParserError::UnsupportedFeature(_))));
    assert!(matches!(parse("SELECT * FROM . WHERE size > 3;"), Err(ParserError::UnsupportedFeature(_))));
    assert!(matches!(parse("WITH x AS y SELECT * FROM ."), Err(ParserError::UnsupportedStatement(_))));
}

#[test]
fn largest_number_literal_fits() {
    match parse("SELECT * FROM . WHERE size <= 18446744073709551615").unwrap() {
        FileQuery::Select { condition: Some(FileCondition::Compare { value, .. }), .. } => {
            assert!(matches!(value, FileValue::Number(n) if n == u64::MAX));
        }
        _ => panic!("expected a comparison"),
    }
    assert!(matches!(
        parse("SELECT * FROM . WHERE size <= 18446744073709551616"),
        Err(ParserError::InvalidValue(_))
    ));
}

#[test]
fn update_takes_numbers_as_written() {
    match parse("UPDATE /srv SET permissions = 0644").unwrap() {
        FileQuery::Update { path, updates, condition } => {
            assert_eq!(path, "/srv");
            assert_eq!(updates[0].value, "0644");
            assert!(condition.is_none());
        }
        _ => panic!("expected UPDATE"),
    }
}

#[test]
fn tokens_cover_paths_and_strings() {
    let chars: Vec<char> = "SELECT * FROM ~/a.b WHERE name != 'x y'".chars().collect();
    let toks = tokenize(&chars);
    let kinds: Vec<TokenKind> = toks.iter().map(|t| t.kind).collect();
    assert_eq!(
        kinds,
        vec![
            TokenKind::Word,
            TokenKind::Star,
            TokenKind::Word,
            TokenKind::Word,
            TokenKind::Word,
            TokenKind::Word,
            TokenKind::Op(ComparisonOperator::NotEq),
            TokenKind::Str,
        ]
    );
    let path: String = chars[toks[3].start..toks[3].end].iter().collect();
    assert_eq!(path, "~/a.b");
    let text: String = chars[toks[7].start..toks[7].end].iter().collect();
    assert_eq!(text, "x y");
}

#[test]
fn dialect_character_classes() {
    let d = FileDialect::new();
    for c in ['~', '/', '.', '_', '-', 'a', 'Z', '#', '@', 'é'] {
        assert!(d.is_identifier_start(c), "{}", c);
    }
    for c in ['1', ':', '\\', '*', ' ', '\''] {
        assert!(!d.is_identifier_start(c), "{}", c);
    }
    for c in ['1', ':', '\\', '~', '$', 'q'] {
        assert!(d.is_identifier_part(c), "{}", c);
    }
    assert!(!d.is_identifier_part(' '));
    assert!(d.is_delimited_identifier_start('"'));
    assert!(!d.is_delimited_identifier_start('['));
}
