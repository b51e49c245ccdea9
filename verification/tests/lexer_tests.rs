use partiql_bridge::lexer::{tokenize, Token};
use partiql_bridge::model::Verb;
use partiql_bridge::statement::{read_statement, Statement};

fn word(w: &str) -> Token {
    Token::Word(w.to_string())
}

fn quoted(w: &str) -> Token {
    Token::Quoted(w.to_string())
}

#[test]
fn cuts_an_insert_into_tokens() {
    let tokens = tokenize("INSERT INTO \"t\" (a,b) VALUES ($1, $22)").unwrap();
    assert_eq!(
        tokens,
        vec![
            word("INSERT"),
            word("INTO"),
            quoted("t"),
            Token::Open,
            word("a"),
            Token::Comma,
            word("b"),
            Token::Close,
            word("VALUES"),
            Token::Open,
            Token::Placeholder(1),
            Token::Comma,
            Token::Placeholder(22),
            Token::Close,
        ]
    );
}

#[test]
fn stops_at_a_comment() {
    assert_eq!(tokenize("a = $1 -- b ? !"), Some(vec![word("a"), Token::Equals, Token::Placeholder(1)]));
    assert_eq!(tokenize("--"), Some(vec![]));
    assert_eq!(tokenize(" \t\r\n"), Some(vec![]));
    assert_eq!(tokenize("\"t\".\"c\""), Some(vec![quoted("t"), Token::Dot, quoted("c")]));
}

#[test]
fn refuses_what_is_no_token() {
    assert_eq!(tokenize("a ? b"), None);
    assert_eq!(tokenize("a - b"), None);
    assert_eq!(tokenize("\"open"), None);
    assert_eq!(tokenize("\"\""), None);
    assert_eq!(tokenize("\"a b\""), None);
    assert_eq!(tokenize("$"), None);
    assert_eq!(tokenize("$x"), None);
    assert_eq!(tokenize("'a'"), None);
    assert_eq!(tokenize("caf\u{e9}"), None);
}

#[test]
fn placeholder_numbers_have_a_limit() {
    assert_eq!(tokenize("$007"), Some(vec![Token::Placeholder(7)]));
    let largest = format!("${}", usize::MAX);
    assert_eq!(tokenize(&largest), Some(vec![Token::Placeholder(usize::MAX)]));
    let too_large = format!("${}0", usize::MAX);
    assert_eq!(tokenize(&too_large), None);
}

#[test]
fn reads_the_three_forms() {
    let insert = tokenize("INSERT INTO t (a, b) VALUES ($1, $2)").unwrap();
    assert_eq!(
        read_statement(&insert),
        Some(Statement {
            verb: Verb::Insert,
            table: "t".to_string(),
            written: vec!["a".to_string(), "b".to_string()],
            selected: vec![],
        })
    );
    let update = tokenize("UPDATE t SET a = $1 WHERE k = $2 AND (t.r = $3)").unwrap();
    assert_eq!(
        read_statement(&update),
        Some(Statement {
            verb: Verb::Update,
            table: "t".to_string(),
            written: vec!["a".to_string()],
            selected: vec!["k".to_string(), "r".to_string()],
        })
    );
    let delete = tokenize("DELETE FROM t WHERE k = $1").unwrap();
    assert_eq!(
        read_statement(&delete),
        Some(Statement {
            verb: Verb::Delete,
            table: "t".to_string(),
            written: vec![],
            selected: vec!["k".to_string()],
        })
    );
    assert_eq!(read_statement(&tokenize("DELETE t WHERE k = $1").unwrap()), None);
    assert_eq!(read_statement(&vec![]), None);
}
