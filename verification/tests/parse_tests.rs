use partiql_bridge::bindings::{find_bindings, split_bindings};
use partiql_bridge::error::BridgeError;
use partiql_bridge::model::{Assignment, ParsedStatement, Verb};
use partiql_bridge::parser::{parse, parse_with_bindings};

const INSERT_TEXT: &str =
    "INSERT INTO \"test_table\" (test_schema_key) VALUES ($1) -- binds: [\"item_value_4\"]";

fn pair(column: &str, placeholder: usize) -> Assignment {
    Assignment { column: column.to_string(), placeholder }
}

fn texts(items: &[&str]) -> Vec<String> {
    items.iter().map(|s| s.to_string()).collect()
}

#[test]
fn parses_single_column_insert() {
    let parsed = parse(INSERT_TEXT).unwrap();
    assert_eq!(
        parsed,
        ParsedStatement {
            verb: Verb::Insert,
            table: "test_table".to_string(),
            assignments: vec![pair("test_schema_key", 1)],
            conditions: vec![],
            literals: texts(&["item_value_4"]),
        }
    );
}

#[test]
fn parses_insert_as_the_query_builder_writes_it() {
    let text = "INSERT INTO \"sccache_clusters\" (\"id\", \"client_id\", \"region\") \
                VALUES ($1, $2, $3) -- binds: [\"7f1c\", \"client, one\", \"eu-west-1\"]";
    let parsed = parse(text).unwrap();
    assert_eq!(parsed.verb, Verb::Insert);
    assert_eq!(parsed.table, "sccache_clusters");
    assert_eq!(
        parsed.assignments,
        vec![pair("id", 1), pair("client_id", 2), pair("region", 3)]
    );
    assert!(parsed.conditions.is_empty());
    assert_eq!(parsed.literals, texts(&["7f1c", "client, one", "eu-west-1"]));
}

#[test]
fn parses_update_with_qualified_condition() {
    let text = "UPDATE \"sccache_clusters\" SET \"region\" = $1, \"token\" = $2 \
                WHERE (\"sccache_clusters\".\"id\" = $3) -- binds: [\"us\", \"t\", \"42\"]";
    let parsed = parse(text).unwrap();
    assert_eq!(parsed.verb, Verb::Update);
    assert_eq!(parsed.table, "sccache_clusters");
    assert_eq!(parsed.assignments, vec![pair("region", 1), pair("token", 2)]);
    assert_eq!(parsed.conditions, vec![pair("id", 3)]);
    assert_eq!(parsed.literals, texts(&["us", "t", "42"]));
}

#[test]
fn parses_delete_with_two_conditions() {
    let text = "DELETE FROM \"events\" WHERE ((\"events\".\"day\" = $1) AND (\"events\".\"seq\" = $2)) \
                -- binds: [\"monday\", 7]";
    let parsed = parse(text).unwrap();
    assert_eq!(parsed.verb, Verb::Delete);
    assert_eq!(parsed.table, "events");
    assert!(parsed.assignments.is_empty());
    assert_eq!(parsed.conditions, vec![pair("day", 1), pair("seq", 2)]);
    assert_eq!(parsed.literals, texts(&["monday", "7"]));
}

#[test]
fn empty_binding_list_is_an_arity_mismatch() {
    let text = "INSERT INTO \"test_table\" (test_schema_key) VALUES ($1) -- binds: []";
    assert_eq!(
        parse(text),
        Err(BridgeError::BindingArityMismatch { assignments: 1, conditions: 0, literals: 0 })
    );
}

#[test]
fn two_assignments_and_one_binding_is_an_arity_mismatch() {
    let text = "INSERT INTO t (a, b) VALUES ($1, $2) -- binds: [\"only\"]";
    assert_eq!(
        parse(text),
        Err(BridgeError::BindingArityMismatch { assignments: 2, conditions: 0, literals: 1 })
    );
}

#[test]
fn one_assignment_and_two_bindings_is_an_arity_mismatch() {
    let text = "INSERT INTO t (a) VALUES ($1) -- binds: [\"x\", \"y\"]";
    assert_eq!(
        parse(text),
        Err(BridgeError::BindingArityMismatch { assignments: 1, conditions: 0, literals: 2 })
    );
}

#[test]
fn update_counts_conditions_in_the_arity() {
    let text = "UPDATE t SET a = $1 WHERE k = $2 -- binds: [\"x\"]";
    assert_eq!(
        parse(text),
        Err(BridgeError::BindingArityMismatch { assignments: 1, conditions: 1, literals: 1 })
    );
}

#[test]
fn missing_annotation_is_reported() {
    let text = "INSERT INTO \"test_table\" (test_schema_key) VALUES ($1)";
    assert_eq!(parse(text), Err(BridgeError::MissingBindings { fragment: text.to_string() }));
    assert_eq!(
        parse_with_bindings(text, None),
        Err(BridgeError::MissingBindings { fragment: text.to_string() })
    );
}

#[test]
fn malformed_annotation_is_reported() {
    let unclosed = "INSERT INTO t (a) VALUES ($1) -- binds: [\"x";
    assert_eq!(
        parse(unclosed),
        Err(BridgeError::MissingBindings { fragment: unclosed.to_string() })
    );
    let open_quote = "INSERT INTO t (a) VALUES ($1) -- binds: [\"x]";
    assert_eq!(
        parse(open_quote),
        Err(BridgeError::MissingBindings { fragment: open_quote.to_string() })
    );
    let empty_item = "INSERT INTO t (a, b) VALUES ($1, $2) -- binds: [\"x\", ]";
    assert_eq!(
        parse(empty_item),
        Err(BridgeError::MissingBindings { fragment: empty_item.to_string() })
    );
}

#[test]
fn bracket_inside_quotes_ends_the_list_and_is_refused() {
    let text = "INSERT INTO t (a) VALUES ($1) -- binds: [\"a]b\"]";
    assert_eq!(find_bindings(text), Some("\"a".to_string()));
    assert_eq!(parse(text), Err(BridgeError::MissingBindings { fragment: text.to_string() }));
}

#[test]
fn other_statements_are_not_recognized() {
    for text in [
        "SELECT \"a\" FROM \"t\" -- binds: []",
        "",
        "insert into t (a) values ($1) -- binds: [1]",
        "INSERT t (a) VALUES ($1) -- binds: [1]",
        "INSERT INTO t (a VALUES ($1) -- binds: [1]",
        "INSERT INTO t (a, b) VALUES ($1) -- binds: [1]",
        "INSERT INTO t (a) VALUES ($2) -- binds: [1]",
        "INSERT INTO t (a) VALUES ($1) RETURNING a -- binds: [1]",
        "INSERT INTO t (a) VALUES (?) -- binds: [1]",
        "INSERT INTO \"t t\" (a) VALUES ($1) -- binds: [1]",
        "UPDATE t SET a = $1 -- binds: [1]",
        "UPDATE t SET a = $1 WHERE k = $1 -- binds: [1]",
        "UPDATE t SET a = $1 WHERE k = $2 OR j = $3 -- binds: [1, 2, 3]",
        "DELETE FROM t -- binds: []",
        "DELETE FROM t WHERE k = $1 AND -- binds: [1]",
    ] {
        assert_eq!(
            parse(text),
            Err(BridgeError::UnrecognizedVerb { fragment: text.to_string() }),
            "{text}"
        );
    }
}

#[test]
fn the_statement_is_read_before_the_bindings() {
    let text = "SELECT 1";
    assert_eq!(parse(text), Err(BridgeError::UnrecognizedVerb { fragment: text.to_string() }));
}

#[test]
fn finds_the_list_behind_the_marker() {
    assert_eq!(find_bindings(INSERT_TEXT), Some("\"item_value_4\"".to_string()));
    assert_eq!(find_bindings("x -- binds: []"), Some(String::new()));
    assert_eq!(find_bindings("-- binds: [1, 2] -- binds: [3]"), Some("1, 2".to_string()));
    assert_eq!(find_bindings("no marker here"), None);
    assert_eq!(find_bindings("-- binds: [never closed"), None);
}

#[test]
fn comma_inside_quotes_does_not_split() {
    assert_eq!(split_bindings("\"a,b\""), Some(texts(&["a,b"])));
    assert_eq!(split_bindings("\"a,b\", \"c\""), Some(texts(&["a,b", "c"])));
    assert_eq!(split_bindings("\"x\",\"y,z,\",\"w\""), Some(texts(&["x", "y,z,", "w"])));
}

#[test]
fn splits_and_trims_literals() {
    assert_eq!(split_bindings(""), Some(vec![]));
    assert_eq!(split_bindings("  \t "), Some(vec![]));
    assert_eq!(split_bindings("1"), Some(texts(&["1"])));
    assert_eq!(split_bindings("  1 ,\t\"two\" , -3.5  "), Some(texts(&["1", "two", "-3.5"])));
    assert_eq!(split_bindings("\"\""), Some(texts(&[""])));
    assert_eq!(split_bindings("\" padded \""), Some(texts(&[" padded "])));
}

#[test]
fn escaped_quote_stays_inside_its_literal() {
    assert_eq!(split_bindings("\"a\\\"b,c\", \"d\""), Some(texts(&["a\\\"b,c", "d"])));
    assert_eq!(split_bindings("\"a\\\\\", \"d\""), Some(texts(&["a\\\\", "d"])));
}

#[test]
fn items_that_are_not_one_quoted_text_stay_as_they_are() {
    assert_eq!(split_bindings("Some(\"a,b\"), None"), Some(texts(&["Some(\"a,b\")", "None"])));
    assert_eq!(split_bindings("\"a\" \"b\""), Some(texts(&["\"a\" \"b\""])));
}

#[test]
fn malformed_lists_are_refused() {
    assert_eq!(split_bindings(","), None);
    assert_eq!(split_bindings("1,"), None);
    assert_eq!(split_bindings(",1"), None);
    assert_eq!(split_bindings("1, ,2"), None);
    assert_eq!(split_bindings("\"open"), None);
    assert_eq!(split_bindings("\"open\\"), None);
    assert_eq!(split_bindings("\"a\", \"b"), None);
}

#[test]
fn given_bindings_take_the_place_of_the_annotation() {
    let text = "INSERT INTO t (a, b) VALUES ($1, $2)";
    let parsed = parse_with_bindings(text, Some("1, \"x,y\"")).unwrap();
    assert_eq!(parsed.assignments, vec![pair("a", 1), pair("b", 2)]);
    assert_eq!(parsed.literals, texts(&["1", "x,y"]));
}

#[test]
fn literals_may_hold_any_characters() {
    assert_eq!(
        split_bindings("\"h\u{e9}, w\u{f6}\", \u{4e16}\u{754c} , \"\u{1f600}\""),
        Some(texts(&["h\u{e9}, w\u{f6}", "\u{4e16}\u{754c}", "\u{1f600}"]))
    );
    let text = "INSERT INTO t (a, b) VALUES ($1, $2) -- binds: [\"gr\u{fc}n, blau\", \"\u{1f600}\"]";
    let parsed = parse(text).unwrap();
    assert_eq!(parsed.literals, texts(&["gr\u{fc}n, blau", "\u{1f600}"]));
}

#[test]
fn text_behind_the_list_is_ignored() {
    let text = "INSERT INTO t (a) VALUES ($1) -- binds: [\"x\"] trailing";
    assert_eq!(parse(text).unwrap().literals, texts(&["x"]));
}

#[test]
fn list_on_a_later_line_is_found() {
    let text = "INSERT INTO t (a) VALUES ($1)\n-- binds: [\"x\"]";
    assert_eq!(parse(text).unwrap().literals, texts(&["x"]));
    let broken = "INSERT INTO t (a) VALUES ($1) -- binds: [\"x\n\"]";
    assert_eq!(parse(broken), Err(BridgeError::MissingBindings { fragment: broken.to_string() }));
}

#[test]
fn a_written_list_comes_back() {
    let values = ["a, b", "", " c ", "[d]", "e,", ",", "$1 -- x"];
    let list = values.iter().map(|v| format!("\"{v}\"")).collect::<Vec<_>>().join(", ");
    assert_eq!(split_bindings(&list), Some(texts(&values)));
}
