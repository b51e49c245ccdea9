use partiql_bridge::error::BridgeError;
use partiql_bridge::model::{
    Assignment, AttributeValue, KeyAttribute, LogicalType, ParsedStatement, Provisioning,
    TableDefinition, TranslatedStatement, Verb,
};
use partiql_bridge::parser::parse;
use partiql_bridge::pipeline::{adapt_with_bindings, parse_and_adapt_query};
use partiql_bridge::registry::SchemaRegistry;
use partiql_bridge::render::render;
use partiql_bridge::schema::application_registry;
use partiql_bridge::translator::{check_name, translate};

fn pair(column: &str, placeholder: usize) -> Assignment {
    Assignment { column: column.to_string(), placeholder }
}

fn texts(items: &[&str]) -> Vec<String> {
    items.iter().map(|s| s.to_string()).collect()
}

fn string(s: &str) -> AttributeValue {
    AttributeValue::String(s.to_string())
}

fn events_registry() -> SchemaRegistry {
    let mut registry = SchemaRegistry::new();
    registry
        .register(TableDefinition {
            name: "events".to_string(),
            key_attributes: vec![
                KeyAttribute { name: "day".to_string(), logical_type: LogicalType::Identifier },
                KeyAttribute { name: "seq".to_string(), logical_type: LogicalType::Numeric },
                KeyAttribute { name: "digest".to_string(), logical_type: LogicalType::Binary },
            ],
            provisioning: Provisioning { read_capacity_units: 1, write_capacity_units: 1 },
        })
        .unwrap();
    registry
}

fn statement(
    verb: Verb,
    table: &str,
    assignments: Vec<Assignment>,
    conditions: Vec<Assignment>,
    literals: &[&str],
) -> ParsedStatement {
    ParsedStatement { verb, table: table.to_string(), assignments, conditions, literals: texts(literals) }
}

#[test]
fn end_to_end_insert() {
    let text =
        "INSERT INTO \"test_table\" (test_schema_key) VALUES ($1) -- binds: [\"item_value_4\"]";
    assert_eq!(
        parse_and_adapt_query(text, &application_registry()),
        Ok(TranslatedStatement {
            text: "INSERT INTO test_table VALUE {'test_schema_key': ?}".to_string(),
            parameters: vec![string("item_value_4")],
        })
    );
}

#[test]
fn end_to_end_empty_bindings() {
    let text = "INSERT INTO \"test_table\" (test_schema_key) VALUES ($1) -- binds: []";
    assert_eq!(
        parse_and_adapt_query(text, &application_registry()),
        Err(BridgeError::BindingArityMismatch { assignments: 1, conditions: 0, literals: 0 })
    );
}

#[test]
fn end_to_end_debug_text_of_the_query_builder() {
    let text = "INSERT INTO \"test_table\" (\"test_schema_key\") VALUES ($1) \
                -- binds: [\"test_item_value_partiql_diesel_rs_4\"]";
    assert_eq!(
        parse_and_adapt_query(text, &application_registry()),
        Ok(TranslatedStatement {
            text: "INSERT INTO test_table VALUE {'test_schema_key': ?}".to_string(),
            parameters: vec![string("test_item_value_partiql_diesel_rs_4")],
        })
    );
}

#[test]
fn insert_keeps_count_and_order() {
    let text = "INSERT INTO events (day, note, seq, digest) VALUES ($1, $2, $3, $4) \
                -- binds: [\"mon\", \"a, b\", 17, \"0aff\"]";
    let parsed = parse(text).unwrap();
    let translated = translate(&parsed, &events_registry()).unwrap();
    assert_eq!(
        translated.text,
        "INSERT INTO events VALUE {'day': ?, 'note': ?, 'seq': ?, 'digest': ?}"
    );
    assert_eq!(translated.text.matches('?').count(), 4);
    assert_eq!(
        translated.parameters,
        vec![
            string("mon"),
            string("a, b"),
            AttributeValue::Number("17".to_string()),
            AttributeValue::Binary(vec![0x0a, 0xff]),
        ]
    );
}

#[test]
fn translates_update() {
    let text = "UPDATE \"events\" SET \"note\" = $1, \"level\" = $2 \
                WHERE ((\"events\".\"day\" = $3) AND (\"events\".\"seq\" = $4)) \
                -- binds: [\"n\", \"high\", \"mon\", \"-2.5\"]";
    assert_eq!(
        parse_and_adapt_query(text, &events_registry()),
        Ok(TranslatedStatement {
            text: "UPDATE events SET note = ?, level = ? WHERE day = ? AND seq = ?".to_string(),
            parameters: vec![
                string("n"),
                string("high"),
                string("mon"),
                AttributeValue::Number("-2.5".to_string()),
            ],
        })
    );
}

#[test]
fn translates_delete() {
    let text = "DELETE FROM \"events\" WHERE (\"events\".\"day\" = $1) -- binds: [\"mon\"]";
    assert_eq!(
        parse_and_adapt_query(text, &events_registry()),
        Ok(TranslatedStatement {
            text: "DELETE FROM events WHERE day = ?".to_string(),
            parameters: vec![string("mon")],
        })
    );
}

#[test]
fn unregistered_table_is_unknown() {
    let text = "INSERT INTO \"orders\" (id) VALUES ($1) -- binds: [\"1\"]";
    assert_eq!(
        parse_and_adapt_query(text, &application_registry()),
        Err(BridgeError::UnknownTable { table: "orders".to_string() })
    );
    let broken = statement(Verb::Update, "orders", vec![], vec![pair("a b", 9)], &[]);
    assert_eq!(
        translate(&broken, &application_registry()),
        Err(BridgeError::UnknownTable { table: "orders".to_string() })
    );
    assert_eq!(
        translate(&broken, &SchemaRegistry::new()),
        Err(BridgeError::UnknownTable { table: "orders".to_string() })
    );
}

#[test]
fn value_that_is_no_number_is_refused() {
    let text = "INSERT INTO events (day, seq) VALUES ($1, $2) -- binds: [\"mon\", \"seven\"]";
    assert_eq!(
        parse_and_adapt_query(text, &events_registry()),
        Err(BridgeError::TypeConversionError {
            column: "seq".to_string(),
            literal: "seven".to_string(),
        })
    );
}

#[test]
fn value_that_is_no_hexadecimal_text_is_refused() {
    let parsed = statement(
        Verb::Update,
        "events",
        vec![pair("note", 1)],
        vec![pair("digest", 2), pair("seq", 3)],
        &["n", "xyz", "also wrong"],
    );
    assert_eq!(
        translate(&parsed, &events_registry()),
        Err(BridgeError::TypeConversionError {
            column: "digest".to_string(),
            literal: "xyz".to_string(),

        })
    );
}

#[test]
fn values_are_taken_by_placeholder_number() {
    let parsed = statement(
        Verb::Insert,
        "events",
        vec![pair("day", 2), pair("seq", 1)],
        vec![],
        &["5", "tue"],
    );
    assert_eq!(
        translate(&parsed, &events_registry()),
        Ok(TranslatedStatement {
            text: "INSERT INTO events VALUE {'day': ?, 'seq': ?}".to_string(),
            parameters: vec![string("tue"), AttributeValue::Number("5".to_string())],
        })
    );
}

#[test]
fn misaligned_values_are_refused() {
    let registry = events_registry();
    let fewer = statement(Verb::Insert, "events", vec![pair("day", 1), pair("seq", 2)], vec![], &["mon"]);
    assert_eq!(
        translate(&fewer, &registry),
        Err(BridgeError::BindingArityMismatch { assignments: 2, conditions: 0, literals: 1 })
    );
    let more = statement(Verb::Delete, "events", vec![], vec![pair("day", 1)], &["mon", "tue"]);
    assert_eq!(
        translate(&more, &registry),
        Err(BridgeError::BindingArityMismatch { assignments: 0, conditions: 1, literals: 2 })
    );
    let beyond = statement(Verb::Insert, "events", vec![pair("day", 2)], vec![], &["mon"]);
    assert_eq!(
        translate(&beyond, &registry),
        Err(BridgeError::BindingArityMismatch { assignments: 1, conditions: 0, literals: 1 })
    );
    let zero = statement(Verb::Insert, "events", vec![pair("day", 0)], vec![], &["mon"]);
    assert_eq!(
        translate(&zero, &registry),
        Err(BridgeError::BindingArityMismatch { assignments: 1, conditions: 0, literals: 1 })
    );
}

#[test]
fn statements_that_cannot_be_written_are_refused() {
    let registry = events_registry();
    let cases = [
        (statement(Verb::Insert, "events", vec![], vec![], &[]), "INSERT"),
        (statement(Verb::Insert, "events", vec![pair("day", 1)], vec![pair("seq", 2)], &["a", "1"]), "INSERT"),
        (statement(Verb::Insert, "events", vec![pair("it's", 1)], vec![], &["a"]), "INSERT"),
        (statement(Verb::Insert, "events", vec![pair("", 1)], vec![], &["a"]), "INSERT"),
        (statement(Verb::Update, "events", vec![pair("note", 1)], vec![], &["a"]), "UPDATE"),
        (statement(Verb::Update, "events", vec![], vec![pair("day", 1)], &["a"]), "UPDATE"),
        (statement(Verb::Update, "events", vec![pair("note", 1)], vec![pair("day = ? OR x", 2)], &["a", "b"]), "UPDATE"),
        (statement(Verb::Delete, "events", vec![], vec![], &[]), "DELETE"),
        (statement(Verb::Delete, "events", vec![pair("note", 1)], vec![pair("day", 2)], &["a", "b"]), "DELETE"),
    ];
    for (parsed, keyword) in cases {
        assert_eq!(
            translate(&parsed, &registry),
            Err(BridgeError::UnrecognizedVerb { fragment: keyword.to_string() })
        );
    }
    let mut odd = SchemaRegistry::new();
    odd.register(TableDefinition {
        name: "my table".to_string(),
        key_attributes: vec![],
        provisioning: Provisioning { read_capacity_units: 1, write_capacity_units: 1 },
    })
    .unwrap();
    assert_eq!(
        translate(&statement(Verb::Insert, "my table", vec![pair("a", 1)], vec![], &["x"]), &odd),
        Err(BridgeError::UnrecognizedVerb { fragment: "INSERT".to_string() })
    );
}

#[test]
fn names_are_letters_digits_and_underscores() {
    assert!(check_name("test_table"));
    assert!(check_name("T1"));
    assert!(check_name("_"));
    assert!(!check_name(""));
    assert!(!check_name("a b"));
    assert!(!check_name("a?"));
    assert!(!check_name("a'b"));
    assert!(!check_name("caf\u{e9}"));
}

#[test]
fn renders_each_verb() {
    let insert = statement(Verb::Insert, "t", vec![pair("a", 1)], vec![], &["x"]);
    assert_eq!(render(&insert), "INSERT INTO t VALUE {'a': ?}");
    let update = statement(Verb::Update, "t", vec![pair("a", 1), pair("b", 2)], vec![pair("k", 3)], &["x", "y", "z"]);
    assert_eq!(render(&update), "UPDATE t SET a = ?, b = ? WHERE k = ?");
    let delete = statement(Verb::Delete, "t", vec![], vec![pair("k", 1), pair("r", 2)], &["x", "y"]);
    assert_eq!(render(&delete), "DELETE FROM t WHERE k = ? AND r = ?");
}

#[test]
fn given_bindings_are_translated() {
    let text = "INSERT INTO test_table (test_schema_key, extra) VALUES ($1, $2)";
    assert_eq!(
        adapt_with_bindings(text, Some("\"k\", 12"), &application_registry()),
        Ok(TranslatedStatement {
            text: "INSERT INTO test_table VALUE {'test_schema_key': ?, 'extra': ?}".to_string(),
            parameters: vec![string("k"), string("12")],
        })
    );
    assert_eq!(
        adapt_with_bindings(text, None, &application_registry()),
        Err(BridgeError::MissingBindings { fragment: text.to_string() })
    );
}
