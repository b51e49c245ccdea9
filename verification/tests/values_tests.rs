use partiql_bridge::model::{
    AttributeValue, KeyAttribute, LogicalType, Provisioning, TableDefinition,
};
use partiql_bridge::values::{check_number, column_type, convert, decode_hex};

#[test]
fn recognizes_decimal_numbers() {
    for text in ["0", "42", "-7", "3.14", "-0.5", "0012"] {
        assert!(check_number(text), "{text}");
    }
    for text in ["", "-", ".", "1.", ".5", "1.2.3", "1e5", "+1", " 1", "1 ", "--1", "abc", "1a"] {
        assert!(!check_number(text), "{text}");
    }
}

#[test]
fn decodes_hexadecimal_digits() {
    assert_eq!(decode_hex(""), Some(vec![]));
    assert_eq!(decode_hex("00ff10"), Some(vec![0x00, 0xff, 0x10]));
    assert_eq!(decode_hex("DeadBEEF"), Some(vec![0xde, 0xad, 0xbe, 0xef]));
    assert_eq!(decode_hex("9a"), Some(vec![154]));
    assert_eq!(decode_hex("abc"), None);
    assert_eq!(decode_hex("zz"), None);
    assert_eq!(decode_hex("0g"), None);
}

#[test]
fn converts_by_logical_type() {
    let text = "12ab".to_string();
    assert_eq!(convert(LogicalType::String, &text), Some(AttributeValue::String(text.clone())));
    assert_eq!(convert(LogicalType::Identifier, &text), Some(AttributeValue::String(text.clone())));
    assert_eq!(convert(LogicalType::Numeric, &text), None);
    assert_eq!(convert(LogicalType::Binary, &text), Some(AttributeValue::Binary(vec![0x12, 0xab])));
    let number = "-12.5".to_string();
    assert_eq!(convert(LogicalType::Numeric, &number), Some(AttributeValue::Number(number.clone())));
    assert_eq!(convert(LogicalType::Binary, &number), None);
}

#[test]
fn columns_outside_the_key_are_strings() {
    let definition = TableDefinition {
        name: "events".to_string(),
        key_attributes: vec![
            KeyAttribute { name: "day".to_string(), logical_type: LogicalType::Identifier },
            KeyAttribute { name: "seq".to_string(), logical_type: LogicalType::Numeric },
            KeyAttribute { name: "seq".to_string(), logical_type: LogicalType::Binary },
        ],
        provisioning: Provisioning { read_capacity_units: 1, write_capacity_units: 1 },
    };
    assert_eq!(column_type(&definition, &"day".to_string()), LogicalType::Identifier);
    assert_eq!(column_type(&definition, &"seq".to_string()), LogicalType::Numeric);
    assert_eq!(column_type(&definition, &"note".to_string()), LogicalType::String);
}
