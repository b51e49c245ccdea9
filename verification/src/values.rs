//! Turning a literal of the debug text into a typed value of the target
//! store, as the column's declared type asks.

use crate::lexer::{digits_end, scan_digits};
use crate::model::{
    AttributeValue, AttributeValueView, KeyAttributeView, LogicalType, TableDefinition,
    TableDefinitionView,
};
use crate::text::chars_of;
use vstd::prelude::*;

verus! {

/// The declared type of the first key attribute named `column` among
/// `keys` from position `from` on.
pub open spec fn key_type_from(keys: Seq<KeyAttributeView>, column: Seq<char>, from: int) -> Option<
    LogicalType,
>
    decreases keys.len() - from,
{
    if from < 0 || from >= keys.len() {
        None
    } else if keys[from].name == column {
        Some(keys[from].logical_type)
    } else {
        key_type_from(keys, column, from + 1)
    }
}

/// The type of `column` in a table: the declared type where the column is
/// a key attribute, and an opaque string for every other column.
pub open spec fn declared_type(definition: TableDefinitionView, column: Seq<char>) -> LogicalType {
    match key_type_from(definition.key_attributes, column, 0) {
        Some(logical_type) => logical_type,
        None => LogicalType::String,
    }
}

/// Whether `s` writes a decimal number: an optional minus sign, one or more
/// digits, and optionally a point followed by one or more digits.
pub open spec fn is_number(s: Seq<char>) -> bool {
    let start: int = if s.len() > 0 && s[0] == '-' {
        1
    } else {
        0
    };
    let whole = digits_end(s, start);
    &&& start < whole
    &&& (whole == s.len() || (s[whole] == '.' && whole + 1 < digits_end(s, whole + 1)
        && digits_end(s, whole + 1) == s.len()))
}

/// The number from 0 to 15 that the hexadecimal digit `c` stands for.
pub open spec fn hex_value(c: char) -> Option<int> {
    if '0' <= c <= '9' {
        Some(c as int - '0' as int)
    } else if 'a' <= c <= 'f' {
        Some(c as int - 'a' as int + 10)
    } else if 'A' <= c <= 'F' {
        Some(c as int - 'A' as int + 10)
    } else {
        None
    }
}

/// Whether `s` writes bytes: an even number of hexadecimal digits.
pub open spec fn is_hex(s: Seq<char>) -> bool {
    s.len() % 2 == 0 && forall|i: int| 0 <= i < s.len() ==> hex_value(#[trigger] s[i]) is Some
}

/// The bytes that the hexadecimal digits `s` write, two digits to a byte,
/// the high half first.
pub open spec fn hex_bytes(s: Seq<char>) -> Seq<u8> {
    Seq::new(
        s.len() / 2,
        |i: int| (hex_value(s[2 * i])->0 * 16 + hex_value(s[2 * i + 1])->0) as u8,
    )
}

/// The value that `literal` gives for a column of type `logical_type`.
/// Identifiers and text pass through as strings. A number must be written
/// as one and bytes must be written in hexadecimal digits: `None` where
/// they are not.
pub open spec fn typed_value(logical_type: LogicalType, literal: Seq<char>) -> Option<
    AttributeValueView,
> {
    match logical_type {
        LogicalType::Identifier => Some(AttributeValueView::String(literal)),
        LogicalType::String => Some(AttributeValueView::String(literal)),
        LogicalType::Numeric => if is_number(literal) {
            Some(AttributeValueView::Number(literal))
        } else {
            None
        },
        LogicalType::Binary => if is_hex(literal) {
            Some(AttributeValueView::Binary(hex_bytes(literal)))
        } else {
            None
        },
    }
}

/// Looks up the type of `column` in `definition`.
pub fn column_type(definition: &TableDefinition, column: &String) -> (logical_type: LogicalType)
    ensures
        logical_type == declared_type(definition@, column@),
{
    let ghost keys = definition@.key_attributes;
    let mut i: usize = 0;
    while i < definition.key_attributes.len()
        invariant
            i <= definition.key_attributes.len(),
            keys == definition@.key_attributes,
            key_type_from(keys, column@, 0) == key_type_from(keys, column@, i as int),
        decreases definition.key_attributes.len() - i,
    {
        if definition.key_attributes[i].name == *column {
            return definition.key_attributes[i].logical_type;
        }
        i += 1;
    }
    LogicalType::String
}

/// Executable form of [`is_number`].
pub fn check_number(literal: &str) -> (r: bool)
    ensures
        r == is_number(literal@),
{
    let chars = chars_of(literal);
    let start: usize = if chars.len() > 0 && chars[0] == '-' {
        1
    } else {
        0
    };
    let whole = scan_digits(&chars, start);
    if whole <= start {
        return false;
    }
    if whole == chars.len() {
        return true;
    }
    if chars[whole] != '.' {
        return false;
    }
    let end = scan_digits(&chars, whole + 1);
    whole + 1 < end && end == chars.len()
}

/// The number that the hexadecimal digit `c` stands for.
fn hex_digit(c: char) -> (value: Option<u8>)
    ensures
        match value {
            Some(v) => hex_value(c) == Some(v as int) && v < 16,
            None => hex_value(c) is None,
        },
{
    if '0' <= c && c <= '9' {
        Some((c as u32 - '0' as u32) as u8)
    } else if 'a' <= c && c <= 'f' {
        Some((c as u32 - 'a' as u32 + 10) as u8)
    } else if 'A' <= c && c <= 'F' {
        Some((c as u32 - 'A' as u32 + 10) as u8)
    } else {
        None
    }
}

/// The bytes that `literal` writes in hexadecimal digits.
pub fn decode_hex(literal: &str) -> (bytes: Option<Vec<u8>>)
    ensures
        match bytes {
            Some(bytes) => is_hex(literal@) && bytes@ == hex_bytes(literal@),
            None => !is_hex(literal@),
        },
{
    let chars = chars_of(literal);
    if chars.len() % 2 != 0 {
        return None;
    }
    let mut bytes: Vec<u8> = Vec::new();
    let mut i: usize = 0;
    while i < chars.len()
        invariant
            i <= chars.len(),
            i % 2 == 0,
            chars.len() % 2 == 0,
            chars@ == literal@,
            bytes.len() == i / 2,
            forall|k: int| 0 <= k < i ==> hex_value(#[trigger] chars@[k]) is Some,
            forall|k: int|
                0 <= k < i / 2 ==> #[trigger] bytes[k] == (hex_value(chars@[2 * k])->0 * 16
                    + hex_value(chars@[2 * k + 1])->0) as u8,
        decreases chars.len() - i,
    {
        let high = match hex_digit(chars[i]) {
            Some(v) => v,
            None => {
                return None;
            },
        };
        let low = match hex_digit(chars[i + 1]) {
            Some(v) => v,
            None => {
                return None;
            },
        };
        bytes.push(high * 16 + low);
        i += 2;
    }
    Some(bytes)
}

/// Turns `literal` into the value that a column of type `logical_type`
/// takes.
pub fn convert(logical_type: LogicalType, literal: &String) -> (value: Option<AttributeValue>)
    ensures
        match value {
            Some(value) => typed_value(logical_type, literal@) == Some(value@),
            None => typed_value(logical_type, literal@) is None,
        },
{
    match logical_type {
        LogicalType::Identifier => Some(AttributeValue::String(literal.clone())),
        LogicalType::String => Some(AttributeValue::String(literal.clone())),
        LogicalType::Numeric => if check_number(literal.as_str()) {
            Some(AttributeValue::Number(literal.clone()))
        } else {
            None
        },
        LogicalType::Binary => match decode_hex(literal.as_str()) {
            Some(bytes) => Some(AttributeValue::Binary(bytes)),
            None => None,
        },
    }
}

} // verus!
