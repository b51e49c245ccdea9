//! The values that flow through a translation: table definitions, the parsed
//! statement and the statement handed to the target store, each with the
//! mathematical view that the contracts speak of.

use vstd::prelude::*;

verus! {

/// The statement kinds that can be carried over to the target store.
#[derive(Clone, Copy, Debug, PartialEq, Eq, Structural)]
pub enum Verb {
    Insert,
    Update,
    Delete,
}

/// What kind of value an attribute holds, as the schema declares it.
#[derive(Clone, Copy, Debug, PartialEq, Eq, Structural)]
pub enum LogicalType {
    /// A unique identifier such as a UUID; stored as a string.
    Identifier,
    /// Free text.
    String,
    /// A decimal number.
    Numeric,
    /// Raw bytes, written in the debug text as hexadecimal digits.
    Binary,
}

/// One attribute of a table's key, with its declared type.
#[derive(Clone, Debug, PartialEq, Eq)]
pub struct KeyAttribute {
    pub name: String,
    pub logical_type: LogicalType,
}

/// Mathematical view of a [`KeyAttribute`].
pub struct KeyAttributeView {
    pub name: Seq<char>,
    pub logical_type: LogicalType,
}

impl View for KeyAttribute {
    type V = KeyAttributeView;

    open spec fn view(&self) -> KeyAttributeView {
        KeyAttributeView { name: self.name@, logical_type: self.logical_type }
    }
}

/// Throughput that the target store is asked to reserve for a table.
#[derive(Clone, Copy, Debug, PartialEq, Eq, Structural)]
pub struct Provisioning {
    pub read_capacity_units: u32,
    pub write_capacity_units: u32,
}

/// A table as the schema registry knows it. The first key attribute is the
/// hash key; one that follows it is a range key.
#[derive(Clone, Debug, PartialEq, Eq)]
pub struct TableDefinition {
    pub name: String,
    pub key_attributes: Vec<KeyAttribute>,
    pub provisioning: Provisioning,
}

/// Mathematical view of a [`TableDefinition`].
pub struct TableDefinitionView {
    pub name: Seq<char>,
    pub key_attributes: Seq<KeyAttributeView>,
    pub provisioning: Provisioning,
}

/// The views of a run of key attributes, in order.
pub open spec fn key_attribute_views(attributes: Seq<KeyAttribute>) -> Seq<KeyAttributeView> {
    Seq::new(attributes.len(), |i: int| attributes[i]@)
}

impl View for TableDefinition {
    type V = TableDefinitionView;

    open spec fn view(&self) -> TableDefinitionView {
        TableDefinitionView {
            name: self.name@,
            key_attributes: key_attribute_views(self.key_attributes@),
            provisioning: self.provisioning,
        }
    }
}

/// A column of a statement, bound to the placeholder that carries its
/// value. Placeholders count from one.
#[derive(Clone, Debug, PartialEq, Eq)]
pub struct Assignment {
    pub column: String,
    pub placeholder: usize,
}

/// Mathematical view of an [`Assignment`].
pub struct AssignmentView {
    pub column: Seq<char>,
    pub placeholder: nat,
}

impl View for Assignment {
    type V = AssignmentView;

    open spec fn view(&self) -> AssignmentView {
        AssignmentView { column: self.column@, placeholder: self.placeholder as nat }
    }
}

/// The views of a run of assignments, in order.
pub open spec fn assignment_views(assignments: Seq<Assignment>) -> Seq<AssignmentView> {
    Seq::new(assignments.len(), |i: int| assignments[i]@)
}

/// The texts of a run of strings, in order.
pub open spec fn string_views(strings: Seq<String>) -> Seq<Seq<char>> {
    Seq::new(strings.len(), |i: int| strings[i]@)
}

/// A statement recovered from the query builder's debug text.
#[derive(Clone, Debug, PartialEq, Eq)]
pub struct ParsedStatement {
    pub verb: Verb,
    pub table: String,
    /// The columns that the statement writes, in source order, each with
    /// its placeholder. A delete writes none.
    pub assignments: Vec<Assignment>,
    /// The columns by which an update or a delete selects its row, in
    /// source order, each with its placeholder. An insert has none.
    pub conditions: Vec<Assignment>,
    /// The bound values in placeholder order, quotes removed.
    pub literals: Vec<String>,
}

/// Mathematical view of a [`ParsedStatement`].
pub struct ParsedStatementView {
    pub verb: Verb,
    pub table: Seq<char>,
    pub assignments: Seq<AssignmentView>,
    pub conditions: Seq<AssignmentView>,
    pub literals: Seq<Seq<char>>,
}

impl View for ParsedStatement {
    type V = ParsedStatementView;

    open spec fn view(&self) -> ParsedStatementView {
        ParsedStatementView {
            verb: self.verb,
            table: self.table@,
            assignments: assignment_views(self.assignments@),
            conditions: assignment_views(self.conditions@),
            literals: string_views(self.literals@),
        }
    }
}

/// A typed value as the target store understands it.
#[derive(Clone, Debug, PartialEq, Eq)]
pub enum AttributeValue {
    /// A string.
    String(String),
    /// A number, kept in its decimal notation.
    Number(String),
    /// Raw bytes.
    Binary(Vec<u8>),
}

/// Mathematical view of an [`AttributeValue`].
pub enum AttributeValueView {
    String(Seq<char>),
    Number(Seq<char>),
    Binary(Seq<u8>),
}

impl View for AttributeValue {
    type V = AttributeValueView;

    open spec fn view(&self) -> AttributeValueView {
        match self {
            AttributeValue::String(s) => AttributeValueView::String(s@),
            AttributeValue::Number(s) => AttributeValueView::Number(s@),
            AttributeValue::Binary(b) => AttributeValueView::Binary(b@),
        }
    }
}

/// The views of a run of attribute values, in order.
pub open spec fn attribute_value_views(values: Seq<AttributeValue>) -> Seq<AttributeValueView> {
    Seq::new(values.len(), |i: int| values[i]@)
}

/// A statement in the target dialect, ready to be executed.
#[derive(Clone, Debug, PartialEq, Eq)]
pub struct TranslatedStatement {
    /// The statement, with `?` wherever a value goes.
    pub text: String,
    /// One value for each `?`, in the order in which they stand in `text`.
    pub parameters: Vec<AttributeValue>,
}

/// Mathematical view of a [`TranslatedStatement`].
pub struct TranslatedStatementView {
    pub text: Seq<char>,
    pub parameters: Seq<AttributeValueView>,
}

impl View for TranslatedStatement {
    type V = TranslatedStatementView;

    open spec fn view(&self) -> TranslatedStatementView {
        TranslatedStatementView {
            text: self.text@,
            parameters: attribute_value_views(self.parameters@),
        }
    }
}

} // verus!
