//! Making sure that a table exists in the target store before it is used.
//!
//! The store is reached from outside this library. What is decided here is
//! which request to send for a table and what an answer means: a table that
//! is there already is as good as one that was just created.

use crate::error::{BridgeError, BridgeErrorView};
use crate::model::{LogicalType, Provisioning, TableDefinition, TableDefinitionView};
use crate::registry::SchemaRegistry;
use vstd::prelude::*;

verus! {

/// The part that an attribute plays in a table's key.
#[derive(Clone, Copy, Debug, PartialEq, Eq, Structural)]
pub enum KeyRole {
    Hash,
    Range,
}

/// The scalar types that the target store knows for key attributes.
#[derive(Clone, Copy, Debug, PartialEq, Eq, Structural)]
pub enum ScalarType {
    String,
    Number,
    Binary,
}

/// One attribute of the key schema of a table that is to be created.
#[derive(Clone, Debug, PartialEq, Eq)]
pub struct KeySchemaElement {
    pub attribute_name: String,
    pub role: KeyRole,
}

/// Mathematical view of a [`KeySchemaElement`].
pub struct KeySchemaElementView {
    pub attribute_name: Seq<char>,
    pub role: KeyRole,
}

impl View for KeySchemaElement {
    type V = KeySchemaElementView;

    open spec fn view(&self) -> KeySchemaElementView {
        KeySchemaElementView { attribute_name: self.attribute_name@, role: self.role }
    }
}

/// The declared type of one key attribute of a table that is to be created.
#[derive(Clone, Debug, PartialEq, Eq)]
pub struct AttributeDefinition {
    pub attribute_name: String,
    pub scalar_type: ScalarType,
}

/// Mathematical view of an [`AttributeDefinition`].
pub struct AttributeDefinitionView {
    pub attribute_name: Seq<char>,
    pub scalar_type: ScalarType,
}

impl View for AttributeDefinition {
    type V = AttributeDefinitionView;

    open spec fn view(&self) -> AttributeDefinitionView {
        AttributeDefinitionView {
            attribute_name: self.attribute_name@,
            scalar_type: self.scalar_type,
        }
    }
}

/// What the target store is asked when a table is to be created.
#[derive(Clone, Debug, PartialEq, Eq)]
pub struct CreateTableRequest {
    pub table_name: String,
    pub key_schema: Vec<KeySchemaElement>,
    pub attribute_definitions: Vec<AttributeDefinition>,
    pub provisioning: Provisioning,
}

/// Mathematical view of a [`CreateTableRequest`].
pub struct CreateTableRequestView {
    pub table_name: Seq<char>,
    pub key_schema: Seq<KeySchemaElementView>,
    pub attribute_definitions: Seq<AttributeDefinitionView>,
    pub provisioning: Provisioning,
}

impl View for CreateTableRequest {
    type V = CreateTableRequestView;

    open spec fn view(&self) -> CreateTableRequestView {
        CreateTableRequestView {
            table_name: self.table_name@,
            key_schema: Seq::new(self.key_schema@.len(), |i: int| self.key_schema@[i]@),
            attribute_definitions: Seq::new(
                self.attribute_definitions@.len(),
                |i: int| self.attribute_definitions@[i]@,
            ),
            provisioning: self.provisioning,
        }
    }
}

/// How the target store answered a request to create a table.
#[derive(Clone, Debug, PartialEq, Eq)]
pub enum CreateTableOutcome {
    /// The table was created.
    Created,
    /// A table of that name exists already.
    AlreadyExists,
    /// The store refused for any other reason.
    Failed { message: String },
}

/// Mathematical view of a [`CreateTableOutcome`].
pub enum CreateTableOutcomeView {
    Created,
    AlreadyExists,
    Failed { message: Seq<char> },
}

impl View for CreateTableOutcome {
    type V = CreateTableOutcomeView;

    open spec fn view(&self) -> CreateTableOutcomeView {
        match self {
            CreateTableOutcome::Created => CreateTableOutcomeView::Created,
            CreateTableOutcome::AlreadyExists => CreateTableOutcomeView::AlreadyExists,
            CreateTableOutcome::Failed { message } => CreateTableOutcomeView::Failed {
                message: message@,
            },
        }
    }
}

/// In which way a table came to be available.
#[derive(Clone, Copy, Debug, PartialEq, Eq, Structural)]
pub enum TableStatus {
    /// This request created it.
    Created,
    /// It was there before.
    AlreadyPresent,
}

/// The store's scalar type for a logical type: identifiers and text are
/// strings, numbers are numbers, bytes are binary.
pub open spec fn scalar_type_of(logical_type: LogicalType) -> ScalarType {
    match logical_type {
        LogicalType::Identifier => ScalarType::String,
        LogicalType::String => ScalarType::String,
        LogicalType::Numeric => ScalarType::Number,
        LogicalType::Binary => ScalarType::Binary,
    }
}

/// The part of the key that the attribute at `position` plays: the first is
/// the hash key, those after it are range keys.
pub open spec fn key_role_at(position: int) -> KeyRole {
    if position == 0 {
        KeyRole::Hash
    } else {
        KeyRole::Range
    }
}

/// The request that creates the table `definition`: every key attribute
/// appears once in the key schema and once among the attribute definitions,
/// both in the order of the definition.
pub open spec fn creation_request_of(definition: TableDefinitionView) -> CreateTableRequestView {
    CreateTableRequestView {
        table_name: definition.name,
        key_schema: Seq::new(
            definition.key_attributes.len(),
            |i: int|
                KeySchemaElementView {
                    attribute_name: definition.key_attributes[i].name,
                    role: key_role_at(i),
                },
        ),
        attribute_definitions: Seq::new(
            definition.key_attributes.len(),
            |i: int|
                AttributeDefinitionView {
                    attribute_name: definition.key_attributes[i].name,
                    scalar_type: scalar_type_of(definition.key_attributes[i].logical_type),
                },
        ),
        provisioning: definition.provisioning,
    }
}

/// What an answer of the store means for the caller: a table that exists
/// already is a success, any other refusal is an error that carries the
/// store's message.
pub open spec fn settled(outcome: CreateTableOutcomeView) -> Result<TableStatus, BridgeErrorView> {
    match outcome {
        CreateTableOutcomeView::Created => Ok(TableStatus::Created),
        CreateTableOutcomeView::AlreadyExists => Ok(TableStatus::AlreadyPresent),
        CreateTableOutcomeView::Failed { message } => Err(
            BridgeErrorView::ExecutionError { message },
        ),
    }
}

/// Executable form of [`scalar_type_of`].
pub fn scalar_type(logical_type: LogicalType) -> (scalar: ScalarType)
    ensures
        scalar == scalar_type_of(logical_type),
{
    match logical_type {
        LogicalType::Identifier => ScalarType::String,
        LogicalType::String => ScalarType::String,
        LogicalType::Numeric => ScalarType::Number,
        LogicalType::Binary => ScalarType::Binary,
    }
}

/// Builds the request that creates the table `definition`.
pub fn creation_request(definition: &TableDefinition) -> (request: CreateTableRequest)
    ensures
        request@ == creation_request_of(definition@),
{
    let mut key_schema: Vec<KeySchemaElement> = Vec::new();
    let mut attribute_definitions: Vec<AttributeDefinition> = Vec::new();
    let mut i: usize = 0;
    while i < definition.key_attributes.len()
        invariant
            i <= definition.key_attributes.len(),
            key_schema.len() == i,
            attribute_definitions.len() == i,
            forall|k: int|
                0 <= k < i ==> key_schema[k]@ == (KeySchemaElementView {
                    attribute_name: definition.key_attributes[k].name@,
                    role: key_role_at(k),
                }),
            forall|k: int|
                0 <= k < i ==> attribute_definitions[k]@ == (AttributeDefinitionView {
                    attribute_name: definition.key_attributes[k].name@,
                    scalar_type: scalar_type_of(definition.key_attributes[k].logical_type),
                }),
        decreases definition.key_attributes.len() - i,
    {
        let attribute = &definition.key_attributes[i];
        let role = if i == 0 {
            KeyRole::Hash
        } else {
            KeyRole::Range
        };
        key_schema.push(KeySchemaElement { attribute_name: attribute.name.clone(), role });
        attribute_definitions.push(
            AttributeDefinition {
                attribute_name: attribute.name.clone(),
                scalar_type: scalar_type(attribute.logical_type),
            },
        );
        i += 1;
    }
    let request = CreateTableRequest {
        table_name: definition.name.clone(),
        key_schema,
        attribute_definitions,
        provisioning: definition.provisioning,
    };
    assert(request@.key_schema =~= creation_request_of(definition@).key_schema);
    assert(request@.attribute_definitions =~= creation_request_of(
        definition@,
    ).attribute_definitions);
    request
}

/// The first half of making sure that the table named `table_name` exists:
/// the request to send to the target store. Fails for a table that the
/// registry does not know.
pub fn plan_table(registry: &SchemaRegistry, table_name: &str) -> (result: Result<
    CreateTableRequest,
    BridgeError,
>)
    ensures
        match result {
            Ok(request) => registry@.contains_key(table_name@) && request@
                == creation_request_of(registry@[table_name@]),
            Err(e) => !registry@.contains_key(table_name@) && e@
                == (BridgeErrorView::UnknownTable { table: table_name@ }),
        },
{
    match registry.lookup(table_name) {
        Ok(definition) => Ok(creation_request(definition)),
        Err(e) => Err(e),
    }
}

/// The second half: what the store's answer means. Only a refusal other
/// than "exists already" is an error.
pub fn settle(outcome: CreateTableOutcome) -> (result: Result<TableStatus, BridgeError>)
    ensures
        match result {
            Ok(status) => settled(outcome@) == Ok::<TableStatus, BridgeErrorView>(status),
            Err(e) => settled(outcome@) == Err::<TableStatus, BridgeErrorView>(e@),
        },
{
    match outcome {
        CreateTableOutcome::Created => Ok(TableStatus::Created),
        CreateTableOutcome::AlreadyExists => Ok(TableStatus::AlreadyPresent),
        CreateTableOutcome::Failed { message } => Err(BridgeError::ExecutionError { message }),
    }
}

/// How a store that never refuses for want of room answers a request to
/// create the table `name` when it holds the tables `existing`.
pub open spec fn store_answer(existing: Set<Seq<char>>, name: Seq<char>) -> CreateTableOutcomeView {
    if existing.contains(name) {
        CreateTableOutcomeView::AlreadyExists
    } else {
        CreateTableOutcomeView::Created
    }
}

/// The tables that such a store holds after that request.
pub open spec fn store_after(existing: Set<Seq<char>>, name: Seq<char>) -> Set<Seq<char>> {
    existing.insert(name)
}

/// Making sure of a table is idempotent: against a store that creates what
/// it lacks and reports what it has, the first request for a table succeeds
/// and leaves the table in place, and every later request for it succeeds
/// too, as already present.
pub proof fn lemma_ensure_table_is_idempotent(existing: Set<Seq<char>>, name: Seq<char>)
    ensures
        settled(store_answer(existing, name)) is Ok,
        store_after(existing, name).contains(name),
        settled(store_answer(store_after(existing, name), name)) == Ok::<
            TableStatus,
            BridgeErrorView,
        >(TableStatus::AlreadyPresent),
        store_after(store_after(existing, name), name) == store_after(existing, name),
{
}

} // verus!
