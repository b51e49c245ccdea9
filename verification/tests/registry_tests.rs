use partiql_bridge::error::BridgeError;
use partiql_bridge::model::{KeyAttribute, LogicalType, Provisioning, TableDefinition};
use partiql_bridge::provisioning::{
    creation_request, plan_table, scalar_type, settle, AttributeDefinition, CreateTableOutcome,
    CreateTableRequest, KeyRole, KeySchemaElement, ScalarType, TableStatus,
};
use partiql_bridge::registry::SchemaRegistry;
use partiql_bridge::schema::{application_registry, sccache_clusters, sccache_instances, test_table};

fn events() -> TableDefinition {
    TableDefinition {
        name: "events".to_string(),
        key_attributes: vec![
            KeyAttribute { name: "day".to_string(), logical_type: LogicalType::Identifier },
            KeyAttribute { name: "seq".to_string(), logical_type: LogicalType::Numeric },
        ],
        provisioning: Provisioning { read_capacity_units: 5, write_capacity_units: 2 },
    }
}

#[test]
fn registers_and_looks_up() {
    let mut registry = SchemaRegistry::new();
    assert_eq!(registry.len(), 0);
    assert_eq!(registry.register(events()), Ok(()));
    assert_eq!(registry.len(), 1);
    assert_eq!(registry.lookup("events"), Ok(&events()));
}

#[test]
fn second_registration_of_a_name_is_refused() {
    let mut registry = SchemaRegistry::new();
    registry.register(events()).unwrap();
    let mut other = events();
    other.key_attributes.pop();
    assert_eq!(
        registry.register(other),
        Err(BridgeError::DuplicateTable { table: "events".to_string() })
    );
    assert_eq!(registry.len(), 1);
    assert_eq!(registry.lookup("events"), Ok(&events()));
}

#[test]
fn unknown_table_is_reported() {
    let registry = SchemaRegistry::new();
    assert_eq!(
        registry.lookup("events"),
        Err(BridgeError::UnknownTable { table: "events".to_string() })
    );
    let registry = application_registry();
    assert_eq!(
        registry.lookup("Test_Table"),
        Err(BridgeError::UnknownTable { table: "Test_Table".to_string() })
    );
}

#[test]
fn application_registry_holds_three_tables() {
    let registry = application_registry();
    assert_eq!(registry.len(), 3);
    assert_eq!(registry.lookup("sccache_clusters"), Ok(&sccache_clusters()));
    assert_eq!(registry.lookup("sccache_instances"), Ok(&sccache_instances()));
    assert_eq!(registry.lookup("test_table"), Ok(&test_table()));
    assert_eq!(
        test_table(),
        TableDefinition {
            name: "test_table".to_string(),
            key_attributes: vec![KeyAttribute {
                name: "test_schema_key".to_string(),
                logical_type: LogicalType::String,
            }],
            provisioning: Provisioning { read_capacity_units: 1, write_capacity_units: 1 },
        }
    );
    assert_eq!(sccache_clusters().key_attributes[0].logical_type, LogicalType::Identifier);
    assert_eq!(sccache_instances().key_attributes[0].name, "id");
}

#[test]
fn request_follows_the_definition() {
    assert_eq!(
        creation_request(&events()),
        CreateTableRequest {
            table_name: "events".to_string(),
            key_schema: vec![
                KeySchemaElement { attribute_name: "day".to_string(), role: KeyRole::Hash },
                KeySchemaElement { attribute_name: "seq".to_string(), role: KeyRole::Range },
            ],
            attribute_definitions: vec![
                AttributeDefinition {
                    attribute_name: "day".to_string(),
                    scalar_type: ScalarType::String,
                },
                AttributeDefinition {
                    attribute_name: "seq".to_string(),
                    scalar_type: ScalarType::Number,
                },
            ],
            provisioning: Provisioning { read_capacity_units: 5, write_capacity_units: 2 },
        }
    );
}

#[test]
fn request_for_the_test_table() {
    let registry = application_registry();
    let request = plan_table(&registry, "test_table").unwrap();
    assert_eq!(request.table_name, "test_table");
    assert_eq!(
        request.key_schema,
        vec![KeySchemaElement { attribute_name: "test_schema_key".to_string(), role: KeyRole::Hash }]
    );
    assert_eq!(
        request.attribute_definitions,
        vec![AttributeDefinition {
            attribute_name: "test_schema_key".to_string(),
            scalar_type: ScalarType::String,
        }]
    );
    assert_eq!(request.provisioning, Provisioning { read_capacity_units: 1, write_capacity_units: 1 });
}

#[test]
fn no_request_for_an_unknown_table() {
    let registry = application_registry();
    assert_eq!(
        plan_table(&registry, "nowhere"),
        Err(BridgeError::UnknownTable { table: "nowhere".to_string() })
    );
}

#[test]
fn scalar_types_of_logical_types() {
    assert_eq!(scalar_type(LogicalType::Identifier), ScalarType::String);
    assert_eq!(scalar_type(LogicalType::String), ScalarType::String);
    assert_eq!(scalar_type(LogicalType::Numeric), ScalarType::Number);
    assert_eq!(scalar_type(LogicalType::Binary), ScalarType::Binary);
}

#[test]
fn making_sure_twice_succeeds_twice() {
    assert_eq!(settle(CreateTableOutcome::Created), Ok(TableStatus::Created));
    assert_eq!(settle(CreateTableOutcome::AlreadyExists), Ok(TableStatus::AlreadyPresent));
}

#[test]
fn other_refusals_are_passed_on() {
    assert_eq!(
        settle(CreateTableOutcome::Failed { message: "limit exceeded".to_string() }),
        Err(BridgeError::ExecutionError { message: "limit exceeded".to_string() })
    );
}
