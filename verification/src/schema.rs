//! The tables of the application, as the schema registry holds them.

use crate::model::{
    KeyAttribute, KeyAttributeView, LogicalType, Provisioning, TableDefinition,
    TableDefinitionView,
};
use crate::registry::SchemaRegistry;
use vstd::prelude::*;

verus! {

/// The throughput asked for every table: the smallest there is.
pub open spec fn minimal_provisioning() -> Provisioning {
    Provisioning { read_capacity_units: 1, write_capacity_units: 1 }
}

/// A table named `name` whose key is the one attribute `key` of type
/// `logical_type`, with the smallest throughput.
pub open spec fn single_key_table(
    name: Seq<char>,
    key: Seq<char>,
    logical_type: LogicalType,
) -> TableDefinitionView {
    TableDefinitionView {
        name,
        key_attributes: seq![KeyAttributeView { name: key, logical_type }],
        provisioning: minimal_provisioning(),
    }
}

/// The clusters: keyed by the identifier `id`.
pub open spec fn sccache_clusters_table() -> TableDefinitionView {
    single_key_table("sccache_clusters"@, "id"@, LogicalType::Identifier)
}

/// The instances of the clusters: keyed by the identifier `id`.
pub open spec fn sccache_instances_table() -> TableDefinitionView {
    single_key_table("sccache_instances"@, "id"@, LogicalType::Identifier)
}

/// The test table: keyed by the text `test_schema_key`.
pub open spec fn test_table_table() -> TableDefinitionView {
    single_key_table("test_table"@, "test_schema_key"@, LogicalType::String)
}

/// Builds a table with one key attribute and the smallest throughput.
fn single_key(name: &str, key: &str, logical_type: LogicalType) -> (definition: TableDefinition)
    ensures
        definition@ == single_key_table(name@, key@, logical_type),
{
    let mut key_attributes: Vec<KeyAttribute> = Vec::new();
    key_attributes.push(KeyAttribute { name: key.to_owned(), logical_type });
    let definition = TableDefinition {
        name: name.to_owned(),
        key_attributes,
        provisioning: Provisioning { read_capacity_units: 1, write_capacity_units: 1 },
    };
    assert(definition@.key_attributes =~= single_key_table(
        name@,
        key@,
        logical_type,
    ).key_attributes);
    definition
}

/// The definition of the table `sccache_clusters`.
pub fn sccache_clusters() -> (definition: TableDefinition)
    ensures
        definition@ == sccache_clusters_table(),
{
    single_key("sccache_clusters", "id", LogicalType::Identifier)
}

/// The definition of the table `sccache_instances`.
pub fn sccache_instances() -> (definition: TableDefinition)
    ensures
        definition@ == sccache_instances_table(),
{
    single_key("sccache_instances", "id", LogicalType::Identifier)
}

/// The definition of the table `test_table`.
pub fn test_table() -> (definition: TableDefinition)
    ensures
        definition@ == test_table_table(),
{
    single_key("test_table", "test_schema_key", LogicalType::String)
}

/// The tables of the application, by name.
pub open spec fn application_tables() -> Map<Seq<char>, TableDefinitionView> {
    Map::<Seq<char>, TableDefinitionView>::empty().insert(
        "sccache_clusters"@,
        sccache_clusters_table(),
    ).insert("sccache_instances"@, sccache_instances_table()).insert(
        "test_table"@,
        test_table_table(),
    )
}

/// A registry that holds the three tables of the application.
pub fn application_registry() -> (registry: SchemaRegistry)
    ensures
        registry@ == application_tables(),
{
    proof {
        reveal_strlit("sccache_clusters");
        reveal_strlit("sccache_instances");
        reveal_strlit("test_table");
        // The three names differ in length, so no registration is refused.
        assert("sccache_clusters"@.len() == 16);
        assert("sccache_instances"@.len() == 17);
        assert("test_table"@.len() == 10);
    }
    let mut registry = SchemaRegistry::new();
    registry.register(sccache_clusters()).unwrap();
    registry.register(sccache_instances()).unwrap();
    registry.register(test_table()).unwrap();
    registry
}

} // verus!
