//! Provisioning of the destination table: it is created, with a fixed key
//! layout, only when a listing of the store's tables does not show it.

use vstd::prelude::*;

verus! {

/// Name of the key attribute of the destination table.
pub const RECORD_KEY: &'static str = "id";

/// Read and write capacity units that the table is created with.
pub const PROVISIONED_UNITS: i64 = 5;

/// Type of the key attribute.
#[derive(PartialEq, Eq, Structural, Clone, Copy, Debug)]
pub enum AttributeKind {
    Text,
}

/// Role of the key attribute in the table's key.
#[derive(PartialEq, Eq, Structural, Clone, Copy, Debug)]
pub enum KeyRole {
    Partition,
}

/// Key layout and throughput of the destination table.
pub struct SchemaDescriptor {
    pub key_attribute: String,
    pub key_kind: AttributeKind,
    pub key_role: KeyRole,
    pub read_capacity: i64,
    pub write_capacity: i64,
}

/// A table layout as a value: key name, key type, key role, read and write units.
pub struct SchemaView {
    pub key: Seq<char>,
    pub kind: AttributeKind,
    pub role: KeyRole,
    pub read_capacity: i64,
    pub write_capacity: i64,
}

/// The one layout this bridge creates: a text partition key `id`, 5/5 units.
pub open spec fn standard_layout() -> SchemaView {
    SchemaView {
        key: RECORD_KEY@,
        kind: AttributeKind::Text,
        role: KeyRole::Partition,
        read_capacity: PROVISIONED_UNITS,
        write_capacity: PROVISIONED_UNITS,
    }
}

impl SchemaDescriptor {
    pub open spec fn view(&self) -> SchemaView {
        SchemaView {
            key: self.key_attribute@,
            kind: self.key_kind,
            role: self.key_role,
            read_capacity: self.read_capacity,
            write_capacity: self.write_capacity,
        }
    }

    /// The layout the destination table is created with.
    pub fn standard() -> (r: SchemaDescriptor)
        ensures
            r.view() == standard_layout(),
    {
        SchemaDescriptor {
            key_attribute: RECORD_KEY.to_string(),
            key_kind: AttributeKind::Text,
            key_role: KeyRole::Partition,
            read_capacity: PROVISIONED_UNITS,
            write_capacity: PROVISIONED_UNITS,
        }
    }
}

/// What to do about the destination table after listing the store's tables.
pub enum Provision {
    /// The table is listed: nothing to do.
    AlreadyPresent,
    /// The table is absent: create it with this layout.
    Create(SchemaDescriptor),
}

impl Provision {
    /// The layout to create, if any.
    pub open spec fn view(&self) -> Option<SchemaView> {
        match self {
            Provision::AlreadyPresent => None,
            Provision::Create(s) => Some(s.view()),
        }
    }
}

/// `table` is among the listed names.
pub open spec fn listed(names: Seq<String>, table: Seq<char>) -> bool {
    exists|i: int| 0 <= i < names.len() && (#[trigger] names[i])@ == table
}

/// The decision for a listing: create the standard layout exactly when the
/// table is not listed.
pub open spec fn provision_plan(names: Seq<String>, table: Seq<char>) -> Option<SchemaView> {
    if listed(names, table) {
        None
    } else {
        Some(standard_layout())
    }
}

/// The store's tables, by name, after a decision on `table` was carried out.
pub open spec fn after_plan(
    tables: Map<Seq<char>, SchemaView>,
    table: Seq<char>,
    plan: Option<SchemaView>,
) -> Map<Seq<char>, SchemaView> {
    match plan {
        Some(layout) => tables.insert(table, layout),
        None => tables,
    }
}

/// The listing shows exactly the store's tables.
pub open spec fn lists_exactly(names: Seq<String>, tables: Map<Seq<char>, SchemaView>) -> bool {
    forall|t: Seq<char>| listed(names, t) <==> #[trigger] tables.contains_key(t)
}

/// Whether `table` is among the listed table names.
pub fn table_listed(names: &Vec<String>, table: &String) -> (r: bool)
    ensures
        r == listed(names@, table@),
{
    let mut i: usize = 0;
    while i < names.len()
        invariant
            i <= names@.len(),
            forall|j: int| 0 <= j < i ==> (#[trigger] names@[j])@ != table@,
        decreases names@.len() - i,
    {
        if names[i] == *table {
            return true;
        }
        i = i + 1;
    }
    false
}

/// Decides, from a listing of the store's tables, whether the destination
/// table has to be created.
pub fn plan_provision(names: &Vec<String>, table: &String) -> (r: Provision)
    ensures
        r.view() == provision_plan(names@, table@),
{
    if table_listed(names, table) {
        Provision::AlreadyPresent
    } else {
        Provision::Create(SchemaDescriptor::standard())
    }
}

/// Provisioning is idempotent: carried out once, it leaves the table present,
/// created with the standard layout if it was absent and untouched otherwise,
/// and adds no other table; carried out again against the resulting store, it
/// changes nothing.
pub proof fn provisioning_is_idempotent(
    tables: Map<Seq<char>, SchemaView>,
    table: Seq<char>,
    first_listing: Seq<String>,
    second_listing: Seq<String>,
)
    requires
        lists_exactly(first_listing, tables),
        lists_exactly(second_listing, after_plan(tables, table, provision_plan(first_listing, table))),
    ensures
        ({
            let once = after_plan(tables, table, provision_plan(first_listing, table));
            &&& once.contains_key(table)
            &&& once.dom() == tables.dom().insert(table)
            &&& tables.contains_key(table) ==> once == tables
            &&& !tables.contains_key(table) ==> once[table] == standard_layout()
            &&& after_plan(once, table, provision_plan(second_listing, table)) == once
        }),
{
    let once = after_plan(tables, table, provision_plan(first_listing, table));
    assert(listed(first_listing, table) <==> tables.contains_key(table));
    assert(listed(second_listing, table) <==> once.contains_key(table));
    if tables.contains_key(table) {
        assert(tables.dom().insert(table) =~= tables.dom());
    } else {
        assert(once.dom() =~= tables.dom().insert(table));
    }
}

} // verus!
