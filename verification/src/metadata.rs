//! What planning reads of a table: its identifier, its schemas, its partition
//! spec, its snapshots and its properties.

use std::collections::HashMap;
use std::sync::Arc;

use datafusion::arrow::datatypes::Schema as ArrowSchema;
use iceberg::arrow::schema_to_arrow_schema;
use iceberg::spec::Schema;
use vstd::prelude::*;

use crate::arrow::{schema_fields, schema_metadata, FieldView};
use crate::error::{iceberg_error_text, TableError};
use crate::text::{append_signed_decimal, same_text, signed_decimal};

verus! {

/// Iceberg's `Schema`: the fields of a table, each under its field id.
#[verifier::external_type_specification]
#[verifier::external_body]
pub struct ExTableSchema(Schema);

/// The name of each column of a schema by field id. The fields inside a column
/// are no columns.
pub uninterp spec fn column_names(schema: Schema) -> Map<i32, Seq<char>>;

/// The fields of the Arrow schema that a table schema converts to, `None` where
/// it does not convert.
pub uninterp spec fn arrow_fields(schema: Schema) -> Option<Seq<FieldView>>;

/// The text of the error where a table schema does not convert.
pub uninterp spec fn conversion_error_text(schema: Schema) -> Seq<char>;

/// Whether `error` is that of a table schema that does not convert.
pub open spec fn is_conversion_error(error: TableError, schema: Schema) -> bool {
    &&& arrow_fields(schema) is None
    &&& error matches TableError::Iceberg(e)
    &&& iceberg_error_text(e) == conversion_error_text(schema)
}

/// Whether `arrow` is the Arrow schema that a table schema converts to.
pub open spec fn is_arrow_schema(arrow: ArrowSchema, schema: Schema) -> bool {
    &&& arrow_fields(schema) == Some(schema_fields(arrow))
    &&& schema_metadata(arrow) == Map::<Seq<char>, Seq<char>>::empty()
}

/// `Schema::as_struct` and `StructType::field_by_id`: the name of the column with
/// that id. A field inside a column is not found.
#[verifier::external_body]
pub(crate) fn column_name_by_id(schema: &Schema, id: i32) -> (name: Option<String>)
    ensures
        match name {
            Some(n) => column_names(*schema).contains_key(id) && n@ == column_names(*schema)[id],
            None => !column_names(*schema).contains_key(id),
        },
{
    schema.as_struct().field_by_id(id).map(|field| field.name.clone())
}

/// `iceberg::arrow::schema_to_arrow_schema`: whether the schema converts, the
/// fields of the Arrow schema it converts to, and the text of the error where it
/// does not, depend on the schema alone. The Arrow schema has no metadata of its
/// own.
#[verifier::external_body]
pub(crate) fn convert_schema(schema: &Schema) -> (converted: Result<ArrowSchema, iceberg::Error>)
    ensures
        match converted {
            Ok(arrow) => is_arrow_schema(arrow, *schema),
            Err(e) => arrow_fields(*schema) is None && iceberg_error_text(e)
                == conversion_error_text(*schema),
        },
{
    schema_to_arrow_schema(schema)
}

/// How a partition field derives its value from its source column.
#[derive(Clone, Copy, Debug, PartialEq, Eq, Structural)]
pub enum Transform {
    Identity,
    Bucket(u32),
    Truncate(u32),
    Year,
    Month,
    Day,
    Hour,
    Void,
    Unknown,
}

/// A field of a partition spec.
#[derive(Clone, Copy, Debug, PartialEq, Eq)]
pub struct PartitionField {
    /// Field id of the source column in the table schema.
    pub source_id: i32,
    pub transform: Transform,
}

/// The partition spec that new data is written under.
#[derive(Clone, Debug, PartialEq, Eq)]
pub struct PartitionSpec {
    pub fields: Vec<PartitionField>,
}

impl PartitionSpec {
    /// Whether rows are not told apart by this spec: it has no field, or none
    /// but void ones.
    pub open spec fn unpartitioned(&self) -> bool {
        forall|k: int| 0 <= k < self.fields@.len() ==> (#[trigger] self.fields@[k]).transform is Void
    }

    pub fn is_unpartitioned(&self) -> (result: bool)
        ensures
            result == self.unpartitioned(),
            result == (forall|k: int|
                0 <= k < self.fields@.len() ==> (#[trigger] self.fields@[k]).transform is Void),
    {
        for k in 0..self.fields.len()
            invariant
                forall|j: int| 0 <= j < k ==> (#[trigger] self.fields@[j]).transform is Void,
        {
            match self.fields[k].transform {
                Transform::Void => {},
                _ => {
                    assert(!(self.fields@[k as int].transform is Void));
                    return false;
                },
            }
        }
        true
    }
}

/// A snapshot of a table.
#[derive(Clone, Debug, PartialEq, Eq)]
pub struct Snapshot {
    pub snapshot_id: i64,
    /// The schema that the snapshot was written with, where it is recorded.
    pub schema_id: Option<i32>,
}

/// Table properties, each name with one value.
#[derive(Debug)]
pub struct Properties {
    entries: Vec<(String, String)>,
}

/// Whether no two entries have the same name.
pub open spec fn distinct_names(entries: Seq<(String, String)>) -> bool {
    forall|i: int, j: int|
        0 <= i < j < entries.len() ==> (#[trigger] entries[i]).0@ != (#[trigger] entries[j]).0@
}

/// The value of each name.
pub open spec fn values_by_name(entries: Seq<(String, String)>) -> Map<Seq<char>, Seq<char>>
    decreases entries.len(),
{
    if entries.len() == 0 {
        Map::empty()
    } else {
        values_by_name(entries.drop_last()).insert(entries.last().0@, entries.last().1@)
    }
}

/// Where names are distinct, each entry is the one that counts for its name.
proof fn lemma_values_by_name(entries: Seq<(String, String)>)
    requires
        distinct_names(entries),
    ensures
        forall|k: int|
            0 <= k < entries.len() ==> values_by_name(entries).contains_key(
                (#[trigger] entries[k]).0@,
            ) && values_by_name(entries)[entries[k].0@] == entries[k].1@,
        forall|name: Seq<char>| #[trigger]
            values_by_name(entries).contains_key(name) ==> exists|k: int|
                0 <= k < entries.len() && (#[trigger] entries[k]).0@ == name,
    decreases entries.len(),
{
    if entries.len() > 0 {
        let fewer = entries.drop_last();
        lemma_values_by_name(fewer);
        assert forall|k: int| 0 <= k < entries.len() implies values_by_name(entries).contains_key(
            (#[trigger] entries[k]).0@,
        ) && values_by_name(entries)[entries[k].0@] == entries[k].1@ by {
            if k < fewer.len() {
                assert(fewer[k] == entries[k]);
                assert(entries[k].0@ != entries[entries.len() - 1].0@);
            }
        }
        assert forall|name: Seq<char>| #[trigger]
            values_by_name(entries).contains_key(name) implies exists|k: int|
            0 <= k < entries.len() && (#[trigger] entries[k]).0@ == name by {
            if name == entries.last().0@ {
                assert(entries[entries.len() - 1].0@ == name);
            } else {
                assert(values_by_name(fewer).contains_key(name));
                let k = choose|k: int| 0 <= k < fewer.len() && (#[trigger] fewer[k]).0@ == name;
                assert(entries[k].0@ == name);
            }
        }
    }
}

/// To give another value to one entry is to insert that value under its name.
proof fn lemma_values_by_name_set(
    before: Seq<(String, String)>,
    after: Seq<(String, String)>,
    k: int,
)
    requires
        distinct_names(before),
        distinct_names(after),
        0 <= k < before.len(),
        after == before.update(k, after[k]),
        after[k].0@ == before[k].0@,
    ensures
        values_by_name(after) == values_by_name(before).insert(after[k].0@, after[k].1@),
{
    lemma_values_by_name(before);
    lemma_values_by_name(after);
    let old_values = values_by_name(before);
    let new_values = values_by_name(after);
    let expected = old_values.insert(after[k].0@, after[k].1@);
    assert forall|name: Seq<char>| #[trigger] new_values.contains_key(name)
        == expected.contains_key(name) && (new_values.contains_key(name) ==> new_values[name]
        == expected[name]) by {
        if new_values.contains_key(name) {
            let j = choose|j: int| 0 <= j < after.len() && (#[trigger] after[j]).0@ == name;
            assert(before[j].0@ == name);
            if j != k {
                assert(after[j] == before[j]);
                assert(after[j].0@ != after[k].0@);
            }
        }
        if old_values.contains_key(name) {
            let j = choose|j: int| 0 <= j < before.len() && (#[trigger] before[j]).0@ == name;
            assert(after[j].0@ == name);
        }
    }
    assert(new_values =~= expected);
}

impl View for Properties {
    type V = Map<Seq<char>, Seq<char>>;

    closed spec fn view(&self) -> Map<Seq<char>, Seq<char>> {
        values_by_name(self.entries@)
    }
}

impl Default for Properties {
    fn default() -> (properties: Self)
        ensures
            properties@ == Map::<Seq<char>, Seq<char>>::empty(),
    {
        Properties { entries: Vec::new() }
    }
}

impl Clone for Properties {
    fn clone(&self) -> (properties: Self)
        ensures
            properties@ == self@,
    {
        proof {
            use_type_invariant(self);
        }
        let mut entries: Vec<(String, String)> = Vec::new();
        for k in 0..self.entries.len()
            invariant
                entries@ == self.entries@.take(k as int),
        {
            entries.push((self.entries[k].0.clone(), self.entries[k].1.clone()));
            assert(self.entries@.take(k + 1) =~= self.entries@.take(k as int).push(
                self.entries@[k as int],
            ));
        }
        assert(entries@ =~= self.entries@);
        Properties { entries }
    }
}

impl Properties {
    #[verifier::type_invariant]
    spec fn names_are_distinct(&self) -> bool {
        distinct_names(self.entries@)
    }

    /// The value of the property called `name`.
    pub open spec fn value(&self, name: Seq<char>) -> Option<Seq<char>> {
        if self@.contains_key(name) {
            Some(self@[name])
        } else {
            None
        }
    }

    /// Position of the entry called `name`.
    fn position(&self, name: &str) -> (position: Option<usize>)
        ensures
            match position {
                Some(k) => k < self.entries@.len() && self.entries@[k as int].0@ == name@,
                None => forall|k: int|
                    0 <= k < self.entries@.len() ==> (#[trigger] self.entries@[k]).0@ != name@,
            },
    {
        for k in 0..self.entries.len()
            invariant
                forall|j: int| 0 <= j < k ==> (#[trigger] self.entries@[j]).0@ != name@,
        {
            if same_text(self.entries[k].0.as_str(), name) {
                return Some(k);
            }
        }
        None
    }

    pub fn get(&self, name: &str) -> (value: Option<&String>)
        ensures
            match value {
                Some(v) => self.value(name@) == Some(v@),
                None => self.value(name@) is None,
            },
            match value {
                Some(v) => self@.contains_key(name@) && self@[name@] == v@,
                None => !self@.contains_key(name@),
            },
    {
        proof {
            use_type_invariant(self);
            lemma_values_by_name(self.entries@);
        }
        match self.position(name) {
            Some(k) => Some(&self.entries[k].1),
            None => None,
        }
    }

    /// Sets the property called `name`, in place of its value so far.
    pub fn insert(&mut self, name: String, value: String)
        ensures
            final(self)@ == old(self)@.insert(name@, value@),
    {
        proof {
            use_type_invariant(&*self);
            lemma_values_by_name(self.entries@);
        }
        let position = self.position(name.as_str());
        let mut entries: Vec<(String, String)> = Vec::new();
        std::mem::swap(&mut entries, &mut self.entries);
        let ghost before = entries@;
        match position {
            Some(k) => {
                entries.set(k, (name, value));
            },
            None => entries.push((name, value)),
        }
        proof {
            lemma_values_by_name(entries@);
            match position {
                Some(k) => lemma_values_by_name_set(before, entries@, k as int),
                None => assert(entries@.drop_last() =~= before),
            }
        }
        self.entries = entries;
    }
}

/// The metadata of a table, as far as planning reads it.
#[derive(Clone, Debug)]
pub struct TableMetadata {
    /// The schema that the table has now.
    pub current_schema: Arc<Schema>,
    /// Every schema that the table has had, by schema id.
    pub schemas: HashMap<i32, Arc<Schema>>,
    /// How many partition specs the table has had.
    pub partition_spec_count: usize,
    pub default_partition_spec: PartitionSpec,
    /// Every snapshot of the table, by snapshot id.
    pub snapshots: HashMap<i64, Snapshot>,
    pub properties: Properties,
}

impl Snapshot {
    /// The schema that the snapshot's rows have: the recorded one, and else the
    /// schema that the table has now. `None` where the recorded one is missing.
    pub open spec fn table_schema(&self, metadata: TableMetadata) -> Option<Arc<Schema>> {
        match self.schema_id {
            Some(id) => if metadata.schemas@.contains_key(id) {
                Some(metadata.schemas@[id])
            } else {
                None
            },
            None => Some(metadata.current_schema),
        }
    }

    pub fn schema(&self, metadata: &TableMetadata) -> (schema: Result<Arc<Schema>, TableError>)
        ensures
            match schema {
                Ok(s) => self.table_schema(*metadata) == Some(s),
                Err(e) => {
                    &&& self.table_schema(*metadata) is None
                    &&& e matches TableError::DataInvalid { message, source }
                    &&& message@ == "Schema with id "@ + signed_decimal(self.schema_id->0 as int)
                        + " not found"@
                    &&& source is None
                },
            },
            self.schema_id is None ==> schema == Ok::<Arc<Schema>, TableError>(
                metadata.current_schema,
            ),
            self.schema_id matches Some(id) ==> if metadata.schemas@.contains_key(id) {
                schema == Ok::<Arc<Schema>, TableError>(metadata.schemas@[id])
            } else {
                schema is Err
            },
    {
        broadcast use vstd::std_specs::hash::group_hash_axioms;

        match self.schema_id {
            Some(id) => match metadata.schemas.get(&id) {
                Some(schema) => Ok(schema.clone()),
                None => {
                    let mut message = "Schema with id ".to_owned();
                    append_signed_decimal(&mut message, id as i64);
                    message.append(" not found");
                    Err(TableError::DataInvalid { message, source: None })
                },
            },
            None => Ok(metadata.current_schema.clone()),
        }
    }
}

/// The name of a table within its namespace.
#[derive(Clone, Debug, PartialEq, Eq)]
pub struct TableIdent {
    pub namespace: Vec<String>,
    pub name: String,
}

/// A table at one state of its metadata.
#[derive(Clone, Debug)]
pub struct Table {
    pub identifier: TableIdent,
    pub metadata: TableMetadata,
}

/// One field that is not void is enough to partition a table, whatever its
/// transform is and whatever stands beside it; void fields do not.
pub proof fn law_any_transform_partitions(spec: PartitionSpec, k: int)
    ensures
        0 <= k < spec.fields@.len() && spec.fields@[k].transform != Transform::Void
            ==> !spec.unpartitioned(),
        (forall|i: int|
            0 <= i < spec.fields@.len() ==> (#[trigger] spec.fields@[i]).transform
                == Transform::Void) ==> spec.unpartitioned(),
{
}

/// The schema of a snapshot is the recorded one, also where the table has another
/// one now; only where none is recorded is it that of the table.
pub proof fn law_snapshot_keeps_its_schema(snapshot: Snapshot, metadata: TableMetadata, id: i32)
    ensures
        snapshot.schema_id == Some(id) && metadata.schemas@.contains_key(id)
            ==> snapshot.table_schema(metadata) == Some(metadata.schemas@[id]),
        snapshot.schema_id == Some(id) && !metadata.schemas@.contains_key(id)
            ==> snapshot.table_schema(metadata) is None,
        snapshot.schema_id is None ==> snapshot.table_schema(metadata) == Some(
            metadata.current_schema,
        ),
{
}

/// A property has the value that was set last under its name.
pub proof fn law_property_value(properties: Properties, name: Seq<char>)
    ensures
        properties@.contains_key(name) ==> properties.value(name) == Some(properties@[name]),
        !properties@.contains_key(name) ==> properties.value(name) is None,
{
}

/// A schema that converted has the fields that the table schema converts to, and
/// none that did not convert has any.
pub proof fn law_conversion_succeeds_or_fails(
    arrow: ArrowSchema,
    error: TableError,
    schema: Schema,
)
    ensures
        is_arrow_schema(arrow, schema) ==> arrow_fields(schema) == Some(schema_fields(arrow))
            && schema_metadata(arrow).len() == 0,
        is_conversion_error(error, schema) ==> arrow_fields(schema) is None && (
        error matches TableError::Iceberg(e) && iceberg_error_text(e) == conversion_error_text(
            schema,
        )),
{
}

}
