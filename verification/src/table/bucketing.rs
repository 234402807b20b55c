//! Assignment of file scan tasks to output partitions by their partition values.

use std::collections::hash_map::DefaultHasher;
use std::hash::{Hash, Hasher};

use datafusion::arrow::array::ArrayData;
use datafusion::arrow::datatypes::Schema as ArrowSchema;
use vstd::multiset::Multiset;
use vstd::prelude::*;
use vstd::std_specs::hash::DefaultHasherAdditionalSpecFns;

use crate::arrow::{
    array_items, boolean_array, date32_array, field_data_type, float32_array, float64_array,
    hash_row, index_of, int32_array, int64_array, is_single, lemma_position_of,
    position_of, row_hash, row_of, schema_fields, string_array, DataType, DataTypeView, FieldView, ItemView,
};
use crate::metadata::{
    column_name_by_id, column_names, PartitionField, Table, TableMetadata, Transform,
};
use crate::partitioning::{Column, ColumnView};
use crate::task::{
    groups_view, lemma_pooled_empty, lemma_pooled_push, pooled, FileScanTask, Literal,
    PrimitiveLiteral,
};

verus! {

/// Identity-partitioned column that is also present in the output projection
/// and whose Arrow type can be rebuilt from a partition value for hashing.
#[derive(Clone, Debug, PartialEq, Eq)]
pub struct IdentityCol {
    pub name: String,
    /// Position of this column in the *output* schema (after projection).
    pub output_idx: usize,
    /// Position of this column among the fields of the partition spec, which is
    /// that of its slot in a task's partition tuple.
    pub spec_field_idx: usize,
    pub output_dtype: DataType,
}

/// What an identity column is.
pub struct IdentityColView {
    pub name: Seq<char>,
    pub output_idx: int,
    pub spec_field_idx: int,
    pub output_dtype: DataTypeView,
}

impl View for IdentityCol {
    type V = IdentityColView;

    open spec fn view(&self) -> IdentityColView {
        IdentityColView {
            name: self.name@,
            output_idx: self.output_idx as int,
            spec_field_idx: self.spec_field_idx as int,
            output_dtype: self.output_dtype@,
        }
    }
}

/// Positions below `end` of the identity fields of a partition spec, ascending.
pub open spec fn identity_positions(fields: Seq<PartitionField>, end: nat) -> Seq<int> {
    Seq::new(end, |i: int| i).filter(|i: int| fields[i].transform is Identity)
}

/// Name and output position of the column that a partition field is derived
/// from, where the table schema has it and the output schema names it. A source
/// inside a column is not in the output, though a column there may share its
/// name.
pub open spec fn source_column(
    metadata: TableMetadata,
    output: Seq<FieldView>,
    field: PartitionField,
) -> Option<ColumnView> {
    let names = column_names(*metadata.current_schema);
    if names.contains_key(field.source_id) {
        match position_of(output, names[field.source_id]) {
            Some(index) => Some(ColumnView { name: names[field.source_id], index }),
            None => None,
        }
    } else {
        None
    }
}

/// The identity column at position `i` of the partition spec, where its source
/// is in the output with a supported type.
pub open spec fn identity_col(
    metadata: TableMetadata,
    output: Seq<FieldView>,
    i: int,
) -> Option<IdentityColView> {
    match source_column(metadata, output, metadata.default_partition_spec.fields@[i]) {
        Some(column) => if supported(output[column.index].data_type) {
            Some(
                IdentityColView {
                    name: column.name,
                    output_idx: column.index,
                    spec_field_idx: i,
                    output_dtype: output[column.index].data_type,
                },
            )
        } else {
            None
        },
        None => None,
    }
}

/// Whether each of these fields of the partition spec is an identity column.
pub open spec fn all_identity_cols(
    metadata: TableMetadata,
    output: Seq<FieldView>,
    positions: Seq<int>,
) -> bool {
    forall|k: int|
        0 <= k < positions.len() ==> identity_col(metadata, output, #[trigger] positions[k]) is Some
}

/// The identity columns of a table whose every identity field is usable, in the
/// order of the partition spec. `None` after spec evolution, since older files
/// may carry a partition tuple that does not align with the default spec, and
/// where an identity field is not usable.
pub open spec fn identity_cols(metadata: TableMetadata, output: Seq<FieldView>) -> Option<
    Seq<IdentityColView>,
> {
    let fields = metadata.default_partition_spec.fields@;
    let positions = identity_positions(fields, fields.len());
    if metadata.partition_spec_count <= 1 && all_identity_cols(metadata, output, positions) {
        Some(positions.map_values(|i: int| identity_col(metadata, output, i)->0))
    } else {
        None
    }
}

/// Finds the column that a partition field is derived from.
fn find_source_column(metadata: &TableMetadata, output_schema: &ArrowSchema, field: &PartitionField)
    -> (column: Option<Column>)
    ensures
        match column {
            Some(c) => {
                &&& source_column(*metadata, schema_fields(*output_schema), *field) == Some(c@)
                &&& c.index < schema_fields(*output_schema).len()
            },
            None => source_column(*metadata, schema_fields(*output_schema), *field) is None,
        },
{
    match column_name_by_id(&metadata.current_schema, field.source_id) {
        Some(name) => match index_of(output_schema, name.as_str()) {
            Some(index) => {
                proof {
                    lemma_position_of(schema_fields(*output_schema), name@, index as int);
                }
                Some(Column { name, index })
            },
            None => None,
        },
        None => None,
    }
}

/// Inspects the table's default partition spec and returns the list of identity
/// columns that can support a hash declaration. Returns `None` if any condition
/// is violated:
///   - the source column for an identity field is not in the output projection
///   - the source column's Arrow type is not currently supported by
///     [`literal_to_array`]
///   - the table has spec evolution (more than one historical spec)
///
/// Returning `None` forces the scan to declare `UnknownPartitioning` even if
/// bucketing succeeds.
pub fn compute_identity_cols(table: &Table, output_schema: &ArrowSchema) -> (cols: Option<
    Vec<IdentityCol>,
>)
    ensures
        match cols {
            Some(c) => identity_cols(table.metadata, schema_fields(*output_schema)) == Some(
                c@.map_values(|col: IdentityCol| col@),
            ),
            None => identity_cols(table.metadata, schema_fields(*output_schema)) is None,
        },
{
    let metadata = &table.metadata;
    if metadata.partition_spec_count > 1 {
        return None;
    }
    let fields = &metadata.default_partition_spec.fields;
    let ghost output = schema_fields(*output_schema);
    let ghost is_identity = |i: int| fields@[i].transform is Identity;
    let mut cols: Vec<IdentityCol> = Vec::new();
    assert(identity_positions(fields@, 0) =~= Seq::<int>::empty()) by {
        reveal(Seq::filter);
    }
    assert(cols@.map_values(|col: IdentityCol| col@) =~= identity_positions(fields@, 0).map_values(
        |i: int| identity_col(*metadata, output, i)->0,
    ));
    for spec_field_idx in 0..fields.len()
        invariant
            *fields == metadata.default_partition_spec.fields,
            *metadata == table.metadata,
            metadata.partition_spec_count <= 1,
            output == schema_fields(*output_schema),
            is_identity == |i: int| fields@[i].transform is Identity,
            all_identity_cols(
                *metadata,
                output,
                identity_positions(fields@, spec_field_idx as nat),
            ),
            cols@.map_values(|col: IdentityCol| col@) == identity_positions(
                fields@,
                spec_field_idx as nat,
            ).map_values(|i: int| identity_col(*metadata, output, i)->0),
    {
        let ghost here = identity_positions(fields@, spec_field_idx as nat);
        let ghost next = identity_positions(fields@, (spec_field_idx + 1) as nat);
        proof {
            reveal(Seq::filter);
            let longer = Seq::new((spec_field_idx + 1) as nat, |i: int| i);
            assert(longer.drop_last() =~= Seq::new(spec_field_idx as nat, |i: int| i));
        }
        let pf = &fields[spec_field_idx];
        if matches!(pf.transform, Transform::Identity) {
            assert(next =~= here.push(spec_field_idx as int));
            assert(identity_positions(fields@, fields@.len()).contains(spec_field_idx as int)) by {
                let every = Seq::new(fields@.len(), |i: int| i);
                every.lemma_filter_contains(is_identity, spec_field_idx as int);
            }
            let column = match find_source_column(metadata, output_schema, pf) {
                Some(column) => column,
                None => return None,
            };
            let output_dtype = field_data_type(output_schema, column.index);
            if !is_supported_dtype(&output_dtype) {
                return None;
            }
            let ghost before = cols@;
            cols.push(
                IdentityCol {
                    name: column.name,
                    output_idx: column.index,
                    spec_field_idx,
                    output_dtype,
                },
            );
            assert(cols@.map_values(|col: IdentityCol| col@) =~= before.map_values(
                |col: IdentityCol| col@,
            ).push(cols@.last()@));
            assert(next.map_values(|i: int| identity_col(*metadata, output, i)->0)
                =~= here.map_values(|i: int| identity_col(*metadata, output, i)->0).push(
                identity_col(*metadata, output, spec_field_idx as int)->0,
            ));
        } else {
            assert(next =~= here);
        }
    }
    Some(cols)
}

/// Whether a partition value of this type can be hashed as Arrow hashes it.
pub open spec fn supported(dt: DataTypeView) -> bool {
    !(dt is Other)
}

pub fn is_supported_dtype(dt: &DataType) -> (result: bool)
    ensures
        result == supported(dt@),
{
    matches!(
        dt,
        DataType::Boolean
            | DataType::Int32
            | DataType::Int64
            | DataType::Float32
            | DataType::Float64
            | DataType::Utf8
            | DataType::Date32
    )
}

/// The Arrow item that stands for `lit` in a column of type `dt`, where there is
/// one.
pub open spec fn literal_item(lit: Literal, dt: DataTypeView) -> Option<ItemView> {
    match (lit, dt) {
        (Literal::Primitive(PrimitiveLiteral::Boolean(v)), DataTypeView::Boolean) => Some(
            ItemView::Boolean(v),
        ),
        (Literal::Primitive(PrimitiveLiteral::Int(v)), DataTypeView::Int32) => Some(ItemView::Int32(v)),
        (Literal::Primitive(PrimitiveLiteral::Int(v)), DataTypeView::Date32) => Some(
            ItemView::Date32(v),
        ),
        (Literal::Primitive(PrimitiveLiteral::Long(v)), DataTypeView::Int64) => Some(
            ItemView::Int64(v),
        ),
        (Literal::Primitive(PrimitiveLiteral::Float(v)), DataTypeView::Float32) => Some(
            ItemView::Float32(v),
        ),
        (Literal::Primitive(PrimitiveLiteral::Double(v)), DataTypeView::Float64) => Some(
            ItemView::Float64(v),
        ),
        (Literal::Primitive(PrimitiveLiteral::String(v)), DataTypeView::Utf8) => Some(
            ItemView::Utf8(v@),
        ),
        _ => None,
    }
}

/// Materializes a single-item Arrow array of type `dt` that holds the value of
/// `lit`. The Arrow type must match what DataFusion will see for this column
/// at scan time, otherwise the hash would disagree with DataFusion's row-wise
/// hashing.
pub fn literal_to_array(lit: &Literal, dt: &DataType) -> (array: Option<ArrayData>)
    requires
        dt@ is Utf8 ==> lit.fits_array(),
    ensures
        match array {
            Some(a) => literal_item(*lit, dt@) is Some && array_items(a) == seq![
                literal_item(*lit, dt@)->0,
            ],
            None => literal_item(*lit, dt@) is None,
        },
        lit matches Literal::Primitive(PrimitiveLiteral::Boolean(v)) ==> (dt@ is Boolean ==> (
        array matches Some(a) && array_items(a) == seq![ItemView::Boolean(*v)])),
        lit matches Literal::Primitive(PrimitiveLiteral::Int(v)) ==> (dt@ is Int32 ==> (
        array matches Some(a) && array_items(a) == seq![ItemView::Int32(*v)])),
        lit matches Literal::Primitive(PrimitiveLiteral::Int(v)) ==> (dt@ is Date32 ==> (
        array matches Some(a) && array_items(a) == seq![ItemView::Date32(*v)])),
        lit matches Literal::Primitive(PrimitiveLiteral::Long(v)) ==> (dt@ is Int64 ==> (
        array matches Some(a) && array_items(a) == seq![ItemView::Int64(*v)])),
        lit matches Literal::Primitive(PrimitiveLiteral::Float(v)) ==> (dt@ is Float32 ==> (
        array matches Some(a) && array_items(a) == seq![ItemView::Float32(*v)])),
        lit matches Literal::Primitive(PrimitiveLiteral::Double(v)) ==> (dt@ is Float64 ==> (
        array matches Some(a) && array_items(a) == seq![ItemView::Float64(*v)])),
        lit matches Literal::Primitive(PrimitiveLiteral::String(v)) ==> (dt@ is Utf8 ==> (
        array matches Some(a) && array_items(a) == seq![ItemView::Utf8(v@)])),
{
    let prim = match lit {
        Literal::Primitive(p) => p,
        _ => return None,
    };
    match (prim, dt) {
        (PrimitiveLiteral::Boolean(v), DataType::Boolean) => Some(boolean_array(*v)),
        (PrimitiveLiteral::Int(v), DataType::Int32) => Some(int32_array(*v)),
        (PrimitiveLiteral::Int(v), DataType::Date32) => Some(date32_array(*v)),
        (PrimitiveLiteral::Long(v), DataType::Int64) => Some(int64_array(*v)),
        (PrimitiveLiteral::Float(v), DataType::Float32) => Some(float32_array(*v)),
        (PrimitiveLiteral::Double(v), DataType::Float64) => Some(float64_array(*v)),
        (PrimitiveLiteral::String(v), DataType::Utf8) => Some(string_array(v.as_str())),
        _ => None,
    }
}

/// Column of a bucket transform. The source column must be in the output
/// projection so that a hash declaration can refer to it. Its Arrow type does
/// not matter, because the partition slot of a bucket transform is always an
/// `Int`.
#[derive(Clone, Debug, PartialEq, Eq)]
pub struct BucketCol {
    pub name: String,
    /// Position of this column in the *output* schema (after projection).
    pub output_idx: usize,
    /// Position of this column among the fields of the partition spec, which is
    /// that of its slot in a task's partition tuple.
    pub spec_field_idx: usize,
}

/// What a bucket column is.
pub struct BucketColView {
    pub name: Seq<char>,
    pub output_idx: int,
    pub spec_field_idx: int,
}

impl View for BucketCol {
    type V = BucketColView;

    open spec fn view(&self) -> BucketColView {
        BucketColView {
            name: self.name@,
            output_idx: self.output_idx as int,
            spec_field_idx: self.spec_field_idx as int,
        }
    }
}

/// The bucket column of a table whose one partition field is a bucket transform
/// of a column in the output. `None` for any other table, and after spec
/// evolution.
pub open spec fn bucket_cols(metadata: TableMetadata, output: Seq<FieldView>) -> Option<
    Seq<BucketColView>,
> {
    let fields = metadata.default_partition_spec.fields@;
    if metadata.partition_spec_count <= 1 && fields.len() == 1 && fields[0].transform is Bucket {
        match source_column(metadata, output, fields[0]) {
            Some(column) => Some(
                seq![
                    BucketColView {
                        name: column.name,
                        output_idx: column.index,
                        spec_field_idx: 0,
                    },
                ],
            ),
            None => None,
        }
    } else {
        None
    }
}

/// Inspects the table's default partition spec and returns the bucket column
/// usable for a hash declaration. The spec must contain exactly one
/// `Transform::Bucket(_)` field, and its source column must be present in the
/// output projection. Returns `None` on spec evolution, empty spec, multi-field
/// specs (even when all fields are bucket transforms), non-bucket transforms, or
/// when the bucket source column is absent from the projection.
///
/// This deliberately rejects mixed identity+bucket specs: those are handled
/// by [`compute_identity_cols`] which retains only the identity fields.
pub fn compute_bucket_cols(table: &Table, output_schema: &ArrowSchema) -> (cols: Option<
    Vec<BucketCol>,
>)
    ensures
        match cols {
            Some(c) => bucket_cols(table.metadata, schema_fields(*output_schema)) == Some(
                c@.map_values(|col: BucketCol| col@),
            ),
            None => bucket_cols(table.metadata, schema_fields(*output_schema)) is None,
        },
{
    let metadata = &table.metadata;
    if metadata.partition_spec_count > 1 {
        return None;
    }
    let fields = &metadata.default_partition_spec.fields;
    if fields.len() != 1 {
        return None;
    }
    let pf = &fields[0];
    if !matches!(pf.transform, Transform::Bucket(_)) {
        return None;
    }
    match find_source_column(metadata, output_schema, pf) {
        Some(column) => {
            let col = BucketCol { name: column.name, output_idx: column.index, spec_field_idx: 0 };
            let cols = vec![col];
            assert(cols@.map_values(|col: BucketCol| col@) =~= seq![col@]);
            Some(cols)
        },
        None => None,
    }
}

/// What kind of column keys a table is split by.
#[derive(Clone, Copy, Debug, PartialEq, Eq, Structural)]
pub enum PartitionKeysKind {
    Identity,
    Bucket,
}

/// Single-entry partition-key descriptor that drives both task distribution and
/// the hash declaration.
#[derive(Clone, Debug, PartialEq, Eq)]
pub enum PartitionKeys {
    Identity(Vec<IdentityCol>),
    Bucket(Vec<BucketCol>),
}

/// What partition keys are.
pub enum PartitionKeysView {
    Identity(Seq<IdentityColView>),
    Bucket(Seq<BucketColView>),
}

impl View for PartitionKeys {
    type V = PartitionKeysView;

    open spec fn view(&self) -> PartitionKeysView {
        match self {
            PartitionKeys::Identity(cols) => PartitionKeysView::Identity(
                cols@.map_values(|col: IdentityCol| col@),
            ),
            PartitionKeys::Bucket(cols) => PartitionKeysView::Bucket(
                cols@.map_values(|col: BucketCol| col@),
            ),
        }
    }
}

/// What optional partition keys are.
pub open spec fn keys_view(keys: Option<PartitionKeys>) -> Option<PartitionKeysView> {
    match keys {
        Some(keys) => Some(keys@),
        None => None,
    }
}

/// What optional partition keys behind a reference are.
pub open spec fn keys_ref_view(keys: Option<&PartitionKeys>) -> Option<PartitionKeysView> {
    match keys {
        Some(keys) => Some(keys@),
        None => None,
    }
}

impl PartitionKeysView {
    pub open spec fn kind(self) -> PartitionKeysKind {
        match self {
            PartitionKeysView::Identity(_) => PartitionKeysKind::Identity,
            PartitionKeysView::Bucket(_) => PartitionKeysKind::Bucket,
        }
    }

    /// The key columns in the output schema.
    pub open spec fn columns(self) -> Seq<ColumnView> {
        match self {
            PartitionKeysView::Identity(cols) => cols.map_values(
                |c: IdentityColView| ColumnView { name: c.name, index: c.output_idx },
            ),
            PartitionKeysView::Bucket(cols) => cols.map_values(
                |c: BucketColView| ColumnView { name: c.name, index: c.output_idx },
            ),
        }
    }
}

impl PartitionKeys {
    pub fn kind(&self) -> (kind: PartitionKeysKind)
        ensures
            kind == self@.kind(),
    {
        match self {
            PartitionKeys::Identity(_) => PartitionKeysKind::Identity,
            PartitionKeys::Bucket(_) => PartitionKeysKind::Bucket,
        }
    }

    /// The key columns (one per key), referring to the *output* schema, suitable
    /// for a hash declaration.
    pub fn column_exprs(&self) -> (columns: Vec<Column>)
        ensures
            columns@.map_values(|column: Column| column@) == self@.columns(),
    {
        let mut columns: Vec<Column> = Vec::new();
        match self {
            PartitionKeys::Identity(cols) => {
                for k in 0..cols.len()
                    invariant
                        columns@.len() == k,
                        forall|j: int|
                            0 <= j < k ==> (#[trigger] columns@[j])@ == (ColumnView {
                                name: cols@[j].name@,
                                index: cols@[j].output_idx as int,
                            }),
                {
                    columns.push(Column { name: cols[k].name.clone(), index: cols[k].output_idx });
                }
            },
            PartitionKeys::Bucket(cols) => {
                for k in 0..cols.len()
                    invariant
                        columns@.len() == k,
                        forall|j: int|
                            0 <= j < k ==> (#[trigger] columns@[j])@ == (ColumnView {
                                name: cols@[j].name@,
                                index: cols@[j].output_idx as int,
                            }),
                {
                    columns.push(Column { name: cols[k].name.clone(), index: cols[k].output_idx });
                }
            },
        }
        assert(columns@.map_values(|column: Column| column@) =~= self@.columns());
        columns
    }
}

/// The keys that a table's rows can be declared to be hashed by: its identity
/// columns where it has some and they are enabled, and else its bucket column
/// where that is enabled.
pub open spec fn partition_keys(
    metadata: TableMetadata,
    output: Seq<FieldView>,
    identity_partitioning_enabled: bool,
    bucket_execution_enabled: bool,
) -> Option<PartitionKeysView> {
    let identity = identity_cols(metadata, output);
    let bucket = bucket_cols(metadata, output);
    if identity_partitioning_enabled && identity is Some && identity->0.len() > 0 {
        Some(PartitionKeysView::Identity(identity->0))
    } else if bucket_execution_enabled && bucket is Some {
        Some(PartitionKeysView::Bucket(bucket->0))
    } else {
        None
    }
}

/// Returns the partition keys that drive a hash declaration, or `None` if the
/// spec is not hash-declarable.
///
/// Identity is tried first: it also covers mixed identity+bucket specs,
/// keeping only the identity fields. Otherwise we fall back to a
/// single-column pure-bucket spec.
pub fn compute_partition_keys(
    table: &Table,
    output_schema: &ArrowSchema,
    identity_partitioning_enabled: bool,
    bucket_execution_enabled: bool,
) -> (keys: Option<PartitionKeys>)
    ensures
        keys_view(keys) == partition_keys(
            table.metadata,
            schema_fields(*output_schema),
            identity_partitioning_enabled,
            bucket_execution_enabled,
        ),
{
    if identity_partitioning_enabled {
        if let Some(cols) = compute_identity_cols(table, output_schema) {
            if cols.len() > 0 {
                return Some(PartitionKeys::Identity(cols));
            }
        }
    }
    if bucket_execution_enabled {
        match compute_bucket_cols(table, output_schema) {
            Some(cols) => Some(PartitionKeys::Bucket(cols)),
            None => None,
        }
    } else {
        None
    }
}

/// The item of the tuple `slots` that belongs to the identity column `col`.
pub open spec fn key_item(slots: Seq<Option<Literal>>, col: IdentityColView) -> Option<ItemView> {
    if 0 <= col.spec_field_idx < slots.len() {
        match slots[col.spec_field_idx] {
            Some(literal) => literal_item(literal, col.output_dtype),
            None => None,
        }
    } else {
        None
    }
}

/// Whether the tuple `slots` has an item for each identity column.
pub open spec fn has_key_items(slots: Seq<Option<Literal>>, cols: Seq<IdentityColView>) -> bool {
    forall|k: int| 0 <= k < cols.len() ==> key_item(slots, #[trigger] cols[k]) is Some
}

/// The identity-partition values of a task, one per key column. `None` if the
/// task lacks partition data or any required slot is null or unsupported.
pub open spec fn identity_key(task: FileScanTask, cols: Seq<IdentityColView>) -> Option<
    Seq<ItemView>,
> {
    match task.partition {
        Some(slots) => if cols.len() > 0 && has_key_items(slots@, cols) {
            Some(cols.map_values(|col: IdentityColView| key_item(slots@, col)->0))
        } else {
            None
        },
        None => None,
    }
}

/// The bucket that a task's file was written to, from the slot of the bucket
/// column. A negative slot, which no writer should leave, counts by its bits.
pub open spec fn bucket_key(task: FileScanTask, cols: Seq<BucketColView>) -> Option<u64> {
    match task.partition {
        Some(slots) => if cols.len() > 0 && 0 <= cols[0].spec_field_idx < slots@.len() {
            match slots@[cols[0].spec_field_idx] {
                Some(Literal::Primitive(PrimitiveLiteral::Int(v))) => Some(
                    if v >= 0 {
                        v as u64
                    } else {
                        (v + 0x1_0000_0000) as u64
                    },
                ),
                _ => None,
            }
        } else {
            None
        },
        None => None,
    }
}

/// What a task is placed by, where it has a full key.
pub enum TaskKey {
    /// The values of the identity columns.
    Identity(Seq<ItemView>),
    /// The bucket.
    Bucket(u64),
}

/// The full key of a task. `None` where the table has no keys, and where the
/// task cannot supply its key.
pub open spec fn task_key(task: FileScanTask, keys: Option<PartitionKeysView>) -> Option<TaskKey> {
    match keys {
        Some(PartitionKeysView::Identity(cols)) => match identity_key(task, cols) {
            Some(row) => Some(TaskKey::Identity(row)),
            None => None,
        },
        Some(PartitionKeysView::Bucket(cols)) => match bucket_key(task, cols) {
            Some(bucket) => Some(TaskKey::Bucket(bucket)),
            None => None,
        },
        None => None,
    }
}

/// The number that a key is placed by: its hash as DataFusion repartitions, and
/// the bucket itself.
pub open spec fn key_hash(key: TaskKey) -> u64 {
    match key {
        TaskKey::Identity(row) => row_hash(row),
        TaskKey::Bucket(bucket) => bucket,
    }
}

/// The partition, out of `n`, that a key goes to.
pub open spec fn key_partition(key: TaskKey, n: nat) -> int {
    key_hash(key) as int % n as int
}

/// Whether the slot of a text column is within the size that a text array can
/// hold.
pub open spec fn key_fits(slots: Seq<Option<Literal>>, col: IdentityColView) -> bool {
    col.output_dtype is Utf8 && 0 <= col.spec_field_idx < slots.len() ==> (
    slots[col.spec_field_idx] matches Some(literal) ==> literal.fits_array())
}

/// Whether the slots of all text columns are within that size.
pub open spec fn all_keys_fit(slots: Seq<Option<Literal>>, cols: Seq<IdentityColView>) -> bool {
    forall|k: int| 0 <= k < cols.len() ==> key_fits(slots, #[trigger] cols[k])
}

/// Whether the arrays that the key of a task is hashed from can hold it. Only
/// identity keys are hashed from arrays.
pub open spec fn fits_arrays(task: FileScanTask, keys: Option<PartitionKeysView>) -> bool {
    match keys {
        Some(PartitionKeysView::Identity(cols)) => task.partition matches Some(slots)
            ==> all_keys_fit(slots@, cols),
        _ => true,
    }
}

/// Whether the arrays that the keys of all tasks are hashed from can hold them.
pub open spec fn all_fit_arrays(tasks: Seq<FileScanTask>, keys: Option<PartitionKeysView>) -> bool {
    forall|i: int| 0 <= i < tasks.len() ==> fits_arrays(#[trigger] tasks[i], keys)
}

/// What hashing a text writes to a hasher.
pub uninterp spec fn text_writes(text: Seq<char>) -> Seq<Seq<u8>>;

/// The hash of a file path that places a task without a full key.
pub open spec fn path_hash(path: Seq<char>) -> u64 {
    DefaultHasher::spec_finish(text_writes(path))
}

/// The partition, out of `n`, that a task goes to: that of its key where it has
/// a full one, and else one picked by its file path.
pub open spec fn destination(
    task: FileScanTask,
    n: usize,
    keys: Option<PartitionKeysView>,
) -> int {
    match task_key(task, keys) {
        Some(key) => key_partition(key, n as nat),
        None => (path_hash(task.data_file_path@) as usize) as int % n as int,
    }
}

/// The tasks that go to partition `b` out of `n`, in their order.
pub open spec fn bucket(
    tasks: Seq<FileScanTask>,
    n: usize,
    keys: Option<PartitionKeysView>,
    b: int,
) -> Seq<FileScanTask> {
    tasks.filter(|task: FileScanTask| destination(task, n, keys) == b)
}

/// The tasks of each of `n` partitions.
pub open spec fn buckets(
    tasks: Seq<FileScanTask>,
    n: usize,
    keys: Option<PartitionKeysView>,
) -> Seq<Seq<FileScanTask>> {
    Seq::new(n as nat, |b: int| bucket(tasks, n, keys, b))
}

/// Whether every task supplies a full key.
pub open spec fn all_keyed(tasks: Seq<FileScanTask>, keys: Option<PartitionKeysView>) -> bool {
    forall|i: int| 0 <= i < tasks.len() ==> task_key(#[trigger] tasks[i], keys) is Some
}

/// Hashes the identity-partition values of `task` so that the bucket assignment
/// matches DataFusion's hash-repartition convention. Returns `None` if the task
/// lacks partition data or any required slot is null/unsupported.
pub fn identity_hash(task: &FileScanTask, cols: &Vec<IdentityCol>) -> (hash: Option<u64>)
    requires
        fits_arrays(
            *task,
            Some(PartitionKeysView::Identity(cols@.map_values(|col: IdentityCol| col@))),
        ),
    ensures
        hash == match identity_key(*task, cols@.map_values(|col: IdentityCol| col@)) {
            Some(row) => Some(row_hash(row)),
            None => None,
        },
{
    let ghost col_views = cols@.map_values(|col: IdentityCol| col@);
    if cols.len() == 0 {
        return None;
    }
    let partition = match &task.partition {
        Some(partition) => partition,
        None => return None,
    };
    let mut arrays: Vec<ArrayData> = Vec::with_capacity(cols.len());
    for k in 0..cols.len()
        invariant
            fits_arrays(*task, Some(PartitionKeysView::Identity(col_views))),
            task.partition == Some(*partition),
            col_views == cols@.map_values(|col: IdentityCol| col@),
            arrays@.len() == k,
            forall|j: int|
                #![trigger arrays@[j]]
                #![trigger col_views[j]]
                0 <= j < k ==> {
                    &&& key_item(partition@, col_views[j]) is Some
                    &&& array_items(arrays@[j]) == seq![key_item(partition@, col_views[j])->0]
                },
    {
        let idx = cols[k].spec_field_idx;
        assert(col_views[k as int] == cols@[k as int]@);
        assert(key_fits(partition@, col_views[k as int]));
        if idx >= partition.len() {
            return None;
        }
        let lit = match &partition[idx] {
            Some(lit) => lit,
            None => return None,
        };
        match literal_to_array(lit, &cols[k].output_dtype) {
            Some(array) => arrays.push(array),
            None => return None,
        }
    }
    assert forall|k: int| 0 <= k < arrays@.len() implies is_single(#[trigger] arrays@[k]) by {
        assert(key_item(partition@, col_views[k]) is Some);
    }
    assert(row_of(arrays@) =~= col_views.map_values(
        |col: IdentityColView| key_item(partition@, col)->0,
    ));
    hash_row(&arrays)
}

/// Returns the bucket index of `task` as a `u64`. The slot for a
/// `Transform::Bucket(_)` field is always an `Int`; a missing slot or another
/// literal returns `None`, driving the caller's `all_full_key` flag to `false`.
pub fn bucket_index(task: &FileScanTask, cols: &Vec<BucketCol>) -> (index: Option<u64>)
    ensures
        index == bucket_key(*task, cols@.map_values(|col: BucketCol| col@)),
{
    if cols.len() == 0 {
        return None;
    }
    let col = &cols[0];
    let partition = match &task.partition {
        Some(partition) => partition,
        None => return None,
    };
    if col.spec_field_idx >= partition.len() {
        return None;
    }
    let idx: i32 = match &partition[col.spec_field_idx] {
        Some(Literal::Primitive(PrimitiveLiteral::Int(v))) => *v,
        _ => return None,
    };
    // A bucket is not negative; cast through `u32` first to avoid sign extension
    // if the file accidentally carries a negative slot.
    let index: u64 = idx as u32 as u64;
    assert(idx >= 0 ==> index == idx) by (bit_vector)
        requires
            index == idx as u32 as u64,
    ;
    assert(idx < 0 ==> index == idx + 0x1_0000_0000) by (bit_vector)
        requires
            index == idx as u32 as u64,
    ;
    Some(index)
}

/// `Hash::hash` of a text: what it writes to the hasher follows from the text
/// alone.
#[verifier::external_body]
fn hash_text(text: &str, hasher: &mut DefaultHasher)
    ensures
        final(hasher)@ == old(hasher)@ + text_writes(text@),
{
    text.hash(hasher);
}

/// Deterministic per-file fallback used when a task cannot supply its key. The
/// hash function does not need to match DataFusion's because any task taking
/// this path causes the scan to drop to `UnknownPartitioning`.
pub fn fallback_hash(task: &FileScanTask) -> (hash: u64)
    ensures
        hash == path_hash(task.data_file_path@),
{
    let mut hasher = DefaultHasher::new();
    hash_text(task.data_file_path.as_str(), &mut hasher);
    assert(hasher@ =~= text_writes(task.data_file_path@));
    hasher.finish()
}

/// Tells whether the arrays that the key of a task is hashed from can hold it.
fn task_fits_arrays(task: &FileScanTask, keys: Option<&PartitionKeys>) -> (fits: bool)
    ensures
        fits == fits_arrays(*task, keys_ref_view(keys)),
{
    if let Some(PartitionKeys::Identity(cols)) = keys {
        if let Some(slots) = &task.partition {
            let ghost col_views = cols@.map_values(|col: IdentityCol| col@);
            for k in 0..cols.len()
                invariant
                    keys_ref_view(keys) == Some(PartitionKeysView::Identity(col_views)),
                    col_views == cols@.map_values(|col: IdentityCol| col@),
                    task.partition == Some(*slots),
                    forall|j: int| 0 <= j < k ==> key_fits(slots@, #[trigger] col_views[j]),
            {
                let col = &cols[k];
                assert(col_views[k as int] == col@);
                if matches!(col.output_dtype, DataType::Utf8) && col.spec_field_idx < slots.len() {
                    if let Some(literal) = &slots[col.spec_field_idx] {
                        if !literal.is_array_sized() {
                            assert(!key_fits(slots@, col_views[k as int]));
                            return false;
                        }
                    }
                }
            }
        }
    }
    true
}

/// Tells whether the arrays that the keys of all tasks are hashed from can hold
/// them.
pub fn tasks_fit_arrays(tasks: &Vec<FileScanTask>, keys: Option<&PartitionKeys>) -> (fit: bool)
    ensures
        fit == all_fit_arrays(tasks@, keys_ref_view(keys)),
{
    for i in 0..tasks.len()
        invariant
            forall|j: int|
                0 <= j < i ==> fits_arrays(#[trigger] tasks@[j], keys_ref_view(keys)),
    {
        if !task_fits_arrays(&tasks[i], keys) {
            assert(!fits_arrays(tasks@[i as int], keys_ref_view(keys)));
            return false;
        }
    }
    true
}

/// The number that a task is placed by, `None` where it cannot supply its key.
fn task_hash(task: &FileScanTask, keys: Option<&PartitionKeys>) -> (hash: Option<u64>)
    requires
        fits_arrays(*task, keys_ref_view(keys)),
    ensures
        hash == match task_key(*task, keys_ref_view(keys)) {
            Some(key) => Some(key_hash(key)),
            None => None,
        },
{
    match keys {
        Some(PartitionKeys::Identity(cols)) => identity_hash(task, cols),
        Some(PartitionKeys::Bucket(cols)) => bucket_index(task, cols),
        None => None,
    }
}

/// Tells whether a partition value is one that a column of this type can hold.
fn literal_matches(lit: &Literal, dt: &DataType) -> (matching: bool)
    ensures
        matching == (literal_item(*lit, dt@) is Some),
{
    match lit {
        Literal::Primitive(prim) => matches!(
            (prim, dt),
            (PrimitiveLiteral::Boolean(_), DataType::Boolean)
                | (PrimitiveLiteral::Int(_), DataType::Int32)
                | (PrimitiveLiteral::Int(_), DataType::Date32)
                | (PrimitiveLiteral::Long(_), DataType::Int64)
                | (PrimitiveLiteral::Float(_), DataType::Float32)
                | (PrimitiveLiteral::Double(_), DataType::Float64)
                | (PrimitiveLiteral::String(_), DataType::Utf8)
        ),
        _ => false,
    }
}

/// Tells whether a task supplies a value for each identity column.
fn has_identity_key(task: &FileScanTask, cols: &Vec<IdentityCol>) -> (keyed: bool)
    ensures
        keyed == (identity_key(*task, cols@.map_values(|col: IdentityCol| col@)) is Some),
{
    let ghost col_views = cols@.map_values(|col: IdentityCol| col@);
    let slots = match &task.partition {
        Some(slots) => slots,
        None => return false,
    };
    for k in 0..cols.len()
        invariant
            task.partition == Some(*slots),
            col_views == cols@.map_values(|col: IdentityCol| col@),
            forall|j: int| 0 <= j < k ==> key_item(slots@, #[trigger] col_views[j]) is Some,
    {
        let col = &cols[k];
        assert(col_views[k as int] == col@);
        let matching = if col.spec_field_idx < slots.len() {
            match &slots[col.spec_field_idx] {
                Some(lit) => literal_matches(lit, &col.output_dtype),
                None => false,
            }
        } else {
            false
        };
        if !matching {
            assert(key_item(slots@, col_views[k as int]) is None);
            return false;
        }
    }
    cols.len() > 0
}

/// Tells whether every task supplies a full key.
fn every_task_keyed(tasks: &Vec<FileScanTask>, keys: Option<&PartitionKeys>) -> (keyed: bool)
    ensures
        keyed == all_keyed(tasks@, keys_ref_view(keys)),
{
    for i in 0..tasks.len()
        invariant
            forall|j: int|
                0 <= j < i ==> task_key(#[trigger] tasks@[j], keys_ref_view(keys)) is Some,
    {
        let keyed = match keys {
            Some(PartitionKeys::Identity(cols)) => has_identity_key(&tasks[i], cols),
            Some(PartitionKeys::Bucket(cols)) => bucket_index(&tasks[i], cols).is_some(),
            None => false,
        };
        if !keyed {
            assert(task_key(tasks@[i as int], keys_ref_view(keys)) is None);
            return false;
        }
    }
    true
}

/// Without tasks every partition is empty.
pub proof fn lemma_buckets_empty(n: usize, keys: Option<PartitionKeysView>)
    ensures
        forall|b: int|
            0 <= b < n ==> (#[trigger] buckets(Seq::empty(), n, keys)[b]) == Seq::<
                FileScanTask,
            >::empty(),
{
    reveal(Seq::filter);
}

/// One more task goes to the end of the partition it is destined for.
pub proof fn lemma_buckets_push(
    tasks: Seq<FileScanTask>,
    task: FileScanTask,
    n: usize,
    keys: Option<PartitionKeysView>,
)
    requires
        n > 0,
    ensures
        0 <= destination(task, n, keys) < n,
        buckets(tasks.push(task), n, keys) == buckets(tasks, n, keys).update(
            destination(task, n, keys),
            bucket(tasks, n, keys, destination(task, n, keys)).push(task),
        ),
{
    reveal(Seq::filter);
    assert(tasks.push(task).drop_last() =~= tasks);
    let d = destination(task, n, keys);
    let pushed = buckets(tasks, n, keys).update(d, bucket(tasks, n, keys, d).push(task));
    assert forall|b: int| 0 <= b < n implies buckets(tasks.push(task), n, keys)[b]
        == pushed[b] by {}
    assert(buckets(tasks.push(task), n, keys) =~= pushed);
}

/// One more task keeps all tasks keyed if it has a full key itself.
proof fn lemma_all_keyed_push(
    tasks: Seq<FileScanTask>,
    task: FileScanTask,
    keys: Option<PartitionKeysView>,
)
    ensures
        all_keyed(tasks.push(task), keys) == (all_keyed(tasks, keys) && task_key(task, keys)
            is Some),
{
    let pushed = tasks.push(task);
    assert(pushed[tasks.len() as int] == task);
    assert forall|i: int| 0 <= i < tasks.len() implies #[trigger] tasks[i] == pushed[i] by {}
    if all_keyed(pushed, keys) {
        assert forall|i: int| 0 <= i < tasks.len() implies task_key(#[trigger] tasks[i], keys)
            is Some by {
            assert(task_key(pushed[i], keys) is Some);
        }
    }
}

/// Groups `tasks` into `n_partitions` buckets, one per output partition of the
/// surrounding scan.
///
/// # Arguments
///
/// * `tasks` - every task that the table scan planned (already filtered by
///   predicate and projection). They are redistributed across the returned
///   buckets.
///
/// * `n_partitions` - number of output partitions to produce. With `0` there are
///   no buckets, and the tasks go nowhere.
///
/// * `keys` - describes how a task is assigned to a bucket. Three cases:
///   - `Some(PartitionKeys::Identity(cols))`: hash the task's identity
///     partition values as DataFusion repartitions, then take
///     `% n_partitions`. The assignment matches what a hash repartition on
///     these columns would compute row by row, which lets the planner elide a
///     downstream repartition.
///   - `Some(PartitionKeys::Bucket(cols))`: read the task's pre-computed
///     bucket index `idx` and take `idx % n_partitions`.
///   - `None`: the spec is not hash-declarable. Every task takes the
///     fallback path below.
///
/// # Fallback
///
/// When a task can't yield its key (missing partition tuple, null slot,
/// unsupported literal type), it is placed deterministically via
/// `fallback_hash(data_file_path) % n_partitions` and the second return
/// flag flips to `false`.
///
/// # Returns
///
/// * the tasks regrouped by output partition (some buckets may be empty).
/// * `true` iff every task supplied a full key. A single fallback occurrence is
///   enough to break the "same key -> same partition" contract, hence the
///   all-or-nothing flag.
pub fn bucket_tasks(
    tasks: Vec<FileScanTask>,
    n_partitions: usize,
    keys: Option<&PartitionKeys>,
) -> (result: (Vec<Vec<FileScanTask>>, bool))
    requires
        n_partitions > 0 ==> all_fit_arrays(tasks@, keys_ref_view(keys)),
    ensures
        groups_view(result.0@) == buckets(tasks@, n_partitions, keys_ref_view(keys)),
        result.1 == all_keyed(tasks@, keys_ref_view(keys)),
{
    if n_partitions == 0 {
        assert(groups_view(Seq::empty()) =~= buckets(tasks@, 0, keys_ref_view(keys)));
        return (Vec::new(), every_task_keyed(&tasks, keys));
    }
    let ghost all = tasks@;
    let ghost kv = keys_ref_view(keys);
    let mut groups: Vec<Vec<FileScanTask>> = Vec::new();
    for b in 0..n_partitions
        invariant
            groups@.len() == b,
            forall|j: int| 0 <= j < b ==> (#[trigger] groups@[j])@.len() == 0,
    {
        groups.push(Vec::new());
    }
    let mut all_full_key = true;
    proof {
        lemma_buckets_empty(n_partitions, kv);
        assert(all.take(0) =~= Seq::<FileScanTask>::empty());
        assert forall|b: int| 0 <= b < n_partitions implies groups_view(groups@)[b] == buckets(
            all.take(0),
            n_partitions,
            kv,
        )[b] by {
            assert(groups@[b]@ =~= Seq::<FileScanTask>::empty());
        }
        assert(groups_view(groups@) =~= buckets(all.take(0), n_partitions, kv));
    }
    for task in it: tasks
        invariant
            it.seq() == all,
            n_partitions > 0,
            kv == keys_ref_view(keys),
            groups_view(groups@) == buckets(all.take(it.index()), n_partitions, kv),
            all_full_key == all_keyed(all.take(it.index()), kv),
            all_fit_arrays(all, kv),
    {
        let ghost seen = all.take(it.index());
        let ghost before = groups@;
        proof {
            lemma_buckets_push(seen, task, n_partitions, kv);
            lemma_all_keyed_push(seen, task, kv);
            assert(all.take(it.index() + 1) =~= seen.push(task));
        }
        let dest: usize = match task_hash(&task, keys) {
            Some(hash) => (hash % n_partitions as u64) as usize,
            None => {
                all_full_key = false;
                fallback_hash(&task) as usize % n_partitions
            },
        };
        assert(dest == destination(task, n_partitions, kv));
        assert(groups_view(before).len() == n_partitions);
        groups[dest].push(task);
        assert(groups_view(groups@) =~= groups_view(before).update(
            dest as int,
            groups_view(before)[dest as int].push(task),
        ));
    }
    assert(all.take(all.len() as int) =~= all);
    (groups, all_full_key)
}

/// Tasks with the same key go to the same partition.
pub proof fn law_same_key_same_partition(
    a: FileScanTask,
    b: FileScanTask,
    n: usize,
    keys: Option<PartitionKeysView>,
)
    requires
        task_key(a, keys) is Some,
        task_key(a, keys) == task_key(b, keys),
    ensures
        destination(a, n, keys) == destination(b, n, keys),
{
}

/// Tasks of files with the same partition tuple go to the same partition, where
/// the tuple supplies the key.
pub proof fn law_same_tuple_same_partition(
    a: FileScanTask,
    b: FileScanTask,
    n: usize,
    keys: Option<PartitionKeysView>,
)
    requires
        a.partition == b.partition,
        task_key(a, keys) is Some,
    ensures
        destination(a, n, keys) == destination(b, n, keys),
{
}

/// Each task is in the partition that it is destined for, and in no other.
pub proof fn law_bucket_holds_its_tasks(
    tasks: Seq<FileScanTask>,
    n: usize,
    keys: Option<PartitionKeysView>,
    b: int,
    task: FileScanTask,
)
    requires
        0 <= b < n,
    ensures
        buckets(tasks, n, keys)[b].contains(task) <==> tasks.contains(task) && destination(
            task,
            n,
            keys,
        ) == b,
{
    let goes_here = |t: FileScanTask| destination(t, n, keys) == b;
    if tasks.contains(task) && goes_here(task) {
        let i = choose|i: int| 0 <= i < tasks.len() && tasks[i] == task;
        tasks.lemma_filter_contains(goes_here, i);
    }
    let kept = tasks.filter(goes_here);
    if kept.contains(task) {
        let i = choose|i: int| 0 <= i < kept.len() && kept[i] == task;
        tasks.lemma_filter_pred(goes_here, i);
        tasks.lemma_filter_contains_rev(goes_here, task);
    }
}

/// The partitions hold every task as often as it was planned, and nothing else.
pub proof fn law_buckets_keep_tasks(
    tasks: Seq<FileScanTask>,
    n: usize,
    keys: Option<PartitionKeysView>,
)
    requires
        n > 0,
    ensures
        pooled(buckets(tasks, n, keys)) == tasks.to_multiset(),
    decreases tasks.len(),
{
    broadcast use vstd::seq_lib::group_to_multiset_ensures;

    if tasks.len() == 0 {
        assert(tasks =~= Seq::<FileScanTask>::empty());
        lemma_buckets_empty(n, keys);
        assert forall|g: int| 0 <= g < n implies (#[trigger] buckets(tasks, n, keys)[g]).len()
            == 0 by {}
        lemma_pooled_empty(buckets(tasks, n, keys));
        assert(tasks.to_multiset() =~= Multiset::<FileScanTask>::empty());
    } else {
        let fewer = tasks.drop_last();
        let task = tasks.last();
        law_buckets_keep_tasks(fewer, n, keys);
        lemma_buckets_push(fewer, task, n, keys);
        lemma_pooled_push(buckets(fewer, n, keys), destination(task, n, keys), task);
        assert(fewer.push(task) =~= tasks);
    }
}

/// With as many partitions as buckets, each bucket is a partition of its own,
/// under the bucket's number.
pub proof fn law_bucket_is_its_own_partition(
    task: FileScanTask,
    n: usize,
    keys: Option<PartitionKeysView>,
)
    requires
        task_key(task, keys) matches Some(TaskKey::Bucket(bucket)) && bucket < n,
    ensures
        destination(task, n, keys) == (task_key(task, keys)->0)->Bucket_0,
{
    let bucket = (task_key(task, keys)->0)->Bucket_0;
    vstd::arithmetic::div_mod::lemma_small_mod(bucket as nat, n as nat);
}

/// A table that has identity columns has no bucket column.
pub proof fn law_identity_excludes_bucket(metadata: TableMetadata, output: Seq<FieldView>)
    requires
        identity_cols(metadata, output) matches Some(cols) && cols.len() > 0,
    ensures
        bucket_cols(metadata, output) is None,
{
    let fields = metadata.default_partition_spec.fields@;
    let is_identity = |i: int| fields[i].transform is Identity;
    let every = Seq::new(fields.len(), |i: int| i);
    let first = identity_positions(fields, fields.len())[0];
    every.lemma_filter_pred(is_identity, 0);
    every.lemma_filter_contains_rev(is_identity, first);
}

/// To switch a kind of key off is to drop the keys of that kind, and changes
/// nothing for a table with keys of the other kind.
pub proof fn law_disabled_kind_drops_keys(
    metadata: TableMetadata,
    output: Seq<FieldView>,
    identity_partitioning_enabled: bool,
    bucket_execution_enabled: bool,
)
    ensures
        partition_keys(metadata, output, identity_partitioning_enabled, bucket_execution_enabled)
            == match partition_keys(metadata, output, true, true) {
            Some(keys) => if match keys.kind() {
                PartitionKeysKind::Identity => identity_partitioning_enabled,
                PartitionKeysKind::Bucket => bucket_execution_enabled,
            } {
                Some(keys)
            } else {
                None
            },
            None => None,
        },
{
    if identity_cols(metadata, output) matches Some(cols) && cols.len() > 0 {
        law_identity_excludes_bucket(metadata, output);
    }
}

/// The key columns are columns of the output, under their own names. Identity
/// columns come with the type that they have there.
pub proof fn law_key_columns_are_output_columns(
    metadata: TableMetadata,
    output: Seq<FieldView>,
    identity_partitioning_enabled: bool,
    bucket_execution_enabled: bool,
    k: int,
)
    requires
        partition_keys(metadata, output, identity_partitioning_enabled, bucket_execution_enabled)
            matches Some(keys) && 0 <= k < keys.columns().len(),
    ensures
        partition_keys(metadata, output, identity_partitioning_enabled, bucket_execution_enabled)
            matches Some(keys) && {
            let column = keys.columns()[k];
            &&& 0 <= column.index < output.len()
            &&& output[column.index].name == column.name
            &&& keys matches PartitionKeysView::Identity(cols) ==> {
                &&& cols[k].output_dtype == output[column.index].data_type
                &&& supported(cols[k].output_dtype)
            }
        },
{
    let fields = metadata.default_partition_spec.fields@;
    let positions = identity_positions(fields, fields.len());
    if identity_partitioning_enabled && identity_cols(metadata, output) is Some && identity_cols(
        metadata,
        output,
    )->0.len() > 0 {
        assert(identity_col(metadata, output, positions[k]) is Some);
    }
}

/// There are no keys after spec evolution, none for a table that is not
/// partitioned, and none for a spec without identity fields unless its one field
/// is a bucket.
pub proof fn law_specs_without_keys(
    metadata: TableMetadata,
    output: Seq<FieldView>,
    identity_partitioning_enabled: bool,
    bucket_execution_enabled: bool,
)
    requires
        ({
            let fields = metadata.default_partition_spec.fields@;
            ||| metadata.partition_spec_count > 1
            ||| metadata.default_partition_spec.unpartitioned()
            ||| {
                &&& forall|i: int|
                    0 <= i < fields.len() ==> !((#[trigger] fields[i]).transform is Identity)
                &&& fields.len() != 1 || !(fields[0].transform is Bucket)
            }
        }),
    ensures
        partition_keys(metadata, output, identity_partitioning_enabled, bucket_execution_enabled)
            is None,
{
    let fields = metadata.default_partition_spec.fields@;
    let is_identity = |i: int| fields[i].transform is Identity;
    let every = Seq::new(fields.len(), |i: int| i);
    let positions = identity_positions(fields, fields.len());
    if positions.len() > 0 {
        every.lemma_filter_pred(is_identity, 0);
        every.lemma_filter_contains_rev(is_identity, positions[0]);
        assert(fields[positions[0]].transform is Identity);
    }
    if metadata.partition_spec_count <= 1 && fields.len() == 1 {
        assert(!(fields[0].transform is Bucket));
    }
}

/// The item that a partition value is hashed as holds the value itself, under the
/// type of the column.
pub proof fn law_item_holds_the_value(b: bool, i: i32, l: i64, f: u32, d: u64, s: String)
    ensures
        literal_item(Literal::Primitive(PrimitiveLiteral::Boolean(b)), DataTypeView::Boolean)
            == Some(ItemView::Boolean(b)),
        literal_item(Literal::Primitive(PrimitiveLiteral::Int(i)), DataTypeView::Int32) == Some(
            ItemView::Int32(i),
        ),
        literal_item(Literal::Primitive(PrimitiveLiteral::Int(i)), DataTypeView::Date32) == Some(
            ItemView::Date32(i),
        ),
        literal_item(Literal::Primitive(PrimitiveLiteral::Long(l)), DataTypeView::Int64) == Some(
            ItemView::Int64(l),
        ),
        literal_item(Literal::Primitive(PrimitiveLiteral::Float(f)), DataTypeView::Float32)
            == Some(ItemView::Float32(f)),
        literal_item(Literal::Primitive(PrimitiveLiteral::Double(d)), DataTypeView::Float64)
            == Some(ItemView::Float64(d)),
        literal_item(Literal::Primitive(PrimitiveLiteral::String(s)), DataTypeView::Utf8) == Some(
            ItemView::Utf8(s@),
        ),
{
}

/// Values that differ are hashed as items that differ: an item tells which value
/// it stands for.
pub proof fn law_items_tell_values_apart(a: Literal, b: Literal, dt: DataTypeView)
    requires
        literal_item(a, dt) is Some,
        literal_item(a, dt) == literal_item(b, dt),
    ensures
        a == b || (a matches Literal::Primitive(PrimitiveLiteral::String(s)) && (
        b matches Literal::Primitive(PrimitiveLiteral::String(t)) && s@ == t@)),
{
}

/// A value has an item only under the type that its kind of value has, and under
/// no type that cannot be hashed.
pub proof fn law_items_keep_to_their_type(lit: Literal, dt: DataTypeView)
    requires
        literal_item(lit, dt) is Some,
    ensures
        !(dt is Other),
        dt is Boolean <==> lit matches Literal::Primitive(PrimitiveLiteral::Boolean(_)),
        dt is Int32 || dt is Date32 <==> lit matches Literal::Primitive(PrimitiveLiteral::Int(_)),
        dt is Int64 <==> lit matches Literal::Primitive(PrimitiveLiteral::Long(_)),
        dt is Float32 <==> lit matches Literal::Primitive(PrimitiveLiteral::Float(_)),
        dt is Float64 <==> lit matches Literal::Primitive(PrimitiveLiteral::Double(_)),
        dt is Utf8 <==> lit matches Literal::Primitive(PrimitiveLiteral::String(_)),
{
}

/// The types that can be hashed are the seven told apart, and no other.
pub proof fn law_types_that_can_be_hashed(dt: DataTypeView)
    ensures
        dt is Boolean || dt is Int32 || dt is Int64 || dt is Float32 || dt is Float64 || dt is Utf8
            || dt is Date32 <==> supported(dt),
{
}

/// A null slot, a slot that the tuple does not have, or no tuple at all: one such
/// identity column is enough for a task to have no key, whatever its type is and
/// whatever the other columns hold.
pub proof fn law_missing_value_has_no_key(task: FileScanTask, cols: Seq<IdentityColView>, k: int)
    requires
        0 <= k < cols.len(),
        task.partition matches Some(slots) ==> !(0 <= cols[k].spec_field_idx < slots@.len())
            || slots@[cols[k].spec_field_idx] is None,
    ensures
        identity_key(task, cols) is None,
        task_key(task, Some(PartitionKeysView::Identity(cols))) is None,
{
    if let Some(slots) = task.partition {
        assert(key_item(slots@, cols[k]) is None);
    }
}

/// A task whose slots hold a value for each identity column has those values as
/// its key, each from the slot of its own column, and is placed by the hash that
/// DataFusion gives to a row of them.
pub proof fn law_values_are_hashed_in_column_order(
    task: FileScanTask,
    slots: Vec<Option<Literal>>,
    cols: Seq<IdentityColView>,
    row: Seq<ItemView>,
    n: usize,
)
    requires
        n > 0,
        task.partition == Some(slots),
        cols.len() > 0,
        row.len() == cols.len(),
        forall|k: int|
            #![trigger cols[k]]
            0 <= k < cols.len() ==> 0 <= cols[k].spec_field_idx < slots@.len() && (
            slots@[cols[k].spec_field_idx] matches Some(lit) && literal_item(
                lit,
                cols[k].output_dtype,
            ) == Some(row[k])),
    ensures
        task_key(task, Some(PartitionKeysView::Identity(cols))) == Some(TaskKey::Identity(row)),
        destination(task, n, Some(PartitionKeysView::Identity(cols))) == row_hash(row) as int
            % n as int,
{
    assert forall|k: int| 0 <= k < cols.len() implies key_item(slots@, #[trigger] cols[k]) == Some(
        row[k],
    ) by {}
    assert(cols.map_values(|col: IdentityColView| key_item(slots@, col)->0) =~= row);
}

/// A task that has an identity key has a value in the slot of every column, and
/// its key is those values.
pub proof fn law_identity_key_is_read_from_the_slots(
    task: FileScanTask,
    cols: Seq<IdentityColView>,
    k: int,
)
    requires
        identity_key(task, cols) is Some,
        0 <= k < cols.len(),
    ensures
        identity_key(task, cols)->0.len() == cols.len(),
        task.partition matches Some(slots) && 0 <= cols[k].spec_field_idx < slots@.len() && (
        slots@[cols[k].spec_field_idx] matches Some(lit) && literal_item(lit, cols[k].output_dtype)
            == Some(identity_key(task, cols)->0[k])),
{
    assert(key_item(task.partition->0@, cols[k]) is Some);
}

/// The bucket of a task is the number in the slot of the bucket column, and the
/// task goes to that number modulo the partitions; a negative number counts by
/// its bits.
pub proof fn law_bucket_number_places_the_task(
    task: FileScanTask,
    slots: Vec<Option<Literal>>,
    cols: Seq<BucketColView>,
    v: i32,
    n: usize,
)
    requires
        n > 0,
        task.partition == Some(slots),
        cols.len() > 0,
        0 <= cols[0].spec_field_idx < slots@.len(),
        slots@[cols[0].spec_field_idx] == Some(Literal::Primitive(PrimitiveLiteral::Int(v))),
    ensures
        v >= 0 ==> destination(task, n, Some(PartitionKeysView::Bucket(cols))) == v as int
            % n as int,
        v < 0 ==> destination(task, n, Some(PartitionKeysView::Bucket(cols))) == (v
            + 0x1_0000_0000) % n as int,
        task_key(task, Some(PartitionKeysView::Bucket(cols))) is Some,
{
}

/// Only a number in the slot of the bucket column is a bucket.
pub proof fn law_other_slots_are_no_bucket(task: FileScanTask, cols: Seq<BucketColView>)
    requires
        cols.len() > 0,
        task.partition matches Some(slots) ==> !(0 <= cols[0].spec_field_idx < slots@.len()) || !(
        slots@[cols[0].spec_field_idx] matches Some(Literal::Primitive(PrimitiveLiteral::Int(_)))),
    ensures
        bucket_key(task, cols) is None,
        task_key(task, Some(PartitionKeysView::Bucket(cols))) is None,
{
}

/// A task without a key goes to the same partition as every other task of its
/// file, by the hash of the path.
pub proof fn law_keyless_task_is_placed_by_path(
    task: FileScanTask,
    other: FileScanTask,
    n: usize,
    keys: Option<PartitionKeysView>,
)
    requires
        n > 0,
        task_key(task, keys) is None,
    ensures
        destination(task, n, keys) == (DefaultHasher::spec_finish(
            text_writes(task.data_file_path@),
        ) as usize) as int % n as int,
        task_key(other, keys) is None && other.data_file_path@ == task.data_file_path@
            ==> destination(other, n, keys) == destination(task, n, keys),
        task_key(task, None) is None,
{
}

/// There is a bucket per partition, none has a task before anything was planned,
/// and one more task goes to the end of its own bucket and changes no other.
pub proof fn law_bucket_grows_at_its_end(
    tasks: Seq<FileScanTask>,
    task: FileScanTask,
    n: usize,
    keys: Option<PartitionKeysView>,
    b: int,
)
    requires
        0 <= b < n,
    ensures
        buckets(tasks, n, keys).len() == n,
        buckets(Seq::empty(), n, keys)[b].len() == 0,
        destination(task, n, keys) == b ==> buckets(tasks.push(task), n, keys)[b] == buckets(
            tasks,
            n,
            keys,
        )[b].push(task),
        destination(task, n, keys) != b ==> buckets(tasks.push(task), n, keys)[b] == buckets(
            tasks,
            n,
            keys,
        )[b],
{
    lemma_buckets_push(tasks, task, n, keys);
    lemma_buckets_empty(n, keys);
}

/// All tasks are keyed while each is, and no longer after one that is not.
pub proof fn law_one_keyless_task_is_enough(
    tasks: Seq<FileScanTask>,
    keys: Option<PartitionKeysView>,
    i: int,
)
    ensures
        all_keyed(Seq::empty(), keys),
        0 <= i < tasks.len() && task_key(tasks[i], keys) is None ==> !all_keyed(tasks, keys),
        (forall|j: int| 0 <= j < tasks.len() ==> task_key(#[trigger] tasks[j], keys) is Some)
            ==> all_keyed(tasks, keys),
{
}

/// The identity columns are those of the identity fields of the spec, each once
/// and in the order of the spec: a field is among them exactly where its
/// transform is identity.
pub proof fn law_identity_columns_are_the_identity_fields(
    metadata: TableMetadata,
    output: Seq<FieldView>,
    i: int,
    j: int,
    k: int,
)
    requires
        identity_cols(metadata, output) is Some,
    ensures
        ({
            let fields = metadata.default_partition_spec.fields@;
            let cols = identity_cols(metadata, output)->0;
            &&& metadata.partition_spec_count <= 1
            &&& 0 <= i < cols.len() ==> 0 <= cols[i].spec_field_idx < fields.len()
                && fields[cols[i].spec_field_idx].transform == Transform::Identity
            &&& 0 <= i < j < cols.len() ==> cols[i].spec_field_idx < cols[j].spec_field_idx
            &&& 0 <= k < fields.len() && fields[k].transform == Transform::Identity
                ==> exists|c: int|
                0 <= c < cols.len() && (#[trigger] cols[c]).spec_field_idx == k
        }),
{
    let fields = metadata.default_partition_spec.fields@;
    let positions = identity_positions(fields, fields.len());
    let cols = identity_cols(metadata, output)->0;
    lemma_identity_positions(fields, fields.len());
    assert(cols.len() == positions.len());
    assert forall|c: int| 0 <= c < cols.len() implies (#[trigger] cols[c]).spec_field_idx
        == positions[c] by {
        assert(identity_col(metadata, output, positions[c]) is Some);
    }
    if 0 <= i < j < cols.len() {
        assert(positions[i] < positions[j]);
    }
    if 0 <= k < fields.len() && fields[k].transform == Transform::Identity {
        let c = choose|c: int| 0 <= c < positions.len() && positions[c] == k;
        assert(cols[c].spec_field_idx == k);
    }
}

/// Identity positions ascend, and are those of the identity fields.
proof fn lemma_identity_positions(fields: Seq<PartitionField>, end: nat)
    requires
        end <= fields.len(),
    ensures
        forall|c: int|
            0 <= c < identity_positions(fields, end).len() ==> 0 <= (
            #[trigger] identity_positions(fields, end)[c]) < end && fields[identity_positions(
                fields,
                end,
            )[c]].transform is Identity,
        forall|c: int, d: int|
            0 <= c < d < identity_positions(fields, end).len() ==> (#[trigger] identity_positions(
                fields,
                end,
            )[c]) < (#[trigger] identity_positions(fields, end)[d]),
        forall|k: int|
            0 <= k < end && (#[trigger] fields[k]).transform is Identity ==> exists|c: int|
                0 <= c < identity_positions(fields, end).len() && identity_positions(
                    fields,
                    end,
                )[c] == k,
    decreases end,
{
    reveal(Seq::filter);
    if end > 0 {
        let fewer = (end - 1) as nat;
        lemma_identity_positions(fields, fewer);
        let before = identity_positions(fields, fewer);
        let after = identity_positions(fields, end);
        assert(Seq::new(end, |i: int| i).drop_last() =~= Seq::new(fewer, |i: int| i));
        if fields[end - 1].transform is Identity {
            assert(after =~= before.push(end - 1));
            assert(after[before.len() as int] == end - 1);
            assert forall|k: int| 0 <= k < end && (#[trigger] fields[k]).transform is Identity
                implies exists|c: int| 0 <= c < after.len() && after[c] == k by {
                if k < end - 1 {
                    let c = choose|c: int| 0 <= c < before.len() && before[c] == k;
                    assert(after[c] == k);
                }
            }
        } else {
            assert(after =~= before);
        }
    }
}

/// An identity column has the name of the table's column with the source's id,
/// stands in the output under that name, and has the type that it has there.
pub proof fn law_identity_column_is_its_source(
    metadata: TableMetadata,
    output: Seq<FieldView>,
    i: int,
)
    requires
        identity_cols(metadata, output) matches Some(cols) && 0 <= i < cols.len(),
    ensures
        ({
            let fields = metadata.default_partition_spec.fields@;
            let names = column_names(*metadata.current_schema);
            let col = identity_cols(metadata, output)->0[i];
            let source_id = fields[col.spec_field_idx].source_id;
            &&& names.contains_key(source_id)
            &&& col.name == names[source_id]
            &&& 0 <= col.output_idx < output.len()
            &&& output[col.output_idx].name == names[source_id]
            &&& forall|q: int|
                0 <= q < col.output_idx ==> (#[trigger] output[q]).name != names[source_id]
            &&& col.output_dtype == output[col.output_idx].data_type
            &&& !(col.output_dtype is Other)
        }),
{
    let fields = metadata.default_partition_spec.fields@;
    let positions = identity_positions(fields, fields.len());
    assert(identity_col(metadata, output, positions[i]) is Some);
}

/// A table has identity columns as soon as its spec never changed and each
/// identity source is a column of the output with a type that can be hashed; one
/// source that is not is enough to have none.
pub proof fn law_identity_columns_need_every_source(
    metadata: TableMetadata,
    output: Seq<FieldView>,
    k: int,
)
    ensures
        ({
            let fields = metadata.default_partition_spec.fields@;
            let names = column_names(*metadata.current_schema);
            &&& metadata.partition_spec_count > 1 ==> identity_cols(metadata, output) is None
            &&& 0 <= k < fields.len() && fields[k].transform == Transform::Identity && (
            !names.contains_key(fields[k].source_id) || (forall|p: int|
                0 <= p < output.len() ==> (#[trigger] output[p]).name
                    != names[fields[k].source_id])) ==> identity_cols(metadata, output) is None
            &&& metadata.partition_spec_count <= 1 && (forall|f: int|
                #![trigger fields[f]]
                0 <= f < fields.len() && fields[f].transform == Transform::Identity
                    ==> names.contains_key(fields[f].source_id) && (position_of(
                    output,
                    names[fields[f].source_id],
                ) matches Some(p) && !(output[p].data_type is Other))) ==> identity_cols(
                metadata,
                output,
            ) is Some
        }),
{
    let fields = metadata.default_partition_spec.fields@;
    let positions = identity_positions(fields, fields.len());
    lemma_identity_positions(fields, fields.len());
    if 0 <= k < fields.len() && fields[k].transform == Transform::Identity {
        let c = choose|c: int| 0 <= c < positions.len() && positions[c] == k;
        if source_column(metadata, output, fields[k]) is None {
            assert(identity_col(metadata, output, positions[c]) is None);
        } else {
            let p = source_column(metadata, output, fields[k])->0.index;
            assert(output[p].name == column_names(*metadata.current_schema)[fields[k].source_id]);
        }
    }
    if identity_cols(metadata, output) is None && metadata.partition_spec_count <= 1 {
        let c = choose|c: int|
            0 <= c < positions.len() && identity_col(metadata, output, #[trigger] positions[c])
                is None;
        assert(fields[positions[c]].transform is Identity);
    }
}

/// The bucket column is the source of a spec's one bucket field, whatever its
/// number of buckets, under its own name in the output.
pub proof fn law_bucket_column_is_its_source(
    metadata: TableMetadata,
    output: Seq<FieldView>,
    buckets: u32,
)
    ensures
        ({
            let fields = metadata.default_partition_spec.fields@;
            let names = column_names(*metadata.current_schema);
            &&& bucket_cols(metadata, output) matches Some(cols) ==> {
                &&& metadata.partition_spec_count <= 1
                &&& fields.len() == 1
                &&& fields[0].transform is Bucket
                &&& cols.len() == 1
                &&& cols[0].spec_field_idx == 0
                &&& names.contains_key(fields[0].source_id)
                &&& cols[0].name == names[fields[0].source_id]
                &&& 0 <= cols[0].output_idx < output.len()
                &&& output[cols[0].output_idx].name == cols[0].name
                &&& forall|q: int|
                    0 <= q < cols[0].output_idx ==> (#[trigger] output[q]).name != cols[0].name
            }
            &&& metadata.partition_spec_count <= 1 && fields.len() == 1 && fields[0].transform
                == Transform::Bucket(buckets) && names.contains_key(fields[0].source_id)
                && position_of(output, names[fields[0].source_id]) is Some ==> bucket_cols(
                metadata,
                output,
            ) is Some
        }),
{
}

/// Identity columns are the keys where they are enabled and there are some, the
/// bucket column where it is enabled and they are not; keys come from nowhere
/// else.
pub proof fn law_keys_are_the_enabled_columns(
    metadata: TableMetadata,
    output: Seq<FieldView>,
    cols: Seq<IdentityColView>,
    bucket: Seq<BucketColView>,
)
    ensures
        identity_cols(metadata, output) == Some(cols) && cols.len() > 0 ==> {
            &&& partition_keys(metadata, output, true, true) == Some(
                PartitionKeysView::Identity(cols),
            )
            &&& partition_keys(metadata, output, true, false) == Some(
                PartitionKeysView::Identity(cols),
            )
        },
        bucket_cols(metadata, output) == Some(bucket) ==> {
            &&& partition_keys(metadata, output, true, true) == Some(
                PartitionKeysView::Bucket(bucket),
            )
            &&& partition_keys(metadata, output, false, true) == Some(
                PartitionKeysView::Bucket(bucket),
            )
        },
        partition_keys(metadata, output, false, false) is None,
        !(partition_keys(metadata, output, false, true) matches Some(
            PartitionKeysView::Identity(_),
        )),
        !(partition_keys(metadata, output, true, false) matches Some(
            PartitionKeysView::Bucket(_),
        )),
{
    if identity_cols(metadata, output) matches Some(c) && c.len() > 0 {
        law_identity_excludes_bucket(metadata, output);
    }
}

/// Keys are seen as they are: a column by its name, its two positions and its
/// type, in order.
pub proof fn law_keys_are_seen_as_they_are(
    identity: Vec<IdentityCol>,
    bucket: Vec<BucketCol>,
    k: int,
)
    ensures
        PartitionKeys::Identity(identity)@ matches PartitionKeysView::Identity(cols) && {
            &&& cols.len() == identity@.len()
            &&& 0 <= k < cols.len() ==> {
                &&& cols[k].name == identity@[k].name@
                &&& cols[k].output_idx == identity@[k].output_idx
                &&& cols[k].spec_field_idx == identity@[k].spec_field_idx
                &&& cols[k].output_dtype == identity@[k].output_dtype@
            }
        },
        PartitionKeys::Bucket(bucket)@ matches PartitionKeysView::Bucket(cols) && {
            &&& cols.len() == bucket@.len()
            &&& 0 <= k < cols.len() ==> {
                &&& cols[k].name == bucket@[k].name@
                &&& cols[k].output_idx == bucket@[k].output_idx
                &&& cols[k].spec_field_idx == bucket@[k].spec_field_idx
            }
        },
        keys_view(Some(PartitionKeys::Bucket(bucket))) == Some(PartitionKeys::Bucket(bucket)@),
        keys_view(Some(PartitionKeys::Identity(identity))) == Some(
            PartitionKeys::Identity(identity)@,
        ),
        keys_view(None) is None,
        keys_ref_view(Some(&PartitionKeys::Bucket(bucket))) == Some(PartitionKeys::Bucket(bucket)@),
        keys_ref_view(Some(&PartitionKeys::Identity(identity))) == Some(
            PartitionKeys::Identity(identity)@,
        ),
        keys_ref_view(None) is None,
{
}

/// A hash is declared over the key columns, one each and in order, at their
/// positions in the output; keys are of the kind that their columns are.
pub proof fn law_hash_columns_are_the_key_columns(
    identity: Seq<IdentityColView>,
    bucket: Seq<BucketColView>,
    k: int,
)
    ensures
        PartitionKeysView::Identity(identity).kind() == PartitionKeysKind::Identity,
        PartitionKeysView::Bucket(bucket).kind() == PartitionKeysKind::Bucket,
        PartitionKeysView::Identity(identity).columns().len() == identity.len(),
        PartitionKeysView::Bucket(bucket).columns().len() == bucket.len(),
        0 <= k < identity.len() ==> PartitionKeysView::Identity(identity).columns()[k].name
            == identity[k].name && PartitionKeysView::Identity(identity).columns()[k].index
            == identity[k].output_idx,
        0 <= k < bucket.len() ==> PartitionKeysView::Bucket(bucket).columns()[k].name
            == bucket[k].name && PartitionKeysView::Bucket(bucket).columns()[k].index
            == bucket[k].output_idx,
{
}

/// Only the texts of identity keys are bounded: every other task can be placed.
pub proof fn law_only_hashed_texts_are_bounded(
    task: FileScanTask,
    cols: Seq<IdentityColView>,
    bucket: Seq<BucketColView>,
)
    ensures
        fits_arrays(task, None),
        fits_arrays(task, Some(PartitionKeysView::Bucket(bucket))),
        task.partition is None ==> fits_arrays(task, Some(PartitionKeysView::Identity(cols))),
        (forall|k: int| 0 <= k < cols.len() ==> !((#[trigger] cols[k]).output_dtype is Utf8))
            ==> fits_arrays(task, Some(PartitionKeysView::Identity(cols))),
{
}

/// Keys come from the enabled columns of their kind and from nowhere else.
pub proof fn law_keys_come_from_the_spec(
    metadata: TableMetadata,
    output: Seq<FieldView>,
    identity_partitioning_enabled: bool,
    bucket_execution_enabled: bool,
)
    ensures
        partition_keys(metadata, output, identity_partitioning_enabled, bucket_execution_enabled)
            matches Some(PartitionKeysView::Identity(cols)) ==> identity_partitioning_enabled
            && cols.len() > 0 && identity_cols(metadata, output) == Some(cols),
        partition_keys(metadata, output, identity_partitioning_enabled, bucket_execution_enabled)
            matches Some(PartitionKeysView::Bucket(cols)) ==> bucket_execution_enabled
            && bucket_cols(metadata, output) == Some(cols),
{
}

/// Without key columns no task has a key.
pub proof fn law_no_columns_no_key(task: FileScanTask)
    ensures
        identity_key(task, Seq::empty()) is None,
        bucket_key(task, Seq::empty()) is None,
        task_key(task, None) is None,
{
}

/// A task can be placed by its identity key as soon as each text in the slot of a
/// text column fits, whatever its other slots hold.
pub proof fn law_fitting_texts_can_be_hashed(
    task: FileScanTask,
    slots: Vec<Option<Literal>>,
    cols: Seq<IdentityColView>,
    k: int,
)
    requires
        task.partition == Some(slots),
    ensures
        (forall|c: int|
            #![trigger cols[c]]
            0 <= c < cols.len() && cols[c].output_dtype is Utf8 && 0 <= cols[c].spec_field_idx
                < slots@.len() ==> (slots@[cols[c].spec_field_idx] matches Some(literal)
                ==> literal.fits_array())) ==> fits_arrays(
            task,
            Some(PartitionKeysView::Identity(cols)),
        ),
        fits_arrays(task, Some(PartitionKeysView::Identity(cols))) && 0 <= k < cols.len()
            && cols[k].output_dtype is Utf8 && 0 <= cols[k].spec_field_idx < slots@.len() ==> (
        slots@[cols[k].spec_field_idx] matches Some(literal) ==> literal.fits_array()),
{
    if fits_arrays(task, Some(PartitionKeysView::Identity(cols))) && 0 <= k < cols.len() {
        assert(key_fits(slots@, cols[k]));
    }
}

/// All tasks fit where each does.
pub proof fn law_all_fit_where_each_does(
    tasks: Seq<FileScanTask>,
    keys: Option<PartitionKeysView>,
    i: int,
)
    ensures
        (forall|j: int| 0 <= j < tasks.len() ==> fits_arrays(#[trigger] tasks[j], keys))
            ==> all_fit_arrays(tasks, keys),
        all_fit_arrays(tasks, keys) && 0 <= i < tasks.len() ==> fits_arrays(tasks[i], keys),
{
}

}
