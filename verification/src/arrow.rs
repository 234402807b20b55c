//! Arrow schemas and single-value Arrow arrays, as far as scan planning reads
//! and builds them.

use datafusion::arrow::array::{
    make_array, Array, ArrayData, ArrayRef, BooleanArray, Date32Array, Float32Array, Float64Array,
    Int32Array, Int64Array, StringArray,
};
use datafusion::arrow::buffer::Buffer;
use datafusion::arrow::datatypes::Schema;
use datafusion::common::hash_utils::create_hashes;
use datafusion::physical_plan::repartition::REPARTITION_RANDOM_STATE;
use vstd::prelude::*;
use vstd::utf8::encode_utf8;

verus! {

/// The Arrow types that scan planning tells apart.
#[derive(Clone, Debug, PartialEq, Eq)]
pub enum DataType {
    Boolean,
    Int32,
    Int64,
    Float32,
    Float64,
    Utf8,
    Date32,
    /// Any other Arrow type, by the text that Arrow displays it as.
    Other(String),
}

/// What an Arrow type is.
pub enum DataTypeView {
    Boolean,
    Int32,
    Int64,
    Float32,
    Float64,
    Utf8,
    Date32,
    /// Any other Arrow type, by the text that Arrow displays it as.
    Other(Seq<char>),
}

impl View for DataType {
    type V = DataTypeView;

    open spec fn view(&self) -> DataTypeView {
        match self {
            DataType::Boolean => DataTypeView::Boolean,
            DataType::Int32 => DataTypeView::Int32,
            DataType::Int64 => DataTypeView::Int64,
            DataType::Float32 => DataTypeView::Float32,
            DataType::Float64 => DataTypeView::Float64,
            DataType::Utf8 => DataTypeView::Utf8,
            DataType::Date32 => DataTypeView::Date32,
            DataType::Other(text) => DataTypeView::Other(text@),
        }
    }
}

/// A field of an Arrow schema: what Arrow compares two fields by.
pub struct FieldView {
    pub name: Seq<char>,
    pub data_type: DataTypeView,
    pub nullable: bool,
    pub metadata: Map<Seq<char>, Seq<char>>,
}

/// An item of an Arrow array, floats by their bits.
pub enum ItemView {
    Boolean(bool),
    Int32(i32),
    Date32(i32),
    Int64(i64),
    Float32(u32),
    Float64(u64),
    Utf8(Seq<char>),
    /// A null, or an item of an array of any other type.
    Other,
}

/// Arrow's `Schema`: a list of named and typed fields.
#[verifier::external_type_specification]
#[verifier::external_body]
pub struct ExSchema(Schema);

/// The fields of an Arrow schema, in order.
pub uninterp spec fn schema_fields(schema: Schema) -> Seq<FieldView>;

/// The metadata of an Arrow schema as a whole.
pub uninterp spec fn schema_metadata(schema: Schema) -> Map<Seq<char>, Seq<char>>;

/// Arrow's `ArrayData`: the contents of an array of any type.
#[verifier::external_type_specification]
#[verifier::external_body]
pub struct ExArrayData(ArrayData);

/// The items of an Arrow array, in order.
pub uninterp spec fn array_items(array: ArrayData) -> Seq<ItemView>;

/// Whether `position` is that of the first field called `name`.
pub open spec fn is_first_named(fields: Seq<FieldView>, name: Seq<char>, position: int) -> bool {
    &&& 0 <= position < fields.len()
    &&& fields[position].name == name
    &&& forall|k: int| 0 <= k < position ==> (#[trigger] fields[k]).name != name
}

/// Position of the first field called `name`.
pub open spec fn position_of(fields: Seq<FieldView>, name: Seq<char>) -> Option<int> {
    if exists|position: int| is_first_named(fields, name, position) {
        Some(choose|position: int| is_first_named(fields, name, position))
    } else {
        None
    }
}

/// There is at most one first field of a given name.
pub proof fn lemma_position_of(fields: Seq<FieldView>, name: Seq<char>, position: int)
    requires
        is_first_named(fields, name, position),
    ensures
        position_of(fields, name) == Some(position),
{
    let chosen = choose|p: int| is_first_named(fields, name, p);
    assert(is_first_named(fields, name, chosen));
    if chosen < position {
        assert(fields[chosen].name != name);
    } else if position < chosen {
        assert(fields[position].name != name);
    }
}

/// Whether every index selects a field of a schema of `len` fields.
pub open spec fn in_bounds(indices: Seq<usize>, len: nat) -> bool {
    forall|k: int| 0 <= k < indices.len() ==> (#[trigger] indices[k]) < len
}

/// The fields that `indices` select, in the order of the indices.
pub open spec fn select_fields(fields: Seq<FieldView>, indices: Seq<usize>) -> Seq<FieldView> {
    indices.map_values(|i: usize| fields[i as int])
}

/// `Schema::fields` and its length: how many fields the schema has.
#[verifier::external_body]
pub(crate) fn field_count(schema: &Schema) -> (count: usize)
    ensures
        count == schema_fields(*schema).len(),
{
    schema.fields().len()
}

/// `Schema::field` and `Field::name`: the name of the field at `index`. The
/// outside function panics where there is no such field.
#[verifier::external_body]
pub(crate) fn field_name(schema: &Schema, index: usize) -> (name: String)
    requires
        index < schema_fields(*schema).len(),
    ensures
        name@ == schema_fields(*schema)[index as int].name,
{
    schema.field(index).name().clone()
}

/// `Schema::field` and `Field::data_type`: the type of the field at `index`, in
/// its `Display` form where it is none of those told apart. The outside function
/// panics where there is no such field.
#[verifier::external_body]
pub(crate) fn field_data_type(schema: &Schema, index: usize) -> (data_type: DataType)
    requires
        index < schema_fields(*schema).len(),
    ensures
        data_type@ == schema_fields(*schema)[index as int].data_type,
{
    match schema.field(index).data_type() {
        datafusion::arrow::datatypes::DataType::Boolean => DataType::Boolean,
        datafusion::arrow::datatypes::DataType::Int32 => DataType::Int32,
        datafusion::arrow::datatypes::DataType::Int64 => DataType::Int64,
        datafusion::arrow::datatypes::DataType::Float32 => DataType::Float32,
        datafusion::arrow::datatypes::DataType::Float64 => DataType::Float64,
        datafusion::arrow::datatypes::DataType::Utf8 => DataType::Utf8,
        datafusion::arrow::datatypes::DataType::Date32 => DataType::Date32,
        other => DataType::Other(other.to_string()),
    }
}

/// `Schema::index_of`: the position of the first field called `name`, and an
/// error where no field has that name.
#[verifier::external_body]
pub(crate) fn index_of(schema: &Schema, name: &str) -> (index: Option<usize>)
    ensures
        match index {
            Some(i) => is_first_named(schema_fields(*schema), name@, i as int),
            None => forall|k: int|
                0 <= k < schema_fields(*schema).len() ==> (#[trigger] schema_fields(
                    *schema,
                )[k]).name != name@,
        },
{
    schema.index_of(name).ok()
}

/// `Schema::project`: a schema of the fields that `indices` select, in that
/// order, with the metadata of the schema. The outside function fails only on an
/// index past the last field.
#[verifier::external_body]
pub(crate) fn project(schema: &Schema, indices: &Vec<usize>) -> (projected: Schema)
    requires
        in_bounds(indices@, schema_fields(*schema).len()),
    ensures
        schema_fields(projected) == select_fields(schema_fields(*schema), indices@),
        schema_metadata(projected) == schema_metadata(*schema),
{
    schema.project(indices).unwrap()
}

/// `BooleanArray::from` a vector of one value: the array holds that value.
#[verifier::external_body]
pub(crate) fn boolean_array(value: bool) -> (array: ArrayData)
    ensures
        array_items(array) == seq![ItemView::Boolean(value)],
{
    BooleanArray::from(vec![value]).into_data()
}

/// `Int32Array::from` a vector of one value: the array holds that value.
#[verifier::external_body]
pub(crate) fn int32_array(value: i32) -> (array: ArrayData)
    ensures
        array_items(array) == seq![ItemView::Int32(value)],
{
    Int32Array::from(vec![value]).into_data()
}

/// `Date32Array::from` a vector of one value: the array holds that value.
#[verifier::external_body]
pub(crate) fn date32_array(value: i32) -> (array: ArrayData)
    ensures
        array_items(array) == seq![ItemView::Date32(value)],
{
    Date32Array::from(vec![value]).into_data()
}

/// `Int64Array::from` a vector of one value: the array holds that value.
#[verifier::external_body]
pub(crate) fn int64_array(value: i64) -> (array: ArrayData)
    ensures
        array_items(array) == seq![ItemView::Int64(value)],
{
    Int64Array::from(vec![value]).into_data()
}

/// `Float32Array::new` on a buffer of one value: the array holds the float with
/// those bits.
#[verifier::external_body]
pub(crate) fn float32_array(bits: u32) -> (array: ArrayData)
    ensures
        array_items(array) == seq![ItemView::Float32(bits)],
{
    Float32Array::new(Buffer::from_vec(vec![bits]).into(), None).into_data()
}

/// `Float64Array::new` on a buffer of one value: the array holds the float with
/// those bits.
#[verifier::external_body]
pub(crate) fn float64_array(bits: u64) -> (array: ArrayData)
    ensures
        array_items(array) == seq![ItemView::Float64(bits)],
{
    Float64Array::new(Buffer::from_vec(vec![bits]).into(), None).into_data()
}

/// `StringArray::from` a vector of one text: the array holds that text. The
/// outside function panics on a text whose byte count is no `i32`.
#[verifier::external_body]
pub(crate) fn string_array(value: &str) -> (array: ArrayData)
    requires
        encode_utf8(value@).len() <= i32::MAX,
    ensures
        array_items(array) == seq![ItemView::Utf8(value@)],
{
    StringArray::from(vec![value]).into_data()
}

/// Whether `array` holds one item, and an item that `hash_row` can hash.
pub open spec fn is_single(array: ArrayData) -> bool {
    array_items(array).len() == 1 && !(array_items(array)[0] is Other)
}

/// The row that single-item arrays make up, one column each.
pub open spec fn row_of(arrays: Seq<ArrayData>) -> Seq<ItemView> {
    arrays.map_values(|array: ArrayData| array_items(array)[0])
}

/// The hash that `create_hashes` gives to a row under the seed that DataFusion
/// repartitions by. The seed is a constant, so a row has the same hash in every
/// run of a build; the hash differs between targets of another word size or byte
/// order.
pub uninterp spec fn row_hash(row: Seq<ItemView>) -> u64;

/// `create_hashes` under `REPARTITION_RANDOM_STATE`, on columns of one row: it
/// succeeds on every type that an item can have here, and the row's hash is
/// `row_hash` of its items.
#[verifier::external_body]
pub(crate) fn hash_row(columns: &Vec<ArrayData>) -> (hash: Option<u64>)
    requires
        forall|k: int| 0 <= k < columns.len() ==> is_single(#[trigger] columns[k]),
    ensures
        hash == Some(row_hash(row_of(columns@))),
{
    let arrays: Vec<ArrayRef> = columns.iter().map(|c| make_array(c.clone())).collect();
    let mut hashes = vec![0u64; 1];
    create_hashes(&arrays, REPARTITION_RANDOM_STATE.random_state(), &mut hashes).ok()?;
    Some(hashes[0])
}

/// The position of a name is that of the first field that has it, and there is
/// one as soon as any field has it.
pub proof fn law_position_is_the_first(fields: Seq<FieldView>, name: Seq<char>, k: int)
    requires
        0 <= k < fields.len(),
    ensures
        fields[k].name == name ==> (position_of(fields, name) matches Some(p) && 0 <= p <= k
            && fields[p].name == name),
        position_of(fields, name) == Some(k) ==> fields[k].name == name,
{
    if fields[k].name == name {
        lemma_first_named(fields, name, k);
    }
    if position_of(fields, name) is Some {
        let p = choose|p: int| is_first_named(fields, name, p);
        assert(is_first_named(fields, name, p));
    }
}

/// Where a field has a name, some field up to it is the first to have it.
proof fn lemma_first_named(fields: Seq<FieldView>, name: Seq<char>, k: int)
    requires
        0 <= k < fields.len(),
        fields[k].name == name,
    ensures
        position_of(fields, name) matches Some(p) && 0 <= p <= k && fields[p].name == name,
    decreases k,
{
    if exists|j: int| 0 <= j < k && (#[trigger] fields[j]).name == name {
        let j = choose|j: int| 0 <= j < k && (#[trigger] fields[j]).name == name;
        lemma_first_named(fields, name, j);
    } else {
        assert(is_first_named(fields, name, k));
        lemma_position_of(fields, name, k);
    }
}

/// A row has one column per array, and in it the array's one item.
pub proof fn law_row_holds_the_items(arrays: Seq<ArrayData>, k: int)
    requires
        0 <= k < arrays.len(),
    ensures
        row_of(arrays).len() == arrays.len(),
        row_of(arrays)[k] == array_items(arrays[k])[0],
{
}

/// Each type is seen as itself, and any other by its own text.
pub proof fn law_types_are_seen_as_themselves(text: String)
    ensures
        DataType::Boolean@ == DataTypeView::Boolean,
        DataType::Int32@ == DataTypeView::Int32,
        DataType::Int64@ == DataTypeView::Int64,
        DataType::Float32@ == DataTypeView::Float32,
        DataType::Float64@ == DataTypeView::Float64,
        DataType::Utf8@ == DataTypeView::Utf8,
        DataType::Date32@ == DataTypeView::Date32,
        DataType::Other(text)@ == DataTypeView::Other(text@),
{
}

}
