//! File scan tasks: the parts of data files that a scan reads.

use vstd::multiset::Multiset;
use vstd::prelude::*;
use vstd::utf8::encode_utf8;

verus! {

/// A primitive partition value, floats by their bits.
#[derive(Clone, Debug, PartialEq, Eq)]
pub enum PrimitiveLiteral {
    Boolean(bool),
    Int(i32),
    Long(i64),
    Float(u32),
    Double(u64),
    String(String),
    Binary(Vec<u8>),
    Int128(i128),
    UInt128(u128),
    AboveMax,
    BelowMin,
}

/// A partition value.
#[derive(Clone, Debug, PartialEq, Eq)]
pub enum Literal {
    Primitive(PrimitiveLiteral),
    /// A struct, a list or a map.
    Nested,
}

/// A task to scan part of a data file.
#[derive(Clone, Debug, PartialEq, Eq)]
pub struct FileScanTask {
    /// Position of the task among those that the table scan planned, by which a
    /// reader finds the planned task again.
    pub ordinal: usize,
    pub data_file_path: String,
    /// First byte to scan.
    pub start: u64,
    /// Number of bytes to scan.
    pub length: u64,
    /// Size of the whole data file.
    pub file_size_in_bytes: u64,
    /// The file's partition tuple, one slot per field of the partition spec.
    pub partition: Option<Vec<Option<Literal>>>,
}

impl Literal {
    /// Whether a text value is within the size that a text array can hold.
    pub open spec fn fits_array(&self) -> bool {
        self matches Literal::Primitive(PrimitiveLiteral::String(text)) ==> encode_utf8(text@).len()
            <= i32::MAX
    }

    /// Tells whether a text value is within the size that a text array can hold.
    pub(crate) fn is_array_sized(&self) -> (fits: bool)
        ensures
            fits == self.fits_array(),
    {
        match self {
            Literal::Primitive(PrimitiveLiteral::String(text)) => {
                text.as_str().as_bytes().len() <= 0x7fff_ffff
            },
            _ => true,
        }
    }
}

/// The tasks of all groups together.
pub open spec fn pooled(groups: Seq<Seq<FileScanTask>>) -> Multiset<FileScanTask>
    decreases groups.len(),
{
    if groups.len() == 0 {
        Multiset::empty()
    } else {
        pooled(groups.drop_last()).add(groups.last().to_multiset())
    }
}

/// The groups as sequences of tasks.
pub open spec fn groups_view(groups: Seq<Vec<FileScanTask>>) -> Seq<Seq<FileScanTask>> {
    groups.map_values(|group: Vec<FileScanTask>| group@)
}

/// Adding a task to one group adds it once to the tasks of all groups.
pub proof fn lemma_pooled_push(groups: Seq<Seq<FileScanTask>>, g: int, task: FileScanTask)
    requires
        0 <= g < groups.len(),
    ensures
        pooled(groups.update(g, groups[g].push(task))) == pooled(groups).insert(task),
    decreases groups.len(),
{
    broadcast use vstd::seq_lib::group_to_multiset_ensures;

    let updated = groups.update(g, groups[g].push(task));
    if g == groups.len() - 1 {
        assert(updated.drop_last() =~= groups.drop_last());
        assert(pooled(updated) =~= pooled(groups).insert(task));
    } else {
        lemma_pooled_push(groups.drop_last(), g, task);
        assert(updated.drop_last() =~= groups.drop_last().update(
            g,
            groups.drop_last()[g].push(task),
        ));
        assert(pooled(updated) =~= pooled(groups).insert(task));
    }
}

/// Empty groups hold no task.
pub proof fn lemma_pooled_empty(groups: Seq<Seq<FileScanTask>>)
    requires
        forall|g: int| 0 <= g < groups.len() ==> (#[trigger] groups[g]).len() == 0,
    ensures
        pooled(groups) == Multiset::<FileScanTask>::empty(),
    decreases groups.len(),
{
    broadcast use vstd::seq_lib::group_to_multiset_ensures;

    if groups.len() > 0 {
        lemma_pooled_empty(groups.drop_last());
        assert(groups.last() =~= Seq::<FileScanTask>::empty());
        assert(pooled(groups) =~= Multiset::<FileScanTask>::empty());
    }
}

/// A view of groups has the tasks of each group, in order.
pub proof fn law_groups_view_shows_groups(groups: Seq<Vec<FileScanTask>>, g: int)
    ensures
        groups_view(groups).len() == groups.len(),
        0 <= g < groups.len() ==> groups_view(groups)[g] == groups[g]@,
{
}

/// Only the size of a text is bounded: its bytes are at most the largest `i32`.
pub proof fn law_only_texts_are_bounded(literal: Literal)
    ensures
        literal matches Literal::Primitive(PrimitiveLiteral::String(text)) ==> (
        literal.fits_array() <==> encode_utf8(text@).len() <= 0x7fff_ffff),
        !(literal matches Literal::Primitive(PrimitiveLiteral::String(_)))
            ==> literal.fits_array(),
{
}

}
