//! How the rows of a plan are spread over its output partitions.

use vstd::prelude::*;

verus! {

/// A column of a plan's output schema.
#[derive(Clone, Debug, PartialEq, Eq)]
pub struct Column {
    pub name: String,
    /// Position of the column in the output schema.
    pub index: usize,
}

/// The name and the position of a column.
pub struct ColumnView {
    pub name: Seq<char>,
    pub index: int,
}

impl View for Column {
    type V = ColumnView;

    open spec fn view(&self) -> ColumnView {
        ColumnView { name: self.name@, index: self.index as int }
    }
}

/// The partitioning that a plan declares for its output.
#[derive(Clone, Debug, PartialEq, Eq)]
pub enum Partitioning {
    /// Rows with equal values in these columns are in the same one of so many
    /// partitions.
    Hash(Vec<Column>, usize),
    /// So many partitions, with nothing known of which row is in which.
    UnknownPartitioning(usize),
}

/// What a declared partitioning says.
pub enum PartitioningView {
    Hash(Seq<ColumnView>, nat),
    UnknownPartitioning(nat),
}

impl View for Partitioning {
    type V = PartitioningView;

    open spec fn view(&self) -> PartitioningView {
        match self {
            Partitioning::Hash(columns, n) => PartitioningView::Hash(
                columns@.map_values(|column: Column| column@),
                *n as nat,
            ),
            Partitioning::UnknownPartitioning(n) => PartitioningView::UnknownPartitioning(
                *n as nat,
            ),
        }
    }
}

impl PartitioningView {
    /// How many output partitions there are.
    pub open spec fn count(self) -> nat {
        match self {
            PartitioningView::Hash(_, n) => n,
            PartitioningView::UnknownPartitioning(n) => n,
        }
    }
}

impl Partitioning {
    pub fn partition_count(&self) -> (count: usize)
        ensures
            count == self@.count(),
    {
        match self {
            Partitioning::Hash(_, n) => *n,
            Partitioning::UnknownPartitioning(n) => *n,
        }
    }
}

/// What a partitioning says is its columns, each by name and position, and its
/// count.
pub proof fn law_partitioning_shows_columns_and_count(columns: Vec<Column>, n: usize, k: int)
    ensures
        Partitioning::Hash(columns, n)@ matches PartitioningView::Hash(shown, count) && {
            &&& count == n
            &&& shown.len() == columns@.len()
            &&& 0 <= k < shown.len() ==> shown[k].name == columns@[k].name@ && shown[k].index
                == columns@[k].index
        },
        Partitioning::UnknownPartitioning(n)@ matches PartitioningView::UnknownPartitioning(count)
            && count == n,
        Partitioning::Hash(columns, n)@.count() == n,
        Partitioning::UnknownPartitioning(n)@.count() == n,
{
}

}
