//! The leaf of a query plan that scans an Iceberg table.

use std::sync::Arc;

use datafusion::arrow::datatypes::Schema as ArrowSchema;
use iceberg::expr::Predicate;
use vstd::prelude::*;
use vstd::string::*;

use crate::error::PlanError;
use crate::metadata::Table;
use crate::partitioning::{Partitioning, PartitioningView};
use crate::physical_plan::display::{
    groups_text, total_planned_scan_bytes, DisplayFormatType, FileTaskGroupsDisplay,
};
use crate::physical_plan::limit::{law_limit_passes_exactly, passing_rows, total_rows, RowLimit};
use crate::physical_plan::scan_planning::{
    build_table_scan, missing_partition, missing_partition_text, names_view, IcebergScanConfig,
    PartitionRead, TableScanRequest, DATA_FILE_CONCURRENCY_LIMIT,
};
use crate::task::{groups_view, FileScanTask};
use crate::text::{append_decimal, decimal};

verus! {

/// When a plan hands out its rows.
#[derive(Clone, Copy, Debug, PartialEq, Eq, Structural)]
pub enum EmissionType {
    Incremental,
    Final,
    Both,
}

/// Whether a plan comes to an end.
#[derive(Clone, Copy, Debug, PartialEq, Eq, Structural)]
pub enum Boundedness {
    Bounded,
    Unbounded,
}

/// Properties of a plan that query optimization reads.
#[derive(Debug)]
pub struct PlanProperties {
    pub schema: Arc<ArrowSchema>,
    pub partitioning: Partitioning,
    pub emission_type: EmissionType,
    pub boundedness: Boundedness,
}

/// Where the tasks of an output partition come from.
#[derive(Debug)]
pub enum ScanExecution<'a> {
    /// Planned before: the partition reads its group of tasks.
    Eager(PartitionRead<'a>),
    /// Planned at execution: the partition plans and reads the whole scan.
    Lazy(TableScanRequest<'a>),
}

/// Manages the scanning process of an Iceberg table, encapsulating the
/// necessary details and computed properties required for execution planning.
#[derive(Debug)]
pub struct IcebergTableScan {
    /// A table in the catalog.
    pub table: Arc<Table>,
    /// Snapshot, projection, output schema, and pushed predicates for this scan.
    pub scan_config: IcebergScanConfig,
    /// Stores certain, often expensive to compute, plan properties used in query
    /// optimization.
    pub plan_properties: PlanProperties,
    /// Optional limit on the number of rows to return
    pub limit: Option<usize>,
    /// Pre-planned file scan tasks, grouped by partition. `None` keeps planning lazy.
    pub file_task_groups: Option<Vec<Vec<FileScanTask>>>,
}

/// The names of projected columns, separated by commas.
pub open spec fn comma_separated(names: Seq<Seq<char>>) -> Seq<char>
    decreases names.len(),
{
    if names.len() == 0 {
        ""@
    } else if names.len() == 1 {
        names[0]
    } else {
        comma_separated(names.drop_last()) + ","@ + names.last()
    }
}

fn append_comma_separated(f: &mut String, names: &Vec<String>)
    ensures
        final(f)@ == old(f)@ + comma_separated(names@.map_values(|name: String| name@)),
{
    let ghost all = names@.map_values(|name: String| name@);
    proof {
        reveal_strlit("");
        assert(f@ =~= old(f)@ + comma_separated(all.take(0)));
    }
    for k in 0..names.len()
        invariant
            all == names@.map_values(|name: String| name@),
            f@ == old(f)@ + comma_separated(all.take(k as int)),
    {
        if k > 0 {
            f.append(",");
        }
        f.append(names[k].as_str());
        proof {
            reveal_strlit("");
            assert(all.take(k + 1).drop_last() =~= all.take(k as int));
            assert(f@ =~= old(f)@ + comma_separated(all.take(k + 1)));
        }
    }
    assert(all.take(all.len() as int) =~= all);
}

proof fn lemma_append_parts(start: Seq<char>, a: Seq<char>, b: Seq<char>, c: Seq<char>)
    ensures
        start + a + b + c == start + (a + b + c),
{
    assert(start + a + b + c =~= start + (a + b + c));
}

impl IcebergTableScan {
    /// How many output partitions the scan has: one per group of tasks, and one
    /// where planning is lazy.
    pub open spec fn partitions(&self) -> nat {
        match self.file_task_groups {
            Some(groups) => groups@.len(),
            None => 1,
        }
    }

    /// Whether the declared properties are those of this scan.
    pub open spec fn wf(&self) -> bool {
        &&& self.plan_properties.partitioning@.count() == self.partitions()
        &&& self.plan_properties.schema == self.scan_config.output_schema
        &&& self.plan_properties.emission_type is Incremental
        &&& self.plan_properties.boundedness is Bounded
    }

    /// A scan that promises nothing of which row is in which partition.
    pub fn new(
        table: Arc<Table>,
        scan_config: IcebergScanConfig,
        limit: Option<usize>,
        file_task_groups: Option<Vec<Vec<FileScanTask>>>,
    ) -> (scan: Self)
        ensures
            scan.wf(),
            scan.table == table,
            scan.scan_config == scan_config,
            scan.limit == limit,
            scan.file_task_groups == file_task_groups,
            scan.plan_properties.partitioning@ == PartitioningView::UnknownPartitioning(
                scan.partitions(),
            ),
            scan.plan_properties.partitioning@ == PartitioningView::UnknownPartitioning(
                match file_task_groups {
                    Some(groups) => groups@.len(),
                    None => 1,
                },
            ),
            scan.plan_properties.schema == scan_config.output_schema,
            scan.plan_properties.emission_type is Incremental,
            scan.plan_properties.boundedness is Bounded,
    {
        let partition_count: usize = match &file_task_groups {
            Some(groups) => groups.len(),
            None => 1,
        };
        let plan_properties = Self::compute_properties(
            scan_config.output_schema(),
            Partitioning::UnknownPartitioning(partition_count),
        );
        IcebergTableScan { table, scan_config, plan_properties, limit, file_task_groups }
    }

    /// A scan of planned tasks under a declared partitioning.
    pub fn new_with_tasks(
        table: Arc<Table>,
        scan_config: IcebergScanConfig,
        limit: Option<usize>,
        file_task_groups: Vec<Vec<FileScanTask>>,
        partitioning: Partitioning,
    ) -> (scan: Self)
        requires
            partitioning@.count() == file_task_groups@.len(),
        ensures
            scan.wf(),
            scan.table == table,
            scan.scan_config == scan_config,
            scan.limit == limit,
            scan.file_task_groups == Some(file_task_groups),
            scan.plan_properties.partitioning == partitioning,
            scan.plan_properties.schema == scan_config.output_schema,
            scan.plan_properties.emission_type is Incremental,
            scan.plan_properties.boundedness is Bounded,
    {
        let plan_properties = Self::compute_properties(scan_config.output_schema(), partitioning);
        IcebergTableScan {
            table,
            scan_config,
            plan_properties,
            limit,
            file_task_groups: Some(file_task_groups),
        }
    }

    pub fn table(&self) -> (table: &Table)
        ensures
            *table == *self.table,
    {
        &self.table
    }

    pub fn snapshot_id(&self) -> (id: Option<i64>)
        ensures
            id == self.scan_config.snapshot_id,
    {
        self.scan_config.snapshot_id()
    }

    pub fn projection(&self) -> (names: Option<&Vec<String>>)
        ensures
            match names {
                Some(n) => self.scan_config.column_names == Some(*n),
                None => self.scan_config.column_names is None,
            },
    {
        self.scan_config.column_names()
    }

    pub fn predicates(&self) -> (predicates: Option<&Predicate>)
        ensures
            match predicates {
                Some(p) => self.scan_config.predicates == Some(*p),
                None => self.scan_config.predicates is None,
            },
    {
        self.scan_config.predicates()
    }

    pub fn limit(&self) -> (limit: Option<usize>)
        ensures
            limit == self.limit,
    {
        self.limit
    }

    pub fn scan_config(&self) -> (config: &IcebergScanConfig)
        ensures
            *config == self.scan_config,
    {
        &self.scan_config
    }

    pub fn file_task_groups(&self) -> (groups: Option<&Vec<Vec<FileScanTask>>>)
        ensures
            match groups {
                Some(g) => self.file_task_groups == Some(*g),
                None => self.file_task_groups is None,
            },
    {
        self.file_task_groups.as_ref()
    }

    /// Computes the properties used in query optimization.
    fn compute_properties(schema: Arc<ArrowSchema>, partitioning: Partitioning) -> (properties:
        PlanProperties)
        ensures
            properties.schema == schema,
            properties.partitioning == partitioning,
            properties.emission_type is Incremental,
            properties.boundedness is Bounded,
    {
        PlanProperties {
            schema,
            partitioning,
            emission_type: EmissionType::Incremental,
            boundedness: Boundedness::Bounded,
        }
    }

    pub fn name(&self) -> (name: &'static str)
        ensures
            name@ == "IcebergTableScan"@,
    {
        "IcebergTableScan"
    }

    pub fn properties(&self) -> (properties: &PlanProperties)
        ensures
            *properties == self.plan_properties,
    {
        &self.plan_properties
    }

    /// A scan is a leaf: it takes the place of itself without children, and
    /// refuses any.
    pub fn with_new_children(self: Arc<Self>, children: usize) -> (result: Result<
        Arc<Self>,
        PlanError,
    >)
        ensures
            match result {
                Ok(scan) => children == 0 && scan == self,
                Err(e) => {
                    &&& children > 0
                    &&& e matches PlanError::Internal(message)
                    &&& message@ == "IcebergTableScan is a leaf node and cannot have children"@
                },
            },
    {
        if children > 0 {
            return Err(
                PlanError::Internal(
                    "IcebergTableScan is a leaf node and cannot have children".to_owned(),
                ),
            );
        }
        Ok(self)
    }

    /// What the output partition `partition` does, and the bound on its rows. A
    /// lazy scan does not look at the partition number.
    pub fn execute(&self, partition: usize) -> (result: Result<
        (ScanExecution<'_>, Option<RowLimit>),
        PlanError,
    >)
        ensures
            match result {
                Ok((ScanExecution::Eager(read), bound)) => {
                    &&& self.file_task_groups matches Some(groups)
                    &&& partition < groups@.len()
                    &&& *read.tasks == groups@[partition as int]
                    &&& read.table_scan.follows_from(self.scan_config)
                    &&& read.data_file_concurrency_limit == DATA_FILE_CONCURRENCY_LIMIT
                    &&& bound == self.row_bound()
                },
                Ok((ScanExecution::Lazy(request), bound)) => {
                    &&& self.file_task_groups is None
                    &&& request.follows_from(self.scan_config)
                    &&& bound == self.row_bound()
                },
                Err(e) => {
                    &&& self.file_task_groups matches Some(groups)
                    &&& partition >= groups@.len()
                    &&& e matches PlanError::Internal(message)
                    &&& message@ == missing_partition_text(partition as nat, groups@.len())
                },
            },
            result matches Ok((_, bound)) ==> match self.limit {
                Some(limit) => bound matches Some(b) && b.remaining == limit,
                None => bound is None,
            },
            result matches Ok((ScanExecution::Eager(read), _))
                ==> read.data_file_concurrency_limit == 1,
    {
        let bound = match self.limit {
            Some(limit) => Some(RowLimit::new(limit)),
            None => None,
        };
        match &self.file_task_groups {
            Some(groups) => {
                if partition >= groups.len() {
                    return Err(missing_partition(partition, groups.len()));
                }
                let read = PartitionRead {
                    table_scan: build_table_scan(&self.scan_config),
                    tasks: &groups[partition],
                    data_file_concurrency_limit: DATA_FILE_CONCURRENCY_LIMIT,
                };
                Ok((ScanExecution::Eager(read), bound))
            },
            None => Ok((ScanExecution::Lazy(build_table_scan(&self.scan_config)), bound)),
        }
    }

    /// The bound on the rows of each output partition.
    pub open spec fn row_bound(&self) -> Option<RowLimit> {
        match self.limit {
            Some(limit) => Some(RowLimit { remaining: limit }),
            None => None,
        }
    }

    /// The projected columns, and the predicate where there is one, whose text is
    /// given.
    pub open spec fn columns_text(&self, predicate: Seq<char>) -> Seq<char> {
        "IcebergTableScan projection:["@ + (match names_view(self.scan_config.column_names) {
            Some(names) => comma_separated(names),
            None => ""@,
        }) + "] predicate:["@ + (match self.scan_config.predicates {
            Some(_) => predicate,
            None => ""@,
        }) + "]"@
    }

    /// The planned tasks, where there are any.
    pub open spec fn file_groups_text(&self, t: DisplayFormatType) -> Seq<char> {
        match self.file_task_groups {
            Some(groups) => " file_groups="@ + groups_text(groups_view(groups@), t),
            None => ""@,
        }
    }

    /// The limit, where there is one.
    pub open spec fn limit_text(&self) -> Seq<char> {
        match self.limit {
            Some(limit) => " limit:["@ + decimal(limit as nat) + "]"@,
            None => ""@,
        }
    }

    /// The text of the scan, given the text of its predicate.
    pub open spec fn text(&self, t: DisplayFormatType, predicate: Seq<char>) -> Seq<char> {
        self.columns_text(predicate) + self.file_groups_text(t) + self.limit_text()
    }

    /// Whether the planned bytes of the scan fit the counter that sums them.
    pub open spec fn planned_bytes_fit(&self) -> bool {
        self.file_task_groups matches Some(groups) ==> total_planned_scan_bytes(
            groups_view(groups@),
        ) <= u128::MAX
    }

    fn append_columns(&self, predicate: &str, f: &mut String)
        ensures
            final(f)@ == old(f)@ + self.columns_text(predicate@),
    {
        let ghost start = f@;
        f.append("IcebergTableScan projection:[");
        if let Some(names) = self.projection() {
            append_comma_separated(f, names);
        }
        f.append("] predicate:[");
        if self.predicates().is_some() {
            f.append(predicate);
        }
        f.append("]");
        proof {
            reveal_strlit("");
            assert(f@ =~= start + self.columns_text(predicate@));
        }
    }

    fn append_file_groups(&self, t: DisplayFormatType, f: &mut String)
        requires
            self.planned_bytes_fit(),
        ensures
            final(f)@ == old(f)@ + self.file_groups_text(t),
    {
        let ghost start = f@;
        if let Some(groups) = &self.file_task_groups {
            f.append(" file_groups=");
            FileTaskGroupsDisplay(groups).fmt_as(t, f);
        }
        proof {
            reveal_strlit("");
            assert(f@ =~= start + self.file_groups_text(t));
        }
    }

    fn append_limit(&self, f: &mut String)
        ensures
            final(f)@ == old(f)@ + self.limit_text(),
    {
        let ghost start = f@;
        if let Some(limit) = self.limit {
            f.append(" limit:[");
            append_decimal(f, limit as u128);
            f.append("]");
        }
        proof {
            reveal_strlit("");
            assert(f@ =~= start + self.limit_text());
        }
    }

    /// Appends the text of the scan to `f`, with `predicate` as the text of its
    /// predicate. Where the scan has none, `predicate` is not looked at.
    pub fn fmt_with_predicate(&self, t: DisplayFormatType, predicate: &str, f: &mut String)
        requires
            self.planned_bytes_fit(),
        ensures
            final(f)@ == old(f)@ + self.text(t, predicate@),
    {
        let ghost start = f@;
        self.append_columns(predicate, f);
        self.append_file_groups(t, f);
        self.append_limit(f);
        proof {
            lemma_append_parts(
                start,
                self.columns_text(predicate@),
                self.file_groups_text(t),
                self.limit_text(),
            );
        }
    }
}

/// Every partition is bounded by the whole limit, whether the scan is planned or
/// lazy, and by nothing where there is no limit.
pub proof fn law_each_partition_gets_the_whole_limit(scan: IcebergTableScan)
    ensures
        scan.limit matches Some(limit) ==> (scan.row_bound() matches Some(bound)
            && bound.remaining == limit),
        scan.limit is None ==> scan.row_bound() is None,
{
}

/// How a scan is spread over partitions does not change the bound of each.
pub proof fn law_grouping_does_not_change_the_bound(a: IcebergTableScan, b: IcebergTableScan)
    requires
        a.limit == b.limit,
    ensures
        a.row_bound() == b.row_bound(),
{
}

/// Rows of all partitions, given the batches of each.
pub open spec fn rows_of_partitions(partitions: Seq<Seq<nat>>) -> nat
    decreases partitions.len(),
{
    if partitions.len() == 0 {
        0
    } else {
        rows_of_partitions(partitions.drop_last()) + total_rows(partitions.last())
    }
}

/// Rows that all partitions hand out when each may hand out `limit`.
pub open spec fn rows_handed_out(partitions: Seq<Seq<nat>>, limit: nat) -> nat
    decreases partitions.len(),
{
    if partitions.len() == 0 {
        0
    } else {
        rows_handed_out(partitions.drop_last(), limit) + total_rows(
            passing_rows(limit, partitions.last()),
        )
    }
}

/// The bounds of the partitions never leave a query short: together they hand out
/// as many rows as the limit asks for, or all rows where there are fewer, however
/// the rows are spread.
pub proof fn law_bounded_partitions_fill_the_limit(
    scan: IcebergTableScan,
    partitions: Seq<Seq<nat>>,
)
    requires
        scan.limit is Some,
    ensures
        scan.row_bound() is Some,
        rows_handed_out(partitions, scan.row_bound()->0.remaining as nat) >= scan.limit->0
            || rows_handed_out(partitions, scan.row_bound()->0.remaining as nat)
            == rows_of_partitions(partitions),
{
    lemma_partitions_fill(partitions, scan.limit->0 as nat);
}

proof fn lemma_partitions_fill(partitions: Seq<Seq<nat>>, limit: nat)
    ensures
        rows_handed_out(partitions, limit) >= limit || rows_handed_out(partitions, limit)
            == rows_of_partitions(partitions),
    decreases partitions.len(),
{
    if partitions.len() > 0 {
        lemma_partitions_fill(partitions.drop_last(), limit);
        law_limit_passes_exactly(limit, partitions.last());
    }
}

/// A well-formed scan declares one partition per group of tasks, one where it is
/// lazy, and the schema that it projects to.
pub proof fn law_scan_declares_what_it_has(scan: IcebergTableScan)
    requires
        scan.wf(),
    ensures
        scan.file_task_groups matches Some(groups)
            ==> scan.plan_properties.partitioning@.count() == groups@.len(),
        scan.file_task_groups is None ==> scan.plan_properties.partitioning@.count() == 1,
        scan.plan_properties.schema == scan.scan_config.output_schema,
        scan.plan_properties.emission_type is Incremental,
        scan.plan_properties.boundedness is Bounded,
{
}

/// Names are separated by single commas: one more name comes behind one more
/// comma, and a single name stands alone.
pub proof fn law_names_are_comma_separated(names: Seq<Seq<char>>, name: Seq<char>)
    ensures
        comma_separated(Seq::empty()).len() == 0,
        comma_separated(seq![name]) == name,
        names.len() > 0 ==> comma_separated(names.push(name)) == comma_separated(names) + seq![','] + name,
{
    reveal_strlit("");
    reveal_strlit(",");
    assert(","@ =~= seq![',']);
    assert(names.push(name).drop_last() =~= names);
}

/// The text of a scan shows its columns, its predicate, its tasks and its limit,
/// each where it has them.
pub proof fn law_scan_text_shows_what_there_is(
    scan: IcebergTableScan,
    t: DisplayFormatType,
    predicate: Seq<char>,
)
    ensures
        ({
            let columns = match scan.scan_config.column_names {
                Some(names) => comma_separated(names@.map_values(|name: String| name@)),
                None => Seq::empty(),
            };
            let filter = if scan.scan_config.predicates is Some {
                predicate
            } else {
                Seq::empty()
            };
            let tasks = match scan.file_task_groups {
                Some(groups) => " file_groups="@ + groups_text(
                    groups@.map_values(|group: Vec<FileScanTask>| group@),
                    t,
                ),
                None => Seq::empty(),
            };
            let limit = match scan.limit {
                Some(l) => " limit:["@ + decimal(l as nat) + "]"@,
                None => Seq::empty(),
            };
            scan.text(t, predicate) == "IcebergTableScan projection:["@ + columns
                + "] predicate:["@ + filter + "]"@ + tasks + limit
        }),
{
    reveal_strlit("");
    assert(""@ =~= Seq::<char>::empty());
}

}
