//! What a scan asks of its table, and which tasks each output partition reads.

use std::sync::Arc;

use datafusion::arrow::datatypes::Schema as ArrowSchema;
use iceberg::expr::Predicate;
use vstd::multiset::Multiset;
use vstd::prelude::*;

use crate::arrow::{
    field_count, field_name, in_bounds, project, schema_fields, schema_metadata, select_fields,
};
use crate::error::PlanError;
use crate::task::{
    groups_view, lemma_pooled_empty, lemma_pooled_push, pooled, FileScanTask,
};
use crate::text::{append_decimal, decimal};

verus! {

/// Whether a projection selects fields that the schema has.
pub open spec fn valid_projection(projection: Option<&Vec<usize>>, schema: ArrowSchema) -> bool {
    projection matches Some(indices) ==> in_bounds(indices@, schema_fields(schema).len())
}

/// Whether `output` is `schema` after projection: the whole of it, or the selected
/// fields in the order of the projection, under the metadata of the schema.
pub open spec fn is_projected(
    output: ArrowSchema,
    schema: ArrowSchema,
    projection: Option<&Vec<usize>>,
) -> bool {
    match projection {
        Some(indices) => {
            &&& schema_fields(output) == select_fields(schema_fields(schema), indices@)
            &&& schema_metadata(output) == schema_metadata(schema)
        },
        None => output == schema,
    }
}

/// Tells whether a projection selects fields that the schema has.
pub fn projection_fits(schema: &ArrowSchema, projection: Option<&Vec<usize>>) -> (fits: bool)
    ensures
        fits == valid_projection(projection, *schema),
{
    if let Some(indices) = projection {
        let count = field_count(schema);
        for k in 0..indices.len()
            invariant
                projection == Some(indices),
                count == schema_fields(*schema).len(),
                forall|j: int| 0 <= j < k ==> (#[trigger] indices@[j]) < count,
        {
            if indices[k] >= count {
                assert(indices@[k as int] >= count);
                return false;
            }
        }
    }
    true
}

/// The names that a list of names holds.
pub open spec fn names_view(names: Option<Vec<String>>) -> Option<Seq<Seq<char>>> {
    match names {
        Some(names) => Some(names@.map_values(|name: String| name@)),
        None => None,
    }
}

/// Names of the projected columns, `None` for all columns.
pub open spec fn projected_names(schema: ArrowSchema, projection: Option<&Vec<usize>>) -> Option<
    Seq<Seq<char>>,
> {
    match projection {
        Some(indices) => Some(
            indices@.map_values(|i: usize| schema_fields(schema)[i as int].name),
        ),
        None => None,
    }
}

pub fn get_column_names(schema: &ArrowSchema, projection: Option<&Vec<usize>>) -> (names: Option<
    Vec<String>,
>)
    requires
        valid_projection(projection, *schema),
    ensures
        names_view(names) == projected_names(*schema, projection),
{
    match projection {
        Some(indices) => {
            let mut names: Vec<String> = Vec::with_capacity(indices.len());
            for k in 0..indices.len()
                invariant
                    in_bounds(indices@, schema_fields(*schema).len()),
                    names@.len() == k,
                    forall|j: int|
                        0 <= j < k ==> (#[trigger] names@[j])@ == schema_fields(
                            *schema,
                        )[indices@[j] as int].name,
            {
                names.push(field_name(schema, indices[k]));
            }
            assert(names_view(Some(names)) =~= projected_names(*schema, projection)) by {
                assert(names@.map_values(|name: String| name@) =~= indices@.map_values(
                    |i: usize| schema_fields(*schema)[i as int].name,
                ));
            }
            Some(names)
        },
        None => None,
    }
}

/// Snapshot, projection, output schema and pushed predicates of a scan.
#[derive(Clone, Debug)]
pub struct IcebergScanConfig {
    /// Snapshot of the table to scan.
    pub snapshot_id: Option<i64>,
    /// Output schema after projection.
    pub output_schema: Arc<ArrowSchema>,
    /// Projection column names, None means all columns.
    pub column_names: Option<Vec<String>>,
    /// Filters to apply to the table scan.
    pub predicates: Option<Predicate>,
}

impl IcebergScanConfig {
    /// A scan of the projected columns of a table with this Arrow schema.
    pub fn new(
        schema: Arc<ArrowSchema>,
        snapshot_id: Option<i64>,
        projection: Option<&Vec<usize>>,
        predicates: Option<Predicate>,
    ) -> (config: Self)
        requires
            valid_projection(projection, *schema),
        ensures
            config.snapshot_id == snapshot_id,
            config.predicates == predicates,
            names_view(config.column_names) == projected_names(*schema, projection),
            is_projected(*config.output_schema, *schema, projection),
    {
        let output_schema = match projection {
            None => schema.clone(),
            Some(indices) => Arc::new(project(&schema, indices)),
        };
        IcebergScanConfig {
            snapshot_id,
            output_schema,
            column_names: get_column_names(&schema, projection),
            predicates,
        }
    }

    pub fn snapshot_id(&self) -> (id: Option<i64>)
        ensures
            id == self.snapshot_id,
    {
        self.snapshot_id
    }

    pub fn output_schema(&self) -> (schema: Arc<ArrowSchema>)
        ensures
            schema == self.output_schema,
    {
        self.output_schema.clone()
    }

    pub fn column_names(&self) -> (names: Option<&Vec<String>>)
        ensures
            match names {
                Some(n) => self.column_names == Some(*n),
                None => self.column_names is None,
            },
    {
        self.column_names.as_ref()
    }

    pub fn predicates(&self) -> (predicates: Option<&Predicate>)
        ensures
            match predicates {
                Some(p) => self.predicates == Some(*p),
                None => self.predicates is None,
            },
    {
        self.predicates.as_ref()
    }
}

/// What the table scan behind a query is built with.
#[derive(Debug)]
pub struct TableScanRequest<'a> {
    /// The snapshot to scan, `None` for the current one.
    pub snapshot_id: Option<i64>,
    /// The columns to select, `None` for all columns.
    pub column_names: Option<&'a Vec<String>>,
    /// The filter to apply.
    pub filter: Option<&'a Predicate>,
}

impl<'a> TableScanRequest<'a> {
    /// Whether this is the request that follows from `config`.
    pub open spec fn follows_from(&self, config: IcebergScanConfig) -> bool {
        &&& self.snapshot_id == config.snapshot_id
        &&& match self.column_names {
            Some(names) => config.column_names == Some(*names),
            None => config.column_names is None,
        }
        &&& match self.filter {
            Some(filter) => config.predicates == Some(*filter),
            None => config.predicates is None,
        }
    }
}

/// What the table scan is built with, on the eager and on the lazy path alike.
pub fn build_table_scan(scan_config: &IcebergScanConfig) -> (request: TableScanRequest<'_>)
    ensures
        request.follows_from(*scan_config),
        request.snapshot_id == scan_config.snapshot_id,
        request.column_names is Some == scan_config.column_names is Some,
        request.column_names matches Some(names) ==> scan_config.column_names == Some(*names),
        request.filter is Some == scan_config.predicates is Some,
        request.filter matches Some(filter) ==> scan_config.predicates == Some(*filter),
{
    TableScanRequest {
        snapshot_id: scan_config.snapshot_id(),
        column_names: scan_config.column_names(),
        filter: scan_config.predicates(),
    }
}

/// Each field of a projected schema equals the field that the projection selects,
/// and the projected names are those of the fields.
pub proof fn law_output_fields_are_selected(
    output: ArrowSchema,
    schema: ArrowSchema,
    projection: Option<&Vec<usize>>,
    i: int,
)
    requires
        is_projected(output, schema, projection),
        projection matches Some(indices) && 0 <= i < indices@.len(),
    ensures
        projection matches Some(indices) && {
            &&& schema_fields(output).len() == indices@.len()
            &&& schema_fields(output)[i] == schema_fields(schema)[indices@[i] as int]
            &&& projected_names(schema, projection) matches Some(names)
            &&& names.len() == indices@.len()
            &&& names[i] == schema_fields(output)[i].name
        },
{
}

/// Requests that follow from one configuration are the same: the eager and the
/// lazy path cannot ask for different scans.
pub proof fn law_one_request_per_config(
    a: TableScanRequest<'_>,
    b: TableScanRequest<'_>,
    config: IcebergScanConfig,
)
    requires
        a.follows_from(config),
        b.follows_from(config),
    ensures
        a == b,
{
}

/// How many groups `len` tasks are spread over: as many as asked for, but no
/// more than there are tasks and at least one.
pub open spec fn group_count(len: nat, target_partitions: nat) -> nat {
    if len == 0 || target_partitions == 0 {
        1
    } else if target_partitions < len {
        target_partitions
    } else {
        len
    }
}

/// How many of `len` tasks, dealt in turn to `n` groups, go to group `g`.
pub open spec fn share(len: nat, n: nat, g: int) -> nat {
    if g < len % n {
        len / n + 1
    } else {
        len / n
    }
}

/// Every `n`th task from task `g` on.
pub open spec fn every_nth(tasks: Seq<FileScanTask>, n: nat, g: int) -> Seq<FileScanTask> {
    Seq::new(share(tasks.len(), n, g), |k: int| tasks[g + k * n])
}

/// The groups that tasks dealt in turn to `n` groups make up.
pub open spec fn dealt(tasks: Seq<FileScanTask>, n: nat) -> Seq<Seq<FileScanTask>> {
    Seq::new(n, |g: int| every_nth(tasks, n, g))
}

/// One more task goes to the end of the group whose turn it is.
pub proof fn lemma_dealt_push(tasks: Seq<FileScanTask>, task: FileScanTask, n: nat)
    requires
        n > 0,
    ensures
        dealt(tasks.push(task), n) == dealt(tasks, n).update(
            tasks.len() as int % n as int,
            every_nth(tasks, n, tasks.len() as int % n as int).push(task),
        ),
{
    let len = tasks.len() as int;
    let m = n as int;
    let turn = len % m;
    let q = len / m;
    assert(len == m * q + turn && 0 <= turn < m && q >= 0) by (nonlinear_arith)
        requires
            m > 0,
            len >= 0,
            turn == len % m,
            q == len / m,
    ;
    if turn + 1 < m {
        assert((len + 1) / m == q && (len + 1) % m == turn + 1) by (nonlinear_arith)
            requires
                len == m * q + turn,
                0 <= turn,
                turn + 1 < m,
        ;
    } else {
        assert((len + 1) / m == q + 1 && (len + 1) % m == 0) by (nonlinear_arith)
            requires
                len == m * q + turn,
                turn + 1 == m,
                m > 0,
        ;
    }
    let pushed = dealt(tasks, n).update(turn, every_nth(tasks, n, turn).push(task));
    assert forall|g: int| 0 <= g < n implies dealt(tasks.push(task), n)[g] == pushed[g] by {
        let now = every_nth(tasks.push(task), n, g);
        assert forall|k: int| 0 <= k < share(tasks.len(), n, g) implies #[trigger] now[k]
            == every_nth(tasks, n, g)[k] by {
            assert(0 <= g + k * m < len) by (nonlinear_arith)
                requires
                    len == m * q + turn,
                    0 <= g < m,
                    0 <= k,
                    0 <= turn < m,
                    q >= 0,
                    k < q || (k == q && g < turn),
            ;
        }
        if g == turn {
            assert(q * m == m * q) by (nonlinear_arith);
            assert(now =~= every_nth(tasks, n, g).push(task));
        } else {
            assert(now =~= every_nth(tasks, n, g));
        }
    }
    assert(dealt(tasks.push(task), n) =~= pushed);
}

/// Groups file scan tasks into `target_partitions` groups by dealing them in
/// turn. There are no more groups than tasks.
pub fn group_file_scan_tasks_round_robin(
    tasks: Vec<FileScanTask>,
    target_partitions: usize,
) -> (groups: Vec<Vec<FileScanTask>>)
    ensures
        groups_view(groups@) == dealt(
            tasks@,
            group_count(tasks@.len(), target_partitions as nat),
        ),
{
    if tasks.len() == 0 {
        let mut groups: Vec<Vec<FileScanTask>> = Vec::new();
        groups.push(Vec::new());
        assert(groups@[0]@ =~= every_nth(tasks@, 1, 0));
        assert(groups_view(groups@) =~= dealt(tasks@, 1));
        return groups;
    }
    let mut n: usize = target_partitions;
    if n < 1 {
        n = 1;
    }
    if n > tasks.len() {
        n = tasks.len();
    }
    let ghost all = tasks@;
    let mut groups: Vec<Vec<FileScanTask>> = Vec::new();
    for g in 0..n
        invariant
            groups@.len() == g,
            forall|j: int| 0 <= j < g ==> (#[trigger] groups@[j])@.len() == 0,
    {
        groups.push(Vec::new());
    }
    proof {
        lemma_dealt_none(n as nat);
        assert(all.take(0) =~= Seq::<FileScanTask>::empty());
        assert forall|g: int| 0 <= g < n implies groups_view(groups@)[g] == dealt(
            all.take(0),
            n as nat,
        )[g] by {
            assert(groups@[g]@ =~= Seq::<FileScanTask>::empty());
        }
        assert(groups_view(groups@) =~= dealt(all.take(0), n as nat));
    }
    let mut i: usize = 0;
    for task in it: tasks
        invariant
            it.seq() == all,
            i == it.index(),
            all.len() <= usize::MAX,
            0 < n <= all.len(),
            groups_view(groups@) == dealt(all.take(i as int), n as nat),
    {
        let ghost before = groups@;
        proof {
            lemma_dealt_push(all.take(i as int), task, n as nat);
            assert(all.take(i + 1) =~= all.take(i as int).push(task));
            assert(groups_view(before).len() == n);
        }
        groups[i % n].push(task);
        assert(groups_view(groups@) =~= groups_view(before).update(
            i as int % n as int,
            groups_view(before)[i as int % n as int].push(task),
        ));
        i = i + 1;
    }
    assert(all.take(all.len() as int) =~= all);
    groups
}

/// Without tasks every group is empty.
pub proof fn lemma_dealt_none(n: nat)
    requires
        n > 0,
    ensures
        forall|g: int| 0 <= g < n ==> (#[trigger] dealt(Seq::empty(), n)[g]) == Seq::<
            FileScanTask,
        >::empty(),
{
    assert forall|g: int| 0 <= g < n implies (#[trigger] dealt(Seq::empty(), n)[g]) == Seq::<
        FileScanTask,
    >::empty() by {
        assert(0int % n as int == 0 && 0int / n as int == 0) by (nonlinear_arith)
            requires
                n > 0,
        ;
        assert(every_nth(Seq::empty(), n, g) =~= Seq::<FileScanTask>::empty());
    }
}

/// Number of tasks in all groups.
pub open spec fn total_tasks(groups: Seq<Seq<FileScanTask>>) -> nat
    decreases groups.len(),
{
    if groups.len() == 0 {
        0
    } else {
        total_tasks(groups.drop_last()) + groups.last().len()
    }
}

/// The first groups have no more tasks than all groups.
proof fn lemma_total_tasks_grows(groups: Seq<Seq<FileScanTask>>, k: int)
    requires
        0 <= k <= groups.len(),
    ensures
        total_tasks(groups.take(k)) <= total_tasks(groups),
    decreases groups.len() - k,
{
    if k < groups.len() {
        lemma_total_tasks_grows(groups, k + 1);
        assert(groups.take(k + 1).drop_last() =~= groups.take(k));
    } else {
        assert(groups.take(k) =~= groups);
    }
}

/// What is said of a partition that a scan does not have.
pub open spec fn missing_partition_text(partition: nat, count: nat) -> Seq<char> {
    "IcebergTableScan partition "@ + decimal(partition) + " does not exist; scan has "@ + decimal(
        count,
    ) + " partitions"@
}

/// The error for a partition that a scan does not have.
pub fn missing_partition(partition: usize, count: usize) -> (error: PlanError)
    ensures
        error matches PlanError::Internal(message) && message@ == missing_partition_text(
            partition as nat,
            count as nat,
        ),
{
    let mut message = "IcebergTableScan partition ".to_owned();
    append_decimal(&mut message, partition as u128);
    message.append(" does not exist; scan has ");
    append_decimal(&mut message, count as u128);
    message.append(" partitions");
    PlanError::Internal(message)
}

/// How many data files each output partition reads at a time. Eager planning
/// lets DataFusion drive scan concurrency via output partitions, so one data
/// file is in flight per partition.
pub const DATA_FILE_CONCURRENCY_LIMIT: usize = 1;

/// What an output partition reads.
#[derive(Debug)]
pub struct PartitionRead<'a> {
    /// The table scan whose reader settings apply.
    pub table_scan: TableScanRequest<'a>,
    /// The tasks to read, in order.
    pub tasks: &'a Vec<FileScanTask>,
    /// How many data files may be read at a time.
    pub data_file_concurrency_limit: usize,
}

/// Result of eager scan planning: the configuration of the table scan that
/// planned the file scan tasks, alongside those tasks grouped per output
/// partition.
#[derive(Debug)]
pub struct EagerScanPlan {
    /// The scan that planned `task_groups`. Retained so that every output
    /// partition builds its reader from this same scan.
    pub scan_config: IcebergScanConfig,
    /// Planned file scan tasks, one group per output partition.
    pub task_groups: Vec<Vec<FileScanTask>>,
}

impl EagerScanPlan {
    /// Number of output partitions, i.e. the number of task groups.
    pub fn partition_count(&self) -> (count: usize)
        ensures
            count == self.task_groups@.len(),
    {
        self.task_groups.len()
    }

    /// Total number of planned file scan tasks across all partitions.
    pub fn task_count(&self) -> (count: usize)
        requires
            total_tasks(groups_view(self.task_groups@)) <= usize::MAX,
        ensures
            count == total_tasks(groups_view(self.task_groups@)),
    {
        let ghost groups = groups_view(self.task_groups@);
        let mut count: usize = 0;
        for k in 0..self.task_groups.len()
            invariant
                groups == groups_view(self.task_groups@),
                total_tasks(groups) <= usize::MAX,
                count == total_tasks(groups.take(k as int)),
        {
            proof {
                lemma_total_tasks_grows(groups, k + 1);
                assert(groups.take(k + 1).drop_last() =~= groups.take(k as int));
            }
            count = count + self.task_groups[k].len();
        }
        assert(groups.take(groups.len() as int) =~= groups);
        count
    }

    /// What the partition `partition` reads: its task group, with the reader
    /// settings of the scan that planned it.
    pub fn read(&self, partition: usize) -> (read: Result<PartitionRead<'_>, PlanError>)
        ensures
            match read {
                Ok(r) => {
                    &&& partition < self.task_groups@.len()
                    &&& r.table_scan.follows_from(self.scan_config)
                    &&& *r.tasks == self.task_groups@[partition as int]
                    &&& r.data_file_concurrency_limit == DATA_FILE_CONCURRENCY_LIMIT
                    &&& r.data_file_concurrency_limit == 1
                },
                Err(e) => {
                    &&& partition >= self.task_groups@.len()
                    &&& e matches PlanError::Internal(message)
                    &&& message@ == missing_partition_text(
                        partition as nat,
                        self.task_groups@.len(),
                    )
                },
            },
    {
        if partition < self.task_groups.len() {
            Ok(
                PartitionRead {
                    table_scan: build_table_scan(&self.scan_config),
                    tasks: &self.task_groups[partition],
                    data_file_concurrency_limit: DATA_FILE_CONCURRENCY_LIMIT,
                },
            )
        } else {
            Err(missing_partition(partition, self.partition_count()))
        }
    }
}

/// Groups the tasks that the table scan of `scan_config` planned.
pub fn plan_eager_scan(
    scan_config: IcebergScanConfig,
    tasks: Vec<FileScanTask>,
    target_partitions: usize,
) -> (plan: EagerScanPlan)
    ensures
        plan.scan_config == scan_config,
        groups_view(plan.task_groups@) == dealt(
            tasks@,
            group_count(tasks@.len(), target_partitions as nat),
        ),
{
    EagerScanPlan {
        scan_config,
        task_groups: group_file_scan_tasks_round_robin(tasks, target_partitions),
    }
}

/// Dealing tasks keeps every task as often as it was planned, and adds nothing.
pub proof fn law_dealt_keeps_tasks(tasks: Seq<FileScanTask>, n: nat)
    requires
        n > 0,
    ensures
        pooled(dealt(tasks, n)) == tasks.to_multiset(),
    decreases tasks.len(),
{
    broadcast use vstd::seq_lib::group_to_multiset_ensures;

    if tasks.len() == 0 {
        assert(tasks =~= Seq::<FileScanTask>::empty());
        lemma_dealt_none(n);
        assert forall|g: int| 0 <= g < n implies (#[trigger] dealt(tasks, n)[g]).len() == 0 by {}
        lemma_pooled_empty(dealt(tasks, n));
        assert(tasks.to_multiset() =~= Multiset::<FileScanTask>::empty());
    } else {
        let fewer = tasks.drop_last();
        law_dealt_keeps_tasks(fewer, n);
        lemma_dealt_push(fewer, tasks.last(), n);
        vstd::arithmetic::div_mod::lemma_mod_bound(fewer.len() as int, n as int);
        lemma_pooled_push(dealt(fewer, n), fewer.len() as int % n as int, tasks.last());
        assert(fewer.push(tasks.last()) =~= tasks);
    }
}

/// Task `i` is in group `i % n`, after `i / n` other tasks.
pub proof fn law_dealt_in_turn(tasks: Seq<FileScanTask>, n: nat, i: int)
    requires
        n > 0,
        0 <= i < tasks.len(),
    ensures
        (i / n as int) < dealt(tasks, n)[i % n as int].len(),
        dealt(tasks, n)[i % n as int][i / n as int] == tasks[i],
{
    let m = n as int;
    let len = tasks.len() as int;
    let g = i % m;
    let k = i / m;
    assert(0 <= g < m && 0 <= k && i == g + k * m && (k < len / m || (k == len / m && g < len % m)))
        by (nonlinear_arith)
        requires
            m > 0,
            0 <= i < len,
            g == i % m,
            k == i / m,
    ;
}

/// The sizes of any two groups differ by one task at most.
pub proof fn law_dealt_evenly(tasks: Seq<FileScanTask>, n: nat, g: int, h: int)
    requires
        n > 0,
        0 <= g < n,
        0 <= h < n,
    ensures
        dealt(tasks, n)[g].len() <= dealt(tasks, n)[h].len() + 1,
{
}

/// A scan that has tasks leaves no group empty.
pub proof fn law_no_idle_group(tasks: Seq<FileScanTask>, target_partitions: nat, g: int)
    requires
        tasks.len() > 0,
        0 <= g < group_count(tasks.len(), target_partitions),
    ensures
        dealt(tasks, group_count(tasks.len(), target_partitions))[g].len() > 0,
{
    let len = tasks.len() as int;
    let m = group_count(tasks.len(), target_partitions) as int;
    assert(len / m > 0) by (nonlinear_arith)
        requires
            0 < m <= len,
    ;
}

/// There is always a group, and never more groups than tasks or than asked for,
/// unless none were asked for or planned.
pub proof fn law_group_count(len: nat, target_partitions: nat)
    ensures
        group_count(len, target_partitions) >= 1,
        len > 0 ==> group_count(len, target_partitions) <= len,
        target_partitions > 0 ==> group_count(len, target_partitions) <= target_partitions,
{
}

/// The groups hold as many tasks as were planned.
pub proof fn law_dealt_task_count(tasks: Seq<FileScanTask>, n: nat)
    requires
        n > 0,
    ensures
        total_tasks(dealt(tasks, n)) == tasks.len(),
{
    broadcast use vstd::seq_lib::group_to_multiset_ensures;

    law_dealt_keeps_tasks(tasks, n);
    lemma_total_tasks_pooled(dealt(tasks, n));
}

/// The number of tasks in all groups is that of the tasks pooled.
pub proof fn lemma_total_tasks_pooled(groups: Seq<Seq<FileScanTask>>)
    ensures
        total_tasks(groups) == pooled(groups).len(),
    decreases groups.len(),
{
    broadcast use vstd::seq_lib::group_to_multiset_ensures;

    if groups.len() > 0 {
        lemma_total_tasks_pooled(groups.drop_last());
    }
}

/// The number of groups is the largest that leaves none idle and is no more than
/// asked for, and one where there is nothing to spread or nothing asked for.
pub proof fn law_group_count_is_the_largest(len: nat, target_partitions: nat, m: nat)
    ensures
        1 <= m <= len && m <= target_partitions ==> m <= group_count(len, target_partitions),
        len > 0 && target_partitions > 0 ==> group_count(len, target_partitions) <= len
            && group_count(len, target_partitions) <= target_partitions,
        len == 0 || target_partitions == 0 ==> group_count(len, target_partitions) == 1,
{
}

/// There are as many groups as asked for, and no group has a task that was not
/// dealt to it: its task `k` is the one that came after `k` full rounds.
pub proof fn law_group_takes_its_turns(tasks: Seq<FileScanTask>, n: nat, g: int, k: int)
    requires
        n > 0,
        0 <= g < n,
    ensures
        dealt(tasks, n).len() == n,
        0 <= k < dealt(tasks, n)[g].len() ==> g + k * n < tasks.len() && dealt(tasks, n)[g][k]
            == tasks[g + k * n],
        0 <= k && g + k * n < tasks.len() ==> k < dealt(tasks, n)[g].len(),
{
    let m = n as int;
    let len = tasks.len() as int;
    let q = len / m;
    let r = len % m;
    assert(len == m * q + r && 0 <= r < m && q >= 0) by (nonlinear_arith)
        requires
            m > 0,
            len >= 0,
            r == len % m,
            q == len / m,
    ;
    if 0 <= k {
        assert(g + k * m < len <==> (k < q || (k == q && g < r))) by (nonlinear_arith)
            requires
                len == m * q + r,
                0 <= r < m,
                0 <= g < m,
                0 <= k,
        ;
    }
}

/// A request asks for the snapshot, the columns and the filter of its
/// configuration, and for nothing more where there are none.
pub proof fn law_request_repeats_the_config(a: TableScanRequest<'_>, config: IcebergScanConfig)
    requires
        a.follows_from(config),
    ensures
        a.snapshot_id == config.snapshot_id,
        a.column_names matches Some(names) ==> config.column_names == Some(*names),
        a.column_names is None ==> config.column_names is None,
        a.filter matches Some(filter) ==> config.predicates == Some(*filter),
        a.filter is None ==> config.predicates is None,
{
}

/// Without a projection the output is the schema, and all columns are read.
pub proof fn law_no_projection_keeps_the_schema(output: ArrowSchema, schema: ArrowSchema)
    requires
        is_projected(output, schema, None),
    ensures
        output == schema,
        projected_names(schema, None) is None,
{
}

/// Projecting does not change what stands beside the fields.
pub proof fn law_projection_keeps_schema_metadata(
    output: ArrowSchema,
    schema: ArrowSchema,
    projection: Option<&Vec<usize>>,
)
    requires
        is_projected(output, schema, projection),
    ensures
        schema_metadata(output) == schema_metadata(schema),
{
}

/// A projection is refused only for an index that the schema does not have.
pub proof fn law_projection_fits_unless_out_of_bounds(
    indices: &Vec<usize>,
    schema: ArrowSchema,
    k: int,
)
    ensures
        valid_projection(None, schema),
        valid_projection(Some(indices), schema) && 0 <= k < indices@.len() ==> indices@[k]
            < schema_fields(schema).len(),
        (forall|i: int|
            0 <= i < indices@.len() ==> (#[trigger] indices@[i]) < schema_fields(schema).len())
            ==> valid_projection(Some(indices), schema),
{
}

/// Names are shown in order, each as it is.
pub proof fn law_names_are_shown_in_order(names: Vec<String>, i: int)
    ensures
        names_view(None) is None,
        names_view(Some(names)) matches Some(shown) && shown.len() == names@.len() && (0 <= i
            < names@.len() ==> shown[i] == names@[i]@),
{
}

/// One more group adds its tasks to the count, and without groups there are none.
pub proof fn law_task_count_adds_up(groups: Seq<Seq<FileScanTask>>, group: Seq<FileScanTask>)
    ensures
        total_tasks(Seq::empty()) == 0,
        total_tasks(groups.push(group)) == total_tasks(groups) + group.len(),
{
    assert(groups.push(group).drop_last() =~= groups);
}

/// The message for a missing partition names the partition and the count.
pub proof fn law_missing_partition_is_named(partition: nat, count: nat)
    ensures
        missing_partition_text(partition, count) == "IcebergTableScan partition "@ + decimal(
            partition,
        ) + " does not exist; scan has "@ + decimal(count) + " partitions"@,
{
}

}
