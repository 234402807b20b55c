//! Catalog-backed table provider.

use std::sync::Arc;

use datafusion::arrow::datatypes::Schema as ArrowSchema;
use iceberg::expr::Predicate;
use vstd::prelude::*;

use crate::arrow::{schema_fields, select_fields, FieldView};
use crate::config::{IcebergConfig, PartitioningOverrides};
use crate::error::{PlanError, TableError};
use crate::metadata::{
    convert_schema, is_arrow_schema, is_conversion_error, Table, TableIdent, TableMetadata,
};
use crate::partitioning::{Partitioning, PartitioningView};
use crate::physical_plan::scan::IcebergTableScan;
use crate::physical_plan::scan_planning::{
    group_count, is_projected, names_view, projected_names, valid_projection, IcebergScanConfig,
};
use crate::table::bucketing::{
    all_fit_arrays, all_keyed, bucket_tasks, buckets, compute_partition_keys, has_key_items,
    key_item, keys_ref_view, keys_view, law_bucket_holds_its_tasks, law_disabled_kind_drops_keys,
    law_missing_value_has_no_key, law_other_slots_are_no_bucket, literal_item, partition_keys,
    task_key, tasks_fit_arrays, BucketColView, IdentityColView, PartitionKeys, PartitionKeysView,
};
use crate::table::resolve::{
    deciding_property, invalid_property_text, law_undecided_session_leaves_it_to_the_table,
    partitioning_enabled, resolve_partitioning_enabled, BUCKET_EXECUTION_ENABLED,
    VALUE_PARTITIONING_ENABLED,
};
use crate::task::{groups_view, FileScanTask, Literal, PrimitiveLiteral};
use crate::text::bool_error_text;

verus! {

/// What a session holds under the Iceberg namespace.
#[derive(Clone, Copy, Debug)]
pub enum SessionOptions {
    /// Nothing is registered: the table decides.
    Unset,
    /// Switches for each kind of partitioning.
    Flags(IcebergConfig),
    /// Overrides of what the table asks for.
    Overrides(PartitioningOverrides),
}

/// What planning reads of a session.
#[derive(Clone, Copy, Debug)]
pub struct SessionSettings {
    /// How many partitions the session would run in parallel.
    pub target_partitions: usize,
    pub options: SessionOptions,
}

/// How a table came to be.
#[derive(Clone, Copy, Debug, PartialEq, Eq, Structural)]
pub enum TableType {
    Base,
    View,
    Temporary,
}

/// What becomes of a filter that a query hands to a table.
#[derive(Clone, Copy, Debug, PartialEq, Eq, Structural)]
pub enum TableProviderFilterPushDown {
    /// The query applies the filter.
    Unsupported,
    /// The table may apply the filter, and the query does so again.
    Inexact,
    /// The table applies the filter.
    Exact,
}

/// Every filter is pushed down; the scan drops what it cannot use.
pub(crate) fn push_down_all(filters: usize) -> (support: Vec<TableProviderFilterPushDown>)
    ensures
        support@ == Seq::new(filters as nat, |k: int| TableProviderFilterPushDown::Inexact),
{
    let mut support: Vec<TableProviderFilterPushDown> = Vec::new();
    for k in 0..filters
        invariant
            support@ == Seq::new(k as nat, |j: int| TableProviderFilterPushDown::Inexact),
    {
        support.push(TableProviderFilterPushDown::Inexact);
    }
    support
}

/// The keys that a scan with this output places its tasks by: those that the
/// table has, where the session or else the table wants them. `None` where that
/// rests on a table property that is not a truth value.
pub open spec fn scan_keys(
    metadata: TableMetadata,
    output: Seq<FieldView>,
    options: SessionOptions,
) -> Option<Option<PartitionKeysView>> {
    match options {
        SessionOptions::Flags(config) => Some(
            partition_keys(
                metadata,
                output,
                config.scan.identity_partitioning_enabled,
                config.scan.bucket_execution_enabled,
            ),
        ),
        SessionOptions::Unset => wanted_keys(metadata, output, None),
        SessionOptions::Overrides(overrides) => wanted_keys(metadata, output, Some(overrides)),
    }
}

/// The keys that the table has, where the overrides or else the table want them.
pub open spec fn wanted_keys(
    metadata: TableMetadata,
    output: Seq<FieldView>,
    overrides: Option<PartitioningOverrides>,
) -> Option<Option<PartitionKeysView>> {
    match partition_keys(metadata, output, true, true) {
        Some(keys) => match partitioning_enabled(
            Some(keys.kind()),
            overrides,
            metadata.properties,
        ) {
            Some(true) => Some(Some(keys)),
            Some(false) => Some(None),
            None => None,
        },
        None => Some(None),
    }
}

/// The message where the property that decides on the keys of a table is not a
/// truth value.
pub open spec fn undecided_keys_text(metadata: TableMetadata, output: Seq<FieldView>) -> Seq<
    char,
> {
    let property = deciding_property(partition_keys(metadata, output, true, true)->0.kind());
    invalid_property_text(property, metadata.properties.value(property)->0)
}

/// The partitioning that a scan of `tasks` over `n` partitions declares: a hash
/// over the key columns only where every task supplies its key and there is a
/// partition to hold it.
pub open spec fn declared_partitioning(
    tasks: Seq<FileScanTask>,
    n: nat,
    keys: Option<PartitionKeysView>,
) -> PartitioningView {
    match keys {
        Some(k) => if all_keyed(tasks, keys) && n > 0 {
            PartitioningView::Hash(k.columns(), n)
        } else {
            PartitioningView::UnknownPartitioning(n)
        },
        None => PartitioningView::UnknownPartitioning(n),
    }
}

/// Finds the keys that the table has and that the session or the table want.
fn find_wanted_keys(
    table: &Table,
    output_schema: &ArrowSchema,
    overrides: Option<PartitioningOverrides>,
) -> (keys: Result<Option<PartitionKeys>, PlanError>)
    ensures
        match keys {
            Ok(k) => wanted_keys(table.metadata, schema_fields(*output_schema), overrides) == Some(
                keys_view(k),
            ),
            Err(e) => {
                &&& wanted_keys(table.metadata, schema_fields(*output_schema), overrides) is None
                &&& e matches PlanError::Plan(message)
                &&& message@ == undecided_keys_text(table.metadata, schema_fields(*output_schema))
            },
        },
{
    let keys = compute_partition_keys(table, output_schema, true, true);
    let kind = match &keys {
        Some(k) => Some(k.kind()),
        None => None,
    };
    match resolve_partitioning_enabled(kind, overrides, &table.metadata.properties) {
        Ok(true) => Ok(keys),
        Ok(false) => Ok(None),
        Err(e) => Err(e),
    }
}

/// Finds the keys that a scan places its tasks by.
fn find_scan_keys(table: &Table, output_schema: &ArrowSchema, options: SessionOptions) -> (keys:
    Result<Option<PartitionKeys>, PlanError>)
    ensures
        match keys {
            Ok(k) => scan_keys(table.metadata, schema_fields(*output_schema), options) == Some(
                keys_view(k),
            ),
            Err(e) => {
                &&& scan_keys(table.metadata, schema_fields(*output_schema), options) is None
                &&& e matches PlanError::Plan(message)
                &&& message@ == undecided_keys_text(table.metadata, schema_fields(*output_schema))
            },
        },
{
    match options {
        SessionOptions::Flags(config) => Ok(
            compute_partition_keys(
                table,
                output_schema,
                config.scan.identity_partitioning_enabled,
                config.scan.bucket_execution_enabled,
            ),
        ),
        SessionOptions::Unset => find_wanted_keys(table, output_schema, None),
        SessionOptions::Overrides(overrides) => find_wanted_keys(
            table,
            output_schema,
            Some(overrides),
        ),
    }
}

/// Places tasks in `n_partitions` output partitions and declares what holds of
/// them.
pub fn place_tasks(tasks: Vec<FileScanTask>, n_partitions: usize, keys: Option<&PartitionKeys>) -> (
result: (Vec<Vec<FileScanTask>>, Partitioning))
    requires
        n_partitions > 0 ==> all_fit_arrays(tasks@, keys_ref_view(keys)),
    ensures
        groups_view(result.0@) == buckets(tasks@, n_partitions, keys_ref_view(keys)),
        result.1@ == declared_partitioning(tasks@, n_partitions as nat, keys_ref_view(keys)),
{
    match keys {
        Some(k) => {
            let exprs = k.column_exprs();
            let (groups, all_had_full_key) = bucket_tasks(tasks, n_partitions, Some(k));
            let partitioning = if all_had_full_key && n_partitions > 0 {
                Partitioning::Hash(exprs, n_partitions)
            } else {
                Partitioning::UnknownPartitioning(n_partitions)
            };
            (groups, partitioning)
        },
        None => {
            let (groups, _) = bucket_tasks(tasks, n_partitions, None);
            (groups, Partitioning::UnknownPartitioning(n_partitions))
        },
    }
}

/// Catalog-backed table provider with automatic metadata refresh.
///
/// Every scan and write is planned on the table as the catalog has it at that
/// time. For read-only access to a specific snapshot without catalog overhead,
/// use [`IcebergStaticTableProvider`](crate::table::IcebergStaticTableProvider)
/// instead.
#[derive(Clone, Debug)]
pub struct IcebergTableProvider {
    /// The table identifier (namespace + name)
    pub table_ident: TableIdent,
    /// A reference-counted arrow `Schema` (cached at construction)
    pub schema: Arc<ArrowSchema>,
}

impl IcebergTableProvider {
    /// Creates a catalog-backed table provider from the table as it was first
    /// loaded.
    pub fn try_new(table_ident: TableIdent, table: &Table) -> (provider: Result<Self, TableError>)
        ensures
            match provider {
                Ok(p) => {
                    &&& p.table_ident == table_ident
                    &&& is_arrow_schema(*p.schema, *table.metadata.current_schema)
                },
                Err(e) => is_conversion_error(e, *table.metadata.current_schema),
            },
    {
        match convert_schema(&table.metadata.current_schema) {
            Ok(schema) => Ok(IcebergTableProvider { table_ident, schema: Arc::new(schema) }),
            Err(e) => Err(TableError::Iceberg(e)),
        }
    }

    pub fn schema(&self) -> (schema: Arc<ArrowSchema>)
        ensures
            schema == self.schema,
    {
        self.schema.clone()
    }

    pub fn table_type(&self) -> (table_type: TableType)
        ensures
            table_type is Base,
    {
        TableType::Base
    }

    /// Whether `config` is that of a scan of the current snapshot with this
    /// projection and these predicates.
    pub open spec fn configures(
        &self,
        config: IcebergScanConfig,
        projection: Option<&Vec<usize>>,
        predicates: Option<Predicate>,
    ) -> bool {
        &&& config.snapshot_id is None
        &&& config.predicates == predicates
        &&& names_view(config.column_names) == projected_names(*self.schema, projection)
        &&& is_projected(*config.output_schema, *self.schema, projection)
    }

    /// What a scan asks of the table. Its tasks are planned with the same
    /// projection and filters that the scan replays when it is executed.
    pub fn scan_config(
        &self,
        projection: Option<&Vec<usize>>,
        predicates: Option<Predicate>,
    ) -> (config: IcebergScanConfig)
        requires
            valid_projection(projection, *self.schema),
        ensures
            self.configures(config, projection, predicates),
            config.snapshot_id is None,
            config.predicates == predicates,
            names_view(config.column_names) == projected_names(*self.schema, projection),
            is_projected(*config.output_schema, *self.schema, projection),
    {
        IcebergScanConfig::new(self.schema.clone(), None, projection, predicates)
    }

    /// Whether the arrays that the keys of `tasks` are hashed from can hold them.
    pub open spec fn keys_fit(
        &self,
        session: SessionSettings,
        table: Table,
        tasks: Seq<FileScanTask>,
        projection: Option<&Vec<usize>>,
    ) -> bool {
        scan_keys(table.metadata, self.output_fields(projection), session.options) matches Some(
            keys,
        ) ==> all_fit_arrays(tasks, keys)
    }

    /// Tells whether a scan of `tasks` can be planned: whether the arrays that
    /// their keys are hashed from can hold them.
    pub fn can_scan(
        &self,
        session: &SessionSettings,
        table: &Table,
        tasks: &Vec<FileScanTask>,
        projection: Option<&Vec<usize>>,
    ) -> (can: bool)
        requires
            valid_projection(projection, *self.schema),
        ensures
            can == self.keys_fit(*session, *table, tasks@, projection),
    {
        let scan_config = self.scan_config(projection, None);
        match find_scan_keys(table, &scan_config.output_schema, session.options) {
            Ok(keys) => tasks_fit_arrays(tasks, keys.as_ref()),
            Err(_) => true,
        }
    }

    /// Plans a scan of `tasks`, which the table planned for the request that
    /// follows from [`scan_config`](Self::scan_config).
    ///
    /// There is always at least one output partition, so that the plan can be
    /// scheduled as any other: a partition without tasks yields no rows.
    pub fn scan(
        &self,
        session: &SessionSettings,
        table: Arc<Table>,
        tasks: Vec<FileScanTask>,
        projection: Option<&Vec<usize>>,
        predicates: Option<Predicate>,
        limit: Option<usize>,
    ) -> (plan: Result<IcebergTableScan, PlanError>)
        requires
            valid_projection(projection, *self.schema),
            self.keys_fit(*session, *table, tasks@, projection),
        ensures
            match plan {
                Ok(scan) => {
                    let n = group_count(tasks@.len(), session.target_partitions as nat) as usize;
                    &&& scan.wf()
                    &&& scan.table == table
                    &&& scan.limit == limit
                    &&& self.configures(scan.scan_config, projection, predicates)
                    &&& scan_keys(
                        table.metadata,
                        self.output_fields(projection),
                        session.options,
                    ) matches Some(keys)
                    &&& scan.file_task_groups matches Some(groups)
                    &&& groups_view(groups@) == buckets(tasks@, n, keys)
                    &&& scan.plan_properties.partitioning@ == declared_partitioning(
                        tasks@,
                        n as nat,
                        keys,
                    )
                },
                Err(e) => {
                    &&& scan_keys(
                        table.metadata,
                        self.output_fields(projection),
                        session.options,
                    ) is None
                    &&& e matches PlanError::Plan(message)
                    &&& message@ == undecided_keys_text(
                        table.metadata,
                        self.output_fields(projection),
                    )
                },
            },
    {
        let scan_config = self.scan_config(projection, predicates);
        let mut n_partitions: usize = session.target_partitions;
        if n_partitions > tasks.len() {
            n_partitions = tasks.len();
        }
        if n_partitions < 1 {
            n_partitions = 1;
        }
        let keys = match find_scan_keys(&table, &scan_config.output_schema, session.options) {
            Ok(keys) => keys,
            Err(e) => return Err(e),
        };
        let (groups, partitioning) = place_tasks(tasks, n_partitions, keys.as_ref());
        assert(groups@.len() == groups_view(groups@).len());
        Ok(IcebergTableScan::new_with_tasks(table, scan_config, limit, groups, partitioning))
    }

    /// The fields of a scan's output.
    pub open spec fn output_fields(&self, projection: Option<&Vec<usize>>) -> Seq<FieldView> {
        match projection {
            Some(indices) => select_fields(schema_fields(*self.schema), indices@),
            None => schema_fields(*self.schema),
        }
    }

    /// Push down all filters, as a single source of truth: the scanner will drop
    /// the filters which could not be pushed down.
    pub fn supports_filters_pushdown(&self, filters: usize) -> (support: Vec<
        TableProviderFilterPushDown,
    >)
        ensures
            support@ == Seq::new(filters as nat, |k: int| TableProviderFilterPushDown::Inexact),
    {
        push_down_all(filters)
    }
}

/// A declared hash is kept: tasks with the same key are in the same partition,
/// and no task is without its key.
pub proof fn law_declared_hash_is_kept(
    tasks: Seq<FileScanTask>,
    n: usize,
    keys: Option<PartitionKeysView>,
    a: FileScanTask,
    b: FileScanTask,
    g: int,
    h: int,
)
    requires
        declared_partitioning(tasks, n as nat, keys) is Hash,
        0 <= g < n,
        0 <= h < n,
        buckets(tasks, n, keys)[g].contains(a),
        buckets(tasks, n, keys)[h].contains(b),
    ensures
        task_key(a, keys) is Some,
        task_key(a, keys) == task_key(b, keys) ==> g == h,
{
    law_bucket_holds_its_tasks(tasks, n, keys, g, a);
    law_bucket_holds_its_tasks(tasks, n, keys, h, b);
    let i = choose|i: int| 0 <= i < tasks.len() && tasks[i] == a;
    assert(task_key(tasks[i], keys) is Some);
}

/// One task without its key is enough to declare nothing.
pub proof fn law_missing_key_declares_nothing(
    tasks: Seq<FileScanTask>,
    n: nat,
    keys: Option<PartitionKeysView>,
    i: int,
)
    requires
        0 <= i < tasks.len(),
        task_key(tasks[i], keys) is None,
    ensures
        declared_partitioning(tasks, n, keys) == PartitioningView::UnknownPartitioning(n),
{
}

/// The declared partitioning has as many partitions as tasks were placed in.
pub proof fn law_partitions_match_groups(
    tasks: Seq<FileScanTask>,
    n: usize,
    keys: Option<PartitionKeysView>,
)
    ensures
        declared_partitioning(tasks, n as nat, keys).count() == buckets(tasks, n, keys).len(),
{
}

/// A session that registers nothing plans as one whose overrides leave
/// everything to the table.
pub proof fn law_unset_is_auto(
    metadata: TableMetadata,
    output: Seq<FieldView>,
    overrides: PartitioningOverrides,
)
    requires
        overrides.value_partitioning is Auto,
        overrides.bucket_execution is Auto,
    ensures
        scan_keys(metadata, output, SessionOptions::Unset) == scan_keys(
            metadata,
            output,
            SessionOptions::Overrides(overrides),
        ),
{
}

/// On a table that sets neither property, a session that registers nothing plans
/// as one with the default switches.
pub proof fn law_unset_is_default_flags(
    metadata: TableMetadata,
    output: Seq<FieldView>,
    config: IcebergConfig,
)
    requires
        metadata.properties.value(VALUE_PARTITIONING_ENABLED@) is None,
        metadata.properties.value(BUCKET_EXECUTION_ENABLED@) is None,
        !config.scan.identity_partitioning_enabled,
        config.scan.bucket_execution_enabled,
    ensures
        scan_keys(metadata, output, SessionOptions::Unset) == scan_keys(
            metadata,
            output,
            SessionOptions::Flags(config),
        ),
{
    law_disabled_kind_drops_keys(metadata, output, false, true);
}

/// A scan of this configuration reads the current snapshot, the projected columns
/// and nothing that the predicates rule out, and its fields are those projected.
pub proof fn law_scan_is_configured_as_asked(
    provider: IcebergTableProvider,
    config: IcebergScanConfig,
    projection: Option<&Vec<usize>>,
    predicates: Option<Predicate>,
    i: int,
)
    requires
        provider.configures(config, projection, predicates),
    ensures
        config.snapshot_id is None,
        config.predicates == predicates,
        projection is None ==> config.output_schema == provider.schema
            && config.column_names is None,
        projection matches Some(indices) ==> {
            &&& schema_fields(*config.output_schema).len() == indices@.len()
            &&& config.column_names is Some
            &&& config.column_names->0@.len() == indices@.len()
            &&& 0 <= i < indices@.len() ==> {
                &&& schema_fields(*config.output_schema)[i] == schema_fields(
                    *provider.schema,
                )[indices@[i] as int]
                &&& config.column_names->0@[i]@ == schema_fields(
                    *provider.schema,
                )[indices@[i] as int].name
            }
        },
        schema_fields(*config.output_schema) == provider.output_fields(projection),
{
    if let Some(indices) = projection {
        let names = names_view(config.column_names)->0;
        assert(names.len() == indices@.len());
        assert(config.column_names->0@.len() == names.len());
        if 0 <= i < indices@.len() {
            assert(names[i] == config.column_names->0@[i]@);
        }
    }
}

/// The switches of a session are obeyed for the kind that they are about, without
/// a look at the table's properties.
pub proof fn law_flags_decide_on_the_keys(
    metadata: TableMetadata,
    output: Seq<FieldView>,
    config: IcebergConfig,
    keys: PartitionKeysView,
)
    requires
        partition_keys(metadata, output, true, true) == Some(keys),
    ensures
        keys is Identity && config.scan.identity_partitioning_enabled ==> scan_keys(
            metadata,
            output,
            SessionOptions::Flags(config),
        ) == Some(Some(keys)),
        keys is Identity && !config.scan.identity_partitioning_enabled ==> scan_keys(
            metadata,
            output,
            SessionOptions::Flags(config),
        ) == Some(None::<PartitionKeysView>),
        keys is Bucket && config.scan.bucket_execution_enabled ==> scan_keys(
            metadata,
            output,
            SessionOptions::Flags(config),
        ) == Some(Some(keys)),
        keys is Bucket && !config.scan.bucket_execution_enabled ==> scan_keys(
            metadata,
            output,
            SessionOptions::Flags(config),
        ) == Some(None::<PartitionKeysView>),
{
    law_disabled_kind_drops_keys(
        metadata,
        output,
        config.scan.identity_partitioning_enabled,
        config.scan.bucket_execution_enabled,
    );
}

/// An override of a session is obeyed for the kind that it is about, whatever the
/// table's properties are.
pub proof fn law_overrides_decide_on_the_keys(
    metadata: TableMetadata,
    output: Seq<FieldView>,
    overrides: PartitioningOverrides,
    keys: PartitionKeysView,
)
    requires
        partition_keys(metadata, output, true, true) == Some(keys),
    ensures
        keys is Identity && overrides.value_partitioning is Enabled ==> scan_keys(
            metadata,
            output,
            SessionOptions::Overrides(overrides),
        ) == Some(Some(keys)),
        keys is Identity && overrides.value_partitioning is Disabled ==> scan_keys(
            metadata,
            output,
            SessionOptions::Overrides(overrides),
        ) == Some(None::<PartitionKeysView>),
        keys is Bucket && overrides.bucket_execution is Enabled ==> scan_keys(
            metadata,
            output,
            SessionOptions::Overrides(overrides),
        ) == Some(Some(keys)),
        keys is Bucket && overrides.bucket_execution is Disabled ==> scan_keys(
            metadata,
            output,
            SessionOptions::Overrides(overrides),
        ) == Some(None::<PartitionKeysView>),
{
}

/// Where the session says nothing of a kind of key, the table's property for it is
/// obeyed, no other text lets a scan be planned, and without the property bucket
/// keys are used and identity keys are not.
pub proof fn law_table_decides_on_the_keys(
    metadata: TableMetadata,
    output: Seq<FieldView>,
    options: SessionOptions,
    keys: PartitionKeysView,
)
    requires
        partition_keys(metadata, output, true, true) == Some(keys),
        options is Unset || (options matches SessionOptions::Overrides(o) && (keys is Identity
            ==> o.value_partitioning is Auto) && (keys is Bucket ==> o.bucket_execution is Auto)),
    ensures
        ({
            let name = if keys is Identity {
                "read.datafusion.value-partitioning.enabled"@
            } else {
                "read.datafusion.bucket-execution.enabled"@
            };
            let properties = metadata.properties@;
            let used = scan_keys(metadata, output, options);
            &&& !properties.contains_key(name) && keys is Identity ==> used == Some(
                None::<PartitionKeysView>,
            )
            &&& !properties.contains_key(name) && keys is Bucket ==> used == Some(Some(keys))
            &&& properties.contains_key(name) ==> {
                &&& used == Some(Some(keys)) <==> properties[name] == seq!['t', 'r', 'u', 'e']
                &&& used == Some(None::<PartitionKeysView>) <==> properties[name] == seq![
                    'f',
                    'a',
                    'l',
                    's',
                    'e',
                ]
                &&& used is None <==> properties[name] != seq!['t', 'r', 'u', 'e']
                    && properties[name] != seq!['f', 'a', 'l', 's', 'e']
            }
        }),
{
    match options {
        SessionOptions::Overrides(o) => law_undecided_session_leaves_it_to_the_table(
            Some(o),
            metadata.properties,
        ),
        _ => law_undecided_session_leaves_it_to_the_table(None, metadata.properties),
    }
}

/// A table without keys is scanned without keys, whatever the session says.
pub proof fn law_no_keys_no_declaration(
    metadata: TableMetadata,
    output: Seq<FieldView>,
    options: SessionOptions,
    tasks: Seq<FileScanTask>,
    n: nat,
)
    requires
        partition_keys(metadata, output, true, true) is None,
    ensures
        scan_keys(metadata, output, options) == Some(None::<PartitionKeysView>),
        declared_partitioning(tasks, n, None) == PartitioningView::UnknownPartitioning(n),
{
    if let SessionOptions::Flags(config) = options {
        law_disabled_kind_drops_keys(
            metadata,
            output,
            config.scan.identity_partitioning_enabled,
            config.scan.bucket_execution_enabled,
        );
    }
}

/// One file with a null, or with nothing, in the slot of one identity column is
/// enough to declare nothing.
pub proof fn law_null_identity_slot_declares_nothing(
    tasks: Seq<FileScanTask>,
    n: nat,
    cols: Seq<IdentityColView>,
    i: int,
    k: int,
)
    requires
        0 <= i < tasks.len(),
        0 <= k < cols.len(),
        tasks[i].partition matches Some(slots) ==> !(0 <= cols[k].spec_field_idx < slots@.len())
            || slots@[cols[k].spec_field_idx] is None,
    ensures
        declared_partitioning(tasks, n, Some(PartitionKeysView::Identity(cols)))
            == PartitioningView::UnknownPartitioning(n),
{
    law_missing_value_has_no_key(tasks[i], cols, k);
}

/// One file without a number in the slot of the bucket column is enough to
/// declare nothing.
pub proof fn law_null_bucket_slot_declares_nothing(
    tasks: Seq<FileScanTask>,
    n: nat,
    cols: Seq<BucketColView>,
    i: int,
)
    requires
        0 <= i < tasks.len(),
        cols.len() > 0,
        tasks[i].partition matches Some(slots) ==> !(0 <= cols[0].spec_field_idx < slots@.len())
            || !(slots@[cols[0].spec_field_idx] matches Some(
            Literal::Primitive(PrimitiveLiteral::Int(_)),
        )),
    ensures
        declared_partitioning(tasks, n, Some(PartitionKeysView::Bucket(cols)))
            == PartitioningView::UnknownPartitioning(n),
{
    law_other_slots_are_no_bucket(tasks[i], cols);
}

/// Where the slot of the bucket column holds a number in every file, the scan is
/// declared to be hashed by that column, over as many partitions as there are.
pub proof fn law_numbered_buckets_declare_hash(
    tasks: Seq<FileScanTask>,
    n: nat,
    cols: Seq<BucketColView>,
)
    requires
        n > 0,
        cols.len() == 1,
        forall|i: int|
            0 <= i < tasks.len() ==> ((#[trigger] tasks[i]).partition matches Some(slots) && 0
                <= cols[0].spec_field_idx < slots@.len() && (
            slots@[cols[0].spec_field_idx] matches Some(
                Literal::Primitive(PrimitiveLiteral::Int(_)),
            ))),
    ensures
        declared_partitioning(tasks, n, Some(PartitionKeysView::Bucket(cols))) matches
            PartitioningView::Hash(columns, count) && {
            &&& count == n
            &&& columns.len() == 1
            &&& columns[0].name == cols[0].name
            &&& columns[0].index == cols[0].output_idx
        },
{
    assert forall|i: int| 0 <= i < tasks.len() implies task_key(
        #[trigger] tasks[i],
        Some(PartitionKeysView::Bucket(cols)),
    ) is Some by {}
}

/// Where every file holds a value of the column's type for each identity column,
/// the scan is declared to be hashed by those columns, in their order.
pub proof fn law_valued_identities_declare_hash(
    tasks: Seq<FileScanTask>,
    n: nat,
    cols: Seq<IdentityColView>,
    k: int,
)
    requires
        n > 0,
        0 <= k < cols.len(),
        forall|i: int, c: int|
            #![trigger tasks[i], cols[c]]
            0 <= i < tasks.len() && 0 <= c < cols.len() ==> (tasks[i].partition matches Some(slots)
                && 0 <= cols[c].spec_field_idx < slots@.len() && (
            slots@[cols[c].spec_field_idx] matches Some(lit) && literal_item(
                lit,
                cols[c].output_dtype,
            ) is Some)),
    ensures
        declared_partitioning(tasks, n, Some(PartitionKeysView::Identity(cols))) matches
            PartitioningView::Hash(columns, count) && {
            &&& count == n
            &&& columns.len() == cols.len()
            &&& columns[k].name == cols[k].name
            &&& columns[k].index == cols[k].output_idx
        },
{
    assert forall|i: int| 0 <= i < tasks.len() implies task_key(
        #[trigger] tasks[i],
        Some(PartitionKeysView::Identity(cols)),
    ) is Some by {
        let first = cols[0];
        assert(tasks[i].partition is Some);
        assert(has_key_items(tasks[i].partition->0@, cols)) by {
            assert forall|c: int| 0 <= c < cols.len() implies key_item(
                tasks[i].partition->0@,
                #[trigger] cols[c],
            ) is Some by {}
        }
    }
}

/// A scan can be planned whatever its texts are, unless it hashes them.
pub proof fn law_scan_without_identity_keys_can_be_planned(
    provider: IcebergTableProvider,
    session: SessionSettings,
    table: Table,
    tasks: Seq<FileScanTask>,
    projection: Option<&Vec<usize>>,
)
    requires
        !(scan_keys(table.metadata, provider.output_fields(projection), session.options) matches
            Some(Some(PartitionKeysView::Identity(_)))),
    ensures
        provider.keys_fit(session, table, tasks, projection),
{
}

/// The message of a scan that cannot be planned names the property of the table's
/// kind of key and is about its value.
pub proof fn law_undecided_keys_name_their_property(
    metadata: TableMetadata,
    output: Seq<FieldView>,
    keys: PartitionKeysView,
)
    requires
        partition_keys(metadata, output, true, true) == Some(keys),
    ensures
        keys is Identity && metadata.properties@.contains_key(
            "read.datafusion.value-partitioning.enabled"@,
        ) ==> undecided_keys_text(metadata, output) == "Invalid value for "@
            + "read.datafusion.value-partitioning.enabled"@ + ", expected 'true' or 'false': "@
            + bool_error_text(
            metadata.properties@["read.datafusion.value-partitioning.enabled"@],
        ),
        keys is Bucket && metadata.properties@.contains_key(
            "read.datafusion.bucket-execution.enabled"@,
        ) ==> undecided_keys_text(metadata, output) == "Invalid value for "@
            + "read.datafusion.bucket-execution.enabled"@ + ", expected 'true' or 'false': "@
            + bool_error_text(metadata.properties@["read.datafusion.bucket-execution.enabled"@]),
{
}

/// A scan can be planned where the tasks fit the keys that it places them by, or
/// where it fails for another reason.
pub proof fn law_scan_of_fitting_tasks_can_be_planned(
    provider: IcebergTableProvider,
    session: SessionSettings,
    table: Table,
    tasks: Seq<FileScanTask>,
    projection: Option<&Vec<usize>>,
    keys: Option<PartitionKeysView>,
)
    requires
        scan_keys(table.metadata, provider.output_fields(projection), session.options) == Some(
            keys,
        ),
    ensures
        provider.keys_fit(session, table, tasks, projection) <==> all_fit_arrays(tasks, keys),
{
}

}
