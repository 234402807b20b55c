//! Table provider for one state of a table.

use std::sync::Arc;

use datafusion::arrow::datatypes::Schema as ArrowSchema;
use iceberg::expr::Predicate;
use vstd::prelude::*;
use vstd::string::*;

use crate::error::{to_datafusion_error, PlanError, TableError};
use crate::metadata::{convert_schema, is_arrow_schema, is_conversion_error, Table};
use crate::partitioning::PartitioningView;
use crate::physical_plan::scan::IcebergTableScan;
use crate::physical_plan::scan_planning::{
    is_projected, names_view, projected_names, valid_projection, IcebergScanConfig,
};
use crate::table::provider::{push_down_all, TableProviderFilterPushDown, TableType};
use crate::text::{append_signed_decimal, signed_decimal};

verus! {

/// Static table provider for read-only snapshot access.
///
/// This provider holds a table at one state of its metadata and does not support
/// write operations. Use this for consistent analytical queries, time-travel
/// scenarios, or when you want to avoid catalog overhead.
///
/// For catalog-backed tables with write support and automatic refresh, use
/// [`IcebergTableProvider`](crate::table::IcebergTableProvider) instead.
#[derive(Clone, Debug)]
pub struct IcebergStaticTableProvider {
    /// The static table instance (never refreshed)
    pub table: Arc<Table>,
    /// Optional snapshot ID for this static view
    pub snapshot_id: Option<i64>,
    /// A reference-counted arrow `Schema`
    pub schema: Arc<ArrowSchema>,
}

/// The message for a snapshot that the table does not have.
pub open spec fn missing_snapshot_text(snapshot_id: i64, table: Table) -> Seq<char> {
    "snapshot id "@ + signed_decimal(snapshot_id as int) + " not found in table "@
        + table.identifier.name@
}

impl IcebergStaticTableProvider {
    /// Creates a static provider from a table instance.
    ///
    /// Uses the table's current snapshot for all queries.
    pub fn try_new_from_table(table: Arc<Table>) -> (provider: Result<Self, TableError>)
        ensures
            match provider {
                Ok(p) => {
                    &&& p.table == table
                    &&& p.snapshot_id is None
                    &&& is_arrow_schema(*p.schema, *table.metadata.current_schema)
                },
                Err(e) => is_conversion_error(e, *table.metadata.current_schema),
            },
    {
        match convert_schema(&table.metadata.current_schema) {
            Ok(schema) => Ok(
                IcebergStaticTableProvider { table, snapshot_id: None, schema: Arc::new(schema) },
            ),
            Err(e) => Err(TableError::Iceberg(e)),
        }
    }

    /// Creates a static provider for a specific table snapshot.
    ///
    /// Queries the specified snapshot for all operations. Useful for time-travel
    /// queries.
    pub fn try_new_from_table_snapshot(table: Arc<Table>, snapshot_id: i64) -> (provider: Result<
        Self,
        TableError,
    >)
        ensures
            ({
                let snapshots = table.metadata.snapshots@;
                let schema = snapshots[snapshot_id].table_schema(table.metadata);
                match provider {
                    Ok(p) => {
                        &&& snapshots.contains_key(snapshot_id)
                        &&& schema is Some
                        &&& is_arrow_schema(*p.schema, *schema->0)
                        &&& p.table == table
                        &&& p.snapshot_id == Some(snapshot_id)
                    },
                    Err(e) => if !snapshots.contains_key(snapshot_id) {
                        e matches TableError::Unexpected(message) && message@
                            == missing_snapshot_text(snapshot_id, *table)
                    } else if schema is None {
                        &&& e matches TableError::DataInvalid { message, source: None }
                        &&& message@ == "Schema with id "@ + signed_decimal(
                            snapshots[snapshot_id].schema_id->0 as int,
                        ) + " not found"@
                    } else {
                        is_conversion_error(e, *schema->0)
                    },
                }
            }),
    {
        broadcast use vstd::std_specs::hash::group_hash_axioms;

        let table_schema = match table.metadata.snapshots.get(&snapshot_id) {
            Some(snapshot) => match snapshot.schema(&table.metadata) {
                Ok(table_schema) => table_schema,
                Err(e) => return Err(e),
            },
            None => {
                let mut message = "snapshot id ".to_owned();
                append_signed_decimal(&mut message, snapshot_id);
                message.append(" not found in table ");
                message.append(table.identifier.name.as_str());
                return Err(TableError::Unexpected(message));
            },
        };
        match convert_schema(&table_schema) {
            Ok(schema) => Ok(
                IcebergStaticTableProvider {
                    table,
                    snapshot_id: Some(snapshot_id),
                    schema: Arc::new(schema),
                },
            ),
            Err(e) => Err(TableError::Iceberg(e)),
        }
    }

    pub fn schema(&self) -> (schema: Arc<ArrowSchema>)
        ensures
            schema == self.schema,
    {
        self.schema.clone()
    }

    pub fn table_type(&self) -> (table_type: TableType)
        ensures
            table_type is Base,
    {
        TableType::Base
    }

    /// Plans a scan of the snapshot. Its tasks are planned when it is executed.
    pub fn scan(
        &self,
        projection: Option<&Vec<usize>>,
        predicates: Option<Predicate>,
        limit: Option<usize>,
    ) -> (scan: IcebergTableScan)
        requires
            valid_projection(projection, *self.schema),
        ensures
            scan.wf(),
            scan.table == self.table,
            scan.limit == limit,
            scan.file_task_groups is None,
            scan.plan_properties.partitioning@ == PartitioningView::UnknownPartitioning(1),
            scan.scan_config.snapshot_id == self.snapshot_id,
            scan.scan_config.predicates == predicates,
            names_view(scan.scan_config.column_names) == projected_names(*self.schema, projection),
            is_projected(*scan.scan_config.output_schema, *self.schema, projection),
    {
        let scan_config = IcebergScanConfig::new(
            self.schema.clone(),
            self.snapshot_id,
            projection,
            predicates,
        );
        IcebergTableScan::new(self.table.clone(), scan_config, limit, None)
    }

    /// Push down all filters, as a single source of truth: the scanner will drop
    /// the filters which could not be pushed down.
    pub fn supports_filters_pushdown(&self, filters: usize) -> (support: Vec<
        TableProviderFilterPushDown,
    >)
        ensures
            support@ == Seq::new(filters as nat, |k: int| TableProviderFilterPushDown::Inexact),
    {
        push_down_all(filters)
    }

    /// Refuses to write: a static table never changes.
    pub fn insert_into(&self) -> (result: Result<(), PlanError>)
        ensures
            result matches Err(PlanError::External(TableError::FeatureUnsupported(message)))
                && message@
                == "Write operations are not supported on IcebergStaticTableProvider. Use IcebergTableProvider with a catalog for write support."@,
    {
        Err(
            to_datafusion_error(
                TableError::FeatureUnsupported(
                    "Write operations are not supported on IcebergStaticTableProvider. Use IcebergTableProvider with a catalog for write support.".to_owned(),
                ),
            ),
        )
    }
}

/// The message for a missing snapshot names the snapshot and the table.
pub proof fn law_missing_snapshot_is_named(snapshot_id: i64, table: Table)
    ensures
        missing_snapshot_text(snapshot_id, table) == "snapshot id "@ + signed_decimal(
            snapshot_id as int,
        ) + " not found in table "@ + table.identifier.name@,
{
}

}
