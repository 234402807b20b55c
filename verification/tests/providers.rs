use std::collections::HashMap;
use std::sync::Arc;

use iceberg::expr::Reference;
use iceberg::spec::{Datum, NestedField, PrimitiveType, Schema, Type};
use iceberg_datafusion::config::{
    IcebergConfig, PartitioningOverride, PartitioningOverrides,
};
use iceberg_datafusion::error::{PlanError, TableError};
use iceberg_datafusion::metadata::{
    PartitionField, PartitionSpec, Properties, Snapshot, Table, TableIdent, TableMetadata,
    Transform,
};
use iceberg_datafusion::partitioning::Partitioning;
use iceberg_datafusion::physical_plan::scan::{IcebergTableScan, ScanExecution};
use iceberg_datafusion::physical_plan::scan_planning::projection_fits;
use iceberg_datafusion::table::insert::{InsertAction, InsertStage};
use iceberg_datafusion::table::provider::{
    place_tasks, SessionOptions, SessionSettings, TableProviderFilterPushDown, TableType,
};
use iceberg_datafusion::table::resolve::{
    parse_bool_table_property, resolve_partitioning_enabled, resolve_partitioning_family,
    BUCKET_EXECUTION_ENABLED, VALUE_PARTITIONING_ENABLED,
};
use iceberg_datafusion::table::bucketing::PartitionKeysKind;
use iceberg_datafusion::table::{IcebergStaticTableProvider, IcebergTableProvider};
use iceberg_datafusion::task::{FileScanTask, Literal, PrimitiveLiteral};

fn int_field(id: i32, name: &str) -> Arc<NestedField> {
    NestedField::required(id, name, Type::Primitive(PrimitiveType::Int)).into()
}

fn long_field(id: i32, name: &str) -> Arc<NestedField> {
    NestedField::required(id, name, Type::Primitive(PrimitiveType::Long)).into()
}

fn string_field(id: i32, name: &str) -> Arc<NestedField> {
    NestedField::required(id, name, Type::Primitive(PrimitiveType::String)).into()
}

fn schema(id: i32, fields: Vec<Arc<NestedField>>) -> Arc<Schema> {
    Arc::new(
        Schema::builder()
            .with_schema_id(id)
            .with_fields(fields)
            .build()
            .unwrap(),
    )
}

fn properties(entries: &[(&str, &str)]) -> Properties {
    let mut properties = Properties::default();
    for (name, value) in entries {
        properties.insert(name.to_string(), value.to_string());
    }
    properties
}

fn make_table(
    name: &str,
    current_schema: Arc<Schema>,
    fields: Vec<PartitionField>,
    properties: Properties,
) -> Arc<Table> {
    Arc::new(Table {
        identifier: TableIdent {
            namespace: vec!["ns".to_string()],
            name: name.to_string(),
        },
        metadata: TableMetadata {
            schemas: HashMap::from([(0, current_schema.clone())]),
            current_schema,
            partition_spec_count: 1,
            default_partition_spec: PartitionSpec { fields },
            snapshots: HashMap::new(),
            properties,
        },
    })
}

/// A table of three long columns, of which the first snapshot's schema is not
/// recorded and the second's is.
fn static_table() -> Arc<Table> {
    let first = schema(0, vec![long_field(1, "x")]);
    let second = schema(
        1,
        vec![long_field(1, "x"), long_field(2, "y"), long_field(3, "z")],
    );
    Arc::new(Table {
        identifier: TableIdent {
            namespace: vec!["static_ns".to_string()],
            name: "static_table".to_string(),
        },
        metadata: TableMetadata {
            current_schema: second.clone(),
            schemas: HashMap::from([(0, first), (1, second)]),
            partition_spec_count: 1,
            default_partition_spec: PartitionSpec {
                fields: vec![PartitionField {
                    source_id: 1,
                    transform: Transform::Identity,
                }],
            },
            snapshots: HashMap::from([
                (
                    3051729675574597004,
                    Snapshot {
                        snapshot_id: 3051729675574597004,
                        schema_id: None,
                    },
                ),
                (
                    3055729675574597004,
                    Snapshot {
                        snapshot_id: 3055729675574597004,
                        schema_id: Some(1),
                    },
                ),
            ]),
            properties: properties(&[("read.split.target.size", "134217728")]),
        },
    })
}

fn id_and_name() -> Arc<Schema> {
    schema(0, vec![int_field(1, "id"), string_field(2, "name")])
}

fn plain_table() -> Arc<Table> {
    make_table("t", id_and_name(), vec![], Properties::default())
}

fn identity_table(properties: Properties) -> Arc<Table> {
    make_table(
        "t",
        id_and_name(),
        vec![PartitionField {
            source_id: 2,
            transform: Transform::Identity,
        }],
        properties,
    )
}

fn bucket_table(n_buckets: u32) -> Arc<Table> {
    make_table(
        "t",
        id_and_name(),
        vec![PartitionField {
            source_id: 2,
            transform: Transform::Bucket(n_buckets),
        }],
        Properties::default(),
    )
}

fn task(ordinal: usize, partition: Option<Vec<Option<Literal>>>) -> FileScanTask {
    FileScanTask {
        ordinal,
        data_file_path: format!("/warehouse/t/data/fake_{ordinal}.parquet"),
        start: 0,
        length: 128,
        file_size_in_bytes: 128,
        partition,
    }
}

fn int_literal(value: i32) -> Literal {
    Literal::Primitive(PrimitiveLiteral::Int(value))
}

fn string(value: &str) -> Literal {
    Literal::Primitive(PrimitiveLiteral::String(value.to_string()))
}

fn plain_tasks(n: usize) -> Vec<FileScanTask> {
    (0..n).map(|i| task(i, None)).collect()
}

fn identity_tasks(values: Vec<&str>) -> Vec<FileScanTask> {
    values
        .into_iter()
        .enumerate()
        .map(|(i, value)| task(i, Some(vec![Some(string(value))])))
        .collect()
}

fn bucket_tasks(indices: Vec<Option<i32>>) -> Vec<FileScanTask> {
    indices
        .into_iter()
        .enumerate()
        .map(|(i, index)| task(i, Some(vec![index.map(int_literal)])))
        .collect()
}

fn session(target_partitions: usize, overrides: PartitioningOverrides) -> SessionSettings {
    SessionSettings {
        target_partitions,
        options: SessionOptions::Overrides(overrides),
    }
}

fn session_with_target_partitions(n: usize) -> SessionSettings {
    session(n, PartitioningOverrides::default())
}

fn provider(table: &Arc<Table>) -> IcebergTableProvider {
    IcebergTableProvider::try_new(table.identifier.clone(), table).unwrap()
}

fn plan(table: &Arc<Table>, tasks: Vec<FileScanTask>, session: SessionSettings) -> IcebergTableScan {
    provider(table)
        .scan(&session, table.clone(), tasks, None, None, None)
        .unwrap()
}

fn partitioning(scan: &IcebergTableScan) -> &Partitioning {
    &scan.properties().partitioning
}

fn buckets(scan: &IcebergTableScan) -> &Vec<Vec<FileScanTask>> {
    scan.file_task_groups().unwrap()
}

// Tests for IcebergStaticTableProvider

#[test]
fn test_static_provider_from_table() {
    let table_provider = IcebergStaticTableProvider::try_new_from_table(static_table()).unwrap();
    let schema = table_provider.schema();
    let columns = schema.fields();
    assert_eq!(columns.len(), 3);
    let x_column = columns.first().unwrap();
    let column_data = format!(
        "{:?}:{:?}",
        x_column.name(),
        x_column.data_type().to_string()
    );
    assert_eq!(column_data, "\"x\":\"Int64\"");
    let has_column = schema.column_with_name("z").is_some();
    assert!(has_column);
    assert_eq!(table_provider.table_type(), TableType::Base);
}

#[test]
fn test_static_provider_from_snapshot() {
    let table = static_table();
    let snapshot_id = *table.metadata.snapshots.keys().next().unwrap();
    let table_provider =
        IcebergStaticTableProvider::try_new_from_table_snapshot(table.clone(), snapshot_id)
            .unwrap();
    let schema = table_provider.schema();
    let columns = schema.fields();
    assert_eq!(columns.len(), 3);
    let x_column = columns.first().unwrap();
    let column_data = format!(
        "{:?}:{:?}",
        x_column.name(),
        x_column.data_type().to_string()
    );
    assert_eq!(column_data, "\"x\":\"Int64\"");
    let has_column = schema.column_with_name("z").is_some();
    assert!(has_column);
    assert_eq!(table_provider.snapshot_id, Some(snapshot_id));
}

#[test]
fn static_provider_takes_the_schema_of_its_snapshot() {
    let mut table = Table::clone(&static_table());
    table.metadata.snapshots.insert(
        7,
        Snapshot {
            snapshot_id: 7,
            schema_id: Some(0),
        },
    );
    let provider =
        IcebergStaticTableProvider::try_new_from_table_snapshot(Arc::new(table), 7).unwrap();
    assert_eq!(provider.schema().fields().len(), 1);
    let scan = provider.scan(None, None, None);
    assert_eq!(scan.snapshot_id(), Some(7));
}

#[test]
fn static_provider_reports_a_missing_snapshot() {
    match IcebergStaticTableProvider::try_new_from_table_snapshot(static_table(), -42) {
        Err(TableError::Unexpected(message)) => assert_eq!(
            message,
            "snapshot id -42 not found in table static_table"
        ),
        other => panic!("unexpected {other:?}"),
    }
}

#[test]
fn static_provider_reports_a_missing_schema() {
    let mut table = Table::clone(&static_table());
    table.metadata.snapshots.insert(
        8,
        Snapshot {
            snapshot_id: 8,
            schema_id: Some(12),
        },
    );
    match IcebergStaticTableProvider::try_new_from_table_snapshot(Arc::new(table), 8) {
        Err(TableError::DataInvalid { message, source }) => {
            assert_eq!(message, "Schema with id 12 not found");
            assert_eq!(source, None);
        }
        other => panic!("unexpected {other:?}"),
    }
}

#[test]
fn schema_that_does_not_convert_is_reported() {
    let precise = NestedField::required(
        1,
        "d",
        Type::Primitive(PrimitiveType::Decimal {
            precision: 50,
            scale: 2,
        }),
    );
    let table = make_table(
        "t",
        schema(0, vec![precise.into()]),
        vec![],
        Properties::default(),
    );
    assert!(matches!(
        IcebergTableProvider::try_new(table.identifier.clone(), &table),
        Err(TableError::Iceberg(_))
    ));
    assert!(matches!(
        IcebergStaticTableProvider::try_new_from_table(table),
        Err(TableError::Iceberg(_))
    ));
}

#[test]
fn snapshot_reports_the_error_of_its_own_schema() {
    let decimal = |id: i32, precision: u32| {
        let ty = PrimitiveType::Decimal {
            precision,
            scale: 2,
        };
        schema(
            id,
            vec![NestedField::required(1, "d", Type::Primitive(ty)).into()],
        )
    };
    let (current, recorded) = (decimal(0, 50), decimal(1, 300));
    let mut table = Table::clone(&make_table(
        "t",
        current.clone(),
        vec![],
        Properties::default(),
    ));
    table.metadata.schemas.insert(1, recorded.clone());
    table.metadata.snapshots.insert(
        9,
        Snapshot {
            snapshot_id: 9,
            schema_id: Some(1),
        },
    );
    let text = |s: &Schema| iceberg::arrow::schema_to_arrow_schema(s).unwrap_err().to_string();
    assert_ne!(text(&current), text(&recorded));
    let table = Arc::new(table);
    match IcebergStaticTableProvider::try_new_from_table_snapshot(table.clone(), 9) {
        Err(TableError::Iceberg(e)) => assert_eq!(e.to_string(), text(&recorded)),
        other => panic!("unexpected {other:?}"),
    }
    match IcebergStaticTableProvider::try_new_from_table(table.clone()) {
        Err(TableError::Iceberg(e)) => assert_eq!(e.to_string(), text(&current)),
        other => panic!("unexpected {other:?}"),
    }
    match IcebergTableProvider::try_new(table.identifier.clone(), &table) {
        Err(TableError::Iceberg(e)) => assert_eq!(e.to_string(), text(&current)),
        other => panic!("unexpected {other:?}"),
    }
}

#[test]
fn test_static_provider_rejects_writes() {
    let table_provider = IcebergStaticTableProvider::try_new_from_table(static_table()).unwrap();
    let result = table_provider.insert_into();
    match result {
        Err(PlanError::External(TableError::FeatureUnsupported(message))) => assert_eq!(
            message,
            "Write operations are not supported on IcebergStaticTableProvider. \
             Use IcebergTableProvider with a catalog for write support."
        ),
        other => panic!("unexpected {other:?}"),
    }
}

#[test]
fn test_static_provider_scan() {
    let table_provider = IcebergStaticTableProvider::try_new_from_table(static_table()).unwrap();
    let scan = table_provider.scan(Some(&vec![]), None, None);
    assert!(scan.file_task_groups().is_none());
    assert_eq!(partitioning(&scan), &Partitioning::UnknownPartitioning(1));
    assert!(scan.execute(0).is_ok());
}

// Tests for IcebergTableProvider

#[test]
fn test_catalog_backed_provider_creation() {
    let table = make_table("test_table", id_and_name(), vec![], Properties::default());
    let provider = provider(&table);

    let schema = provider.schema();
    assert_eq!(schema.fields().len(), 2);
    assert_eq!(schema.field(0).name(), "id");
    assert_eq!(schema.field(1).name(), "name");
    assert_eq!(provider.table_type(), TableType::Base);
    assert_eq!(provider.table_ident.name, "test_table");
}

#[test]
fn test_catalog_backed_provider_scan() {
    let table = make_table("test_table", id_and_name(), vec![], Properties::default());
    let provider = provider(&table);
    let scan = provider.scan(
        &session_with_target_partitions(4),
        table.clone(),
        vec![],
        None,
        None,
        None,
    );
    assert!(scan.is_ok());
    let scan = scan.unwrap();
    let schema = &scan.properties().schema;
    assert_eq!(schema.fields().len(), 2);
    assert_eq!(schema.field(0).name(), "id");
    assert_eq!(schema.field(1).name(), "name");
    assert_eq!(scan.name(), "IcebergTableScan");
    assert_eq!(scan.table().identifier.name, "test_table");
}

/// Runs the plan of a write to its end.
fn insert_actions(
    table: &Arc<Table>,
    target_partitions: usize,
) -> Result<Vec<InsertAction>, PlanError> {
    let provider = provider(table);
    let session = session_with_target_partitions(target_partitions);
    let mut stage = InsertStage::Input;
    let mut actions = vec![];
    while stage != InsertStage::Committed {
        let (action, next) = provider.insert_into(&session, table, stage)?;
        actions.push(action);
        stage = next;
    }
    Ok(actions)
}

#[test]
fn test_catalog_backed_provider_insert() {
    let table = make_table("test_table", id_and_name(), vec![], Properties::default());
    let result = insert_actions(&table, 4);
    assert!(result.is_ok());
    assert_eq!(
        result.unwrap(),
        vec![
            InsertAction::Repartition(4),
            InsertAction::Write,
            InsertAction::CoalescePartitions,
            InsertAction::Commit,
        ]
    );
}

#[test]
fn test_physical_input_schema_consistent_with_logical_input_schema() {
    let table = make_table("test_table", id_and_name(), vec![], Properties::default());
    let provider = provider(&table);
    let logical_schema = provider.schema();
    let scan = provider
        .scan(
            &session_with_target_partitions(4),
            table.clone(),
            vec![],
            Some(&vec![0, 1]),
            None,
            None,
        )
        .unwrap();
    let physical_schema = &scan.properties().schema;

    assert_eq!(
        logical_schema.fields().len(),
        physical_schema.fields().len()
    );
    for (logical_field, physical_field) in logical_schema
        .fields()
        .iter()
        .zip(physical_schema.fields().iter())
    {
        assert_eq!(logical_field.name(), physical_field.name());
        assert_eq!(logical_field.data_type(), physical_field.data_type());
    }
}

fn partitioned_table(fanout: Option<&str>) -> Arc<Table> {
    make_table(
        "partitioned_table",
        schema(0, vec![int_field(1, "id"), string_field(2, "category")]),
        vec![PartitionField {
            source_id: 2,
            transform: Transform::Identity,
        }],
        match fanout {
            Some(value) => properties(&[(
                iceberg::spec::TableProperties::PROPERTY_DATAFUSION_WRITE_FANOUT_ENABLED,
                value,
            )]),
            None => Properties::default(),
        },
    )
}

#[test]
fn test_insert_plan_fanout_enabled_no_sort() {
    let actions = insert_actions(&partitioned_table(Some("true")), 4).unwrap();
    assert!(
        !actions.contains(&InsertAction::SortByPartition),
        "Plan should NOT contain SortExec when fanout is enabled"
    );
}

#[test]
fn test_insert_plan_fanout_disabled_has_sort() {
    let actions = insert_actions(&partitioned_table(Some("false")), 4).unwrap();
    assert!(
        actions.contains(&InsertAction::SortByPartition),
        "Plan should contain SortExec when fanout is disabled"
    );
    assert_eq!(
        actions,
        vec![
            InsertAction::ProjectPartition,
            InsertAction::Repartition(4),
            InsertAction::SortByPartition,
            InsertAction::Write,
            InsertAction::CoalescePartitions,
            InsertAction::Commit,
        ]
    );
}

#[test]
fn insert_fans_out_by_default() {
    assert_eq!(
        iceberg::spec::TableProperties::PROPERTY_DATAFUSION_WRITE_FANOUT_ENABLED,
        "write.datafusion.fanout.enabled"
    );
    assert!(iceberg::spec::TableProperties::PROPERTY_DATAFUSION_WRITE_FANOUT_ENABLED_DEFAULT);
    assert_eq!(
        insert_actions(&partitioned_table(None), 2).unwrap(),
        vec![
            InsertAction::ProjectPartition,
            InsertAction::Repartition(2),
            InsertAction::Write,
            InsertAction::CoalescePartitions,
            InsertAction::Commit,
        ]
    );
}

#[test]
fn insert_needs_partitions() {
    match insert_actions(&partitioned_table(None), 0) {
        Err(PlanError::Configuration(message)) => {
            assert_eq!(message, "target_partitions must be greater than 0")
        }
        other => panic!("unexpected {other:?}"),
    }
}

#[test]
fn insert_refuses_an_invalid_fanout_property() {
    match insert_actions(&partitioned_table(Some("maybe")), 2) {
        Err(PlanError::External(TableError::DataInvalid { message, source })) => {
            assert_eq!(
                message,
                "Invalid value for write.datafusion.fanout.enabled, expected 'true' or 'false'"
            );
            assert_eq!(
                source,
                Some("maybe".parse::<bool>().unwrap_err().to_string())
            );
        }
        other => panic!("unexpected {other:?}"),
    }
}

#[test]
fn void_fields_do_not_partition() {
    let table = make_table(
        "t",
        id_and_name(),
        vec![PartitionField {
            source_id: 2,
            transform: Transform::Void,
        }],
        Properties::default(),
    );
    assert_eq!(
        insert_actions(&table, 1).unwrap()[0],
        InsertAction::Repartition(1)
    );
}

#[test]
fn test_limit_pushdown_static_provider() {
    let table_provider = IcebergStaticTableProvider::try_new_from_table(static_table()).unwrap();
    let iceberg_scan = table_provider.scan(None, None, Some(10));
    assert_eq!(
        iceberg_scan.limit(),
        Some(10),
        "Limit should be set to 10 in the scan plan"
    );
}

#[test]
fn test_limit_pushdown_catalog_backed_provider() {
    let table = make_table("test_table", id_and_name(), vec![], Properties::default());
    let iceberg_scan = provider(&table)
        .scan(
            &session_with_target_partitions(4),
            table.clone(),
            vec![],
            None,
            None,
            Some(5),
        )
        .unwrap();
    assert_eq!(
        iceberg_scan.limit(),
        Some(5),
        "Limit should be set to 5 in the scan plan"
    );
}

#[test]
fn test_no_limit_pushdown() {
    let table_provider = IcebergStaticTableProvider::try_new_from_table(static_table()).unwrap();
    let iceberg_scan = table_provider.scan(None, None, None);
    assert_eq!(
        iceberg_scan.limit(),
        None,
        "Limit should be None when not specified"
    );
}

// Bucketed scans

#[test]
fn test_empty_table_single_empty_bucket() {
    let scan = plan(&plain_table(), vec![], session_with_target_partitions(8));

    assert_eq!(buckets(&scan).len(), 1);
    assert_eq!(buckets(&scan)[0].len(), 0);
    assert_eq!(partitioning(&scan).partition_count(), 1);
}

#[test]
fn test_unpartitioned_falls_back_to_unknown() {
    let scan = plan(
        &plain_table(),
        plain_tasks(5),
        session_with_target_partitions(3),
    );

    let total_files: usize = buckets(&scan).iter().map(|b| b.len()).sum();
    assert_eq!(total_files, 5);
    assert_eq!(buckets(&scan).len(), 3);
    assert!(matches!(
        partitioning(&scan),
        Partitioning::UnknownPartitioning(3)
    ));
}

#[test]
fn test_bucket_count_capped_at_file_count() {
    let scan = plan(
        &plain_table(),
        plain_tasks(2),
        session_with_target_partitions(16),
    );
    assert_eq!(buckets(&scan).len(), 2);
}

#[test]
fn test_single_target_partition_single_bucket() {
    let scan = plan(
        &plain_table(),
        plain_tasks(4),
        session_with_target_partitions(1),
    );
    assert_eq!(buckets(&scan).len(), 1);
    assert_eq!(buckets(&scan)[0].len(), 4);
}

#[test]
fn zero_target_partitions_count_as_one() {
    let scan = plan(
        &plain_table(),
        plain_tasks(4),
        session_with_target_partitions(0),
    );
    assert_eq!(buckets(&scan).len(), 1);
}

#[test]
fn test_identity_partitioned_defaults_to_unknown() {
    let scan = plan(
        &identity_table(Properties::default()),
        identity_tasks(vec!["a", "b", "c", "a", "b", "c"]),
        session_with_target_partitions(3),
    );

    let total_files: usize = buckets(&scan).iter().map(|b| b.len()).sum();
    assert_eq!(total_files, 6);
    assert!(matches!(
        partitioning(&scan),
        Partitioning::UnknownPartitioning(3)
    ));
}

#[test]
fn test_identity_partitioned_property_enabled_declares_hash() {
    let scan = plan(
        &identity_table(properties(&[(VALUE_PARTITIONING_ENABLED, "true")])),
        identity_tasks(vec!["a", "b", "c", "a", "b", "c"]),
        session_with_target_partitions(3),
    );

    match partitioning(&scan) {
        Partitioning::Hash(exprs, n) => {
            assert_eq!(*n, 3);
            assert_eq!(exprs.len(), 1);
            assert_eq!(exprs[0].name, "name");
            assert_eq!(exprs[0].index, 1);
        }
        other => panic!("expected Partitioning::Hash, got {other:?}"),
    }
    // Files of one partition value are in one partition.
    for value in ["a", "b", "c"] {
        let holding = buckets(&scan)
            .iter()
            .filter(|bucket| {
                bucket
                    .iter()
                    .any(|t| t.partition == Some(vec![Some(string(value))]))
            })
            .count();
        assert_eq!(holding, 1);
    }
}

#[test]
fn test_identity_partitioned_session_disabled_overrides_property_enabled() {
    let scan = plan(
        &identity_table(properties(&[(VALUE_PARTITIONING_ENABLED, "true")])),
        identity_tasks(vec!["a", "b"]),
        session(
            3,
            PartitioningOverrides {
                value_partitioning: PartitioningOverride::Disabled,
                ..Default::default()
            },
        ),
    );

    assert!(matches!(
        partitioning(&scan),
        Partitioning::UnknownPartitioning(2)
    ));
}

#[test]
fn test_identity_partitioned_invalid_property_errors() {
    let table = identity_table(properties(&[(VALUE_PARTITIONING_ENABLED, "sometimes")]));
    let err = provider(&table)
        .scan(
            &session_with_target_partitions(3),
            table.clone(),
            identity_tasks(vec!["a"]),
            None,
            None,
            None,
        )
        .unwrap_err();

    match err {
        PlanError::Plan(message) => {
            assert!(message.contains(VALUE_PARTITIONING_ENABLED));
            assert_eq!(
                message,
                format!(
                    "Invalid value for {VALUE_PARTITIONING_ENABLED}, expected 'true' or 'false': {}",
                    "sometimes".parse::<bool>().unwrap_err()
                )
            );
        }
        other => panic!("unexpected {other:?}"),
    }
}

#[test]
fn test_projection_without_partition_col_falls_back_to_unknown() {
    let table = identity_table(Properties::default());
    // Project only "id" (idx 0), excluding the partition column "name" (idx 1).
    let projection = vec![0_usize];
    let scan = provider(&table)
        .scan(
            &session_with_target_partitions(3),
            table.clone(),
            identity_tasks(vec!["a", "b"]),
            Some(&projection),
            None,
            None,
        )
        .unwrap();
    assert!(matches!(
        partitioning(&scan),
        Partitioning::UnknownPartitioning(_)
    ));
}

#[test]
fn projection_without_partition_col_falls_back_even_where_enabled() {
    let table = identity_table(properties(&[(VALUE_PARTITIONING_ENABLED, "true")]));
    let projection = vec![0_usize];
    let scan = provider(&table)
        .scan(
            &session_with_target_partitions(3),
            table.clone(),
            identity_tasks(vec!["a", "b"]),
            Some(&projection),
            None,
            None,
        )
        .unwrap();
    assert!(matches!(
        partitioning(&scan),
        Partitioning::UnknownPartitioning(2)
    ));
}

#[test]
fn hash_columns_refer_to_the_projected_schema() {
    let table = identity_table(properties(&[(VALUE_PARTITIONING_ENABLED, "true")]));
    let projection = vec![1_usize, 0];
    let scan = provider(&table)
        .scan(
            &session_with_target_partitions(2),
            table.clone(),
            identity_tasks(vec!["a", "b"]),
            Some(&projection),
            None,
            None,
        )
        .unwrap();
    match partitioning(&scan) {
        Partitioning::Hash(exprs, 2) => {
            assert_eq!(exprs[0].name, "name");
            assert_eq!(exprs[0].index, 0);
        }
        other => panic!("expected Partitioning::Hash, got {other:?}"),
    }
    assert_eq!(
        scan.projection(),
        Some(&vec!["name".to_string(), "id".to_string()])
    );
}

// Bucket-transform partitioning

#[test]
fn test_bucket_partitioned_declares_hash() {
    let scan = plan(
        &bucket_table(8),
        bucket_tasks(vec![Some(0), Some(1), Some(2), Some(0), Some(7), Some(7)]),
        session_with_target_partitions(4),
    );

    let total_files: usize = buckets(&scan).iter().map(|b| b.len()).sum();
    assert_eq!(total_files, 6);

    match partitioning(&scan) {
        Partitioning::Hash(exprs, n) => {
            assert_eq!(*n, 4);
            assert_eq!(exprs.len(), 1);
            assert_eq!(exprs[0].name, "name");
        }
        other => panic!("expected Partitioning::Hash, got {other:?}"),
    }
}

#[test]
fn test_bucket_partitioned_session_disabled_falls_back_to_unknown() {
    let scan = plan(
        &bucket_table(8),
        bucket_tasks(vec![Some(0), Some(1), Some(2)]),
        session(
            4,
            PartitioningOverrides {
                bucket_execution: PartitioningOverride::Disabled,
                ..Default::default()
            },
        ),
    );
    assert!(matches!(
        partitioning(&scan),
        Partitioning::UnknownPartitioning(3)
    ));
}

#[test]
fn test_bucket_projection_drops_all_bucket_sources_falls_back_to_unknown() {
    let table = bucket_table(4);
    // Project only "id" (idx 0); the bucket source "name" (idx 1) is excluded.
    let projection = vec![0_usize];
    let scan = provider(&table)
        .scan(
            &session_with_target_partitions(3),
            table.clone(),
            bucket_tasks(vec![Some(0), Some(1)]),
            Some(&projection),
            None,
            None,
        )
        .unwrap();
    assert!(matches!(
        partitioning(&scan),
        Partitioning::UnknownPartitioning(_)
    ));
}

#[test]
fn test_bucket_with_null_partition_value_falls_back_to_unknown() {
    let scan = plan(
        &bucket_table(4),
        bucket_tasks(vec![Some(0), None, Some(2)]),
        session_with_target_partitions(3),
    );
    assert!(matches!(
        partitioning(&scan),
        Partitioning::UnknownPartitioning(_)
    ));
}

#[test]
fn test_mixed_bucket_and_other_transform_falls_back_to_unknown() {
    let table = make_table(
        "t",
        id_and_name(),
        vec![
            PartitionField {
                source_id: 2,
                transform: Transform::Bucket(8),
            },
            PartitionField {
                source_id: 2,
                transform: Transform::Truncate(4),
            },
        ],
        Properties::default(),
    );
    let scan = plan(
        &table,
        vec![task(0, Some(vec![Some(int_literal(0)), Some(string("aaaa"))]))],
        session_with_target_partitions(3),
    );
    assert!(matches!(
        partitioning(&scan),
        Partitioning::UnknownPartitioning(_)
    ));
}

#[test]
fn test_mixed_identity_and_bucket_keeps_identity_only_hash() {
    let table = make_table(
        "t",
        schema(
            0,
            vec![string_field(1, "country"), int_field(2, "customer_id")],
        ),
        vec![
            PartitionField {
                source_id: 1,
                transform: Transform::Identity,
            },
            PartitionField {
                source_id: 2,
                transform: Transform::Bucket(10),
            },
        ],
        Properties::default(),
    );
    let tasks = vec![("us", 1), ("us", 2), ("fr", 3)]
        .into_iter()
        .enumerate()
        .map(|(i, (country, bucket_idx))| {
            task(i, Some(vec![Some(string(country)), Some(int_literal(bucket_idx))]))
        })
        .collect();
    let scan = plan(
        &table,
        tasks,
        session(
            3,
            PartitioningOverrides {
                value_partitioning: PartitioningOverride::Enabled,
                ..Default::default()
            },
        ),
    );

    match partitioning(&scan) {
        Partitioning::Hash(exprs, n) => {
            assert_eq!(*n, 3);
            assert_eq!(
                exprs.len(),
                1,
                "only the identity column should be retained"
            );
            assert_eq!(exprs[0].name, "country");
        }
        other => panic!("expected Partitioning::Hash, got {other:?}"),
    }
}

fn stored_index(task: &FileScanTask) -> i32 {
    match task.partition.as_ref().and_then(|s| s.first().cloned()) {
        Some(Some(Literal::Primitive(PrimitiveLiteral::Int(v)))) => v,
        other => panic!("unexpected slot: {other:?}"),
    }
}

#[test]
fn test_bucket_n_eq_target_partitions_is_balanced() {
    // One file per bucket index 0..=7.
    let scan = plan(
        &bucket_table(8),
        bucket_tasks((0..8).map(Some).collect()),
        session_with_target_partitions(8),
    );
    let buckets = buckets(&scan);

    assert_eq!(buckets.len(), 8);
    for (partition_idx, files) in buckets.iter().enumerate() {
        assert_eq!(
            files.len(),
            1,
            "partition {partition_idx} should hold exactly one file"
        );
        assert_eq!(
            stored_index(&files[0]) as usize,
            partition_idx,
            "bucket idx must map to its own scan partition"
        );
    }
}

#[test]
fn test_bucket_n_gt_target_partitions_modulo_grouping() {
    let scan = plan(
        &bucket_table(8),
        bucket_tasks((0..8).map(Some).collect()),
        session_with_target_partitions(3),
    );
    let buckets = buckets(&scan);

    assert_eq!(buckets.len(), 3);
    // Expected grouping by `idx % 3`: {0,3,6} -> p0, {1,4,7} -> p1, {2,5} -> p2.
    let expected: [&[i32]; 3] = [&[0, 3, 6], &[1, 4, 7], &[2, 5]];
    for (partition_idx, files) in buckets.iter().enumerate() {
        let mut got: Vec<i32> = files.iter().map(stored_index).collect();
        got.sort_unstable();
        assert_eq!(
            got,
            expected[partition_idx].to_vec(),
            "partition {partition_idx} grouping mismatch"
        );
    }
}

#[test]
fn test_multi_column_bucket_falls_back_to_unknown() {
    let table = make_table(
        "t",
        id_and_name(),
        vec![
            PartitionField {
                source_id: 2,
                transform: Transform::Bucket(2),
            },
            PartitionField {
                source_id: 1,
                transform: Transform::Bucket(4),
            },
        ],
        Properties::default(),
    );
    let tuples: [(i32, i32); 4] = [(0, 0), (0, 1), (1, 0), (1, 3)];
    let tasks = tuples
        .iter()
        .enumerate()
        .map(|(i, &(name_idx, id_idx))| {
            task(i, Some(vec![Some(int_literal(name_idx)), Some(int_literal(id_idx))]))
        })
        .collect();
    let scan = plan(&table, tasks, session_with_target_partitions(4));
    match partitioning(&scan) {
        Partitioning::UnknownPartitioning(_) => {}
        other => panic!("expected Partitioning::UnknownPartitioning, got {other:?}"),
    }
}

// Session options

#[test]
fn flags_decide_on_their_kind() {
    let flags = |config: IcebergConfig| SessionSettings {
        target_partitions: 2,
        options: SessionOptions::Flags(config),
    };
    let identity = identity_table(Properties::default());
    let scan = plan(
        &identity,
        identity_tasks(vec!["a", "b"]),
        flags(IcebergConfig::default()),
    );
    assert!(matches!(
        partitioning(&scan),
        Partitioning::UnknownPartitioning(2)
    ));
    let scan = plan(
        &identity,
        identity_tasks(vec!["a", "b"]),
        flags(IcebergConfig::default().with_identity_partitioning_enabled(true)),
    );
    assert!(matches!(partitioning(&scan), Partitioning::Hash(_, 2)));

    let bucket = bucket_table(4);
    let scan = plan(
        &bucket,
        bucket_tasks(vec![Some(0), Some(1)]),
        flags(IcebergConfig::default()),
    );
    assert!(matches!(partitioning(&scan), Partitioning::Hash(_, 2)));
    let scan = plan(
        &bucket,
        bucket_tasks(vec![Some(0), Some(1)]),
        flags(IcebergConfig::default().with_bucket_execution_enabled(false)),
    );
    assert!(matches!(
        partitioning(&scan),
        Partitioning::UnknownPartitioning(2)
    ));
}

#[test]
fn unset_session_leaves_it_to_the_table() {
    let unset = SessionSettings {
        target_partitions: 2,
        options: SessionOptions::Unset,
    };
    let scan = plan(
        &identity_table(properties(&[(VALUE_PARTITIONING_ENABLED, "true")])),
        identity_tasks(vec!["a", "b"]),
        unset,
    );
    assert!(matches!(partitioning(&scan), Partitioning::Hash(_, 2)));
    let scan = plan(
        &identity_table(Properties::default()),
        identity_tasks(vec!["a", "b"]),
        unset,
    );
    assert!(matches!(
        partitioning(&scan),
        Partitioning::UnknownPartitioning(2)
    ));
}

#[test]
fn resolution_prefers_session_then_property_then_default() {
    let table = properties(&[("p", "false"), ("q", "nonsense")]);
    let enabled = Some(PartitioningOverride::Enabled);
    let disabled = Some(PartitioningOverride::Disabled);
    let auto = Some(PartitioningOverride::Auto);
    assert!(resolve_partitioning_family(enabled, &table, "q", false).unwrap());
    assert!(!resolve_partitioning_family(disabled, &table, "q", true).unwrap());
    assert!(!resolve_partitioning_family(auto, &table, "p", true).unwrap());
    assert!(!resolve_partitioning_family(None, &table, "p", true).unwrap());
    assert!(resolve_partitioning_family(None, &table, "r", true).unwrap());
    assert!(!resolve_partitioning_family(auto, &table, "r", false).unwrap());
    assert!(resolve_partitioning_family(None, &table, "q", true).is_err());
}

#[test]
fn resolution_reads_the_property_of_its_kind() {
    let table = properties(&[
        (VALUE_PARTITIONING_ENABLED, "true"),
        (BUCKET_EXECUTION_ENABLED, "false"),
    ]);
    let kinds = [PartitionKeysKind::Identity, PartitionKeysKind::Bucket];
    assert!(resolve_partitioning_enabled(Some(kinds[0]), None, &table).unwrap());
    assert!(!resolve_partitioning_enabled(Some(kinds[1]), None, &table).unwrap());
    assert!(!resolve_partitioning_enabled(None, None, &table).unwrap());
    let bare = Properties::default();
    assert!(!resolve_partitioning_enabled(Some(kinds[0]), None, &bare).unwrap());
    assert!(resolve_partitioning_enabled(Some(kinds[1]), None, &bare).unwrap());
}

#[test]
fn truth_values_of_properties_are_exact() {
    assert!(parse_bool_table_property("p", "true").unwrap());
    assert!(!parse_bool_table_property("p", "false").unwrap());
    for text in ["True", "FALSE", "1", "", " true"] {
        match parse_bool_table_property("p", text) {
            Err(PlanError::Plan(message)) => assert_eq!(
                message,
                format!(
                    "Invalid value for p, expected 'true' or 'false': {}",
                    text.parse::<bool>().unwrap_err()
                )
            ),
            other => panic!("unexpected {other:?}"),
        }
    }
}

#[test]
fn every_filter_is_pushed_down_inexactly() {
    let table = plain_table();
    assert_eq!(
        provider(&table).supports_filters_pushdown(3),
        vec![TableProviderFilterPushDown::Inexact; 3]
    );
    let static_provider = IcebergStaticTableProvider::try_new_from_table(table).unwrap();
    assert_eq!(
        static_provider.supports_filters_pushdown(0),
        vec![]
    );
}

#[test]
fn scan_replays_what_its_tasks_were_planned_for() {
    let table = plain_table();
    let provider = provider(&table);
    let predicate = Reference::new("id").less_than(Datum::int(3));
    let projection = vec![1_usize];
    let config = provider.scan_config(Some(&projection), Some(predicate.clone()));
    let scan = provider
        .scan(
            &session_with_target_partitions(2),
            table.clone(),
            plain_tasks(1),
            Some(&projection),
            Some(predicate.clone()),
            None,
        )
        .unwrap();
    assert_eq!(scan.scan_config().column_names(), config.column_names());
    assert_eq!(config.column_names(), Some(&vec!["name".to_string()]));
    assert_eq!(scan.predicates(), Some(&predicate));
    assert_eq!(scan.snapshot_id(), None);
    match scan.execute(0).unwrap() {
        (ScanExecution::Eager(read), None) => {
            assert_eq!(read.tasks.len(), 1);
            assert_eq!(read.data_file_concurrency_limit, 1);
            assert_eq!(read.table_scan.filter, Some(&predicate));
        }
        other => panic!("unexpected {other:?}"),
    }
    assert!(scan.execute(1).is_err());
}

#[test]
fn projections_are_held_against_the_schema() {
    let schema = provider(&plain_table()).schema();
    assert!(projection_fits(&schema, None));
    assert!(projection_fits(&schema, Some(&vec![1, 0, 1])));
    assert!(!projection_fits(&schema, Some(&vec![0, 2])));
}

#[test]
fn kinds_do_not_look_at_each_other() {
    let spoiled = properties(&[(BUCKET_EXECUTION_ENABLED, "nonsense")]);
    assert!(!resolve_partitioning_enabled(
        Some(PartitionKeysKind::Identity),
        Some(PartitioningOverrides {
            value_partitioning: PartitioningOverride::Auto,
            bucket_execution: PartitioningOverride::Enabled,
        }),
        &spoiled
    )
    .unwrap());
    assert!(
        resolve_partitioning_enabled(Some(PartitionKeysKind::Bucket), None, &spoiled).is_err()
    );
}

#[test]
fn evolved_specs_declare_nothing() {
    let mut table = Table::clone(&bucket_table(4));
    table.metadata.partition_spec_count = 2;
    let scan = plan(
        &Arc::new(table),
        bucket_tasks(vec![Some(0), Some(1)]),
        session_with_target_partitions(2),
    );
    assert!(matches!(
        partitioning(&scan),
        Partitioning::UnknownPartitioning(2)
    ));
}

#[test]
fn properties_hold_one_value_per_name() {
    let mut properties = properties(&[("p", "1"), ("q", "2"), ("p", "3")]);
    assert_eq!(properties.get("p"), Some(&"3".to_string()));
    assert_eq!(properties.get("q"), Some(&"2".to_string()));
    assert_eq!(properties.get("r"), None);
    let copy = properties.clone();
    properties.insert("q".to_string(), "4".to_string());
    assert_eq!(properties.get("q"), Some(&"4".to_string()));
    assert_eq!(copy.get("q"), Some(&"2".to_string()));
}

#[test]
fn projected_fields_equal_those_of_the_schema() {
    let nested = NestedField::optional(
        3,
        "at",
        Type::Primitive(PrimitiveType::Timestamptz),
    )
    .with_doc("when");
    let table = make_table(
        "t",
        schema(
            0,
            vec![int_field(1, "id"), string_field(2, "name"), nested.into()],
        ),
        vec![],
        Properties::default(),
    );
    let catalog_backed = provider(&table);
    let fixed = IcebergStaticTableProvider::try_new_from_table(table.clone()).unwrap();
    let projection = vec![2_usize, 0];
    let whole = catalog_backed.schema();
    assert!(whole.field(2).is_nullable());
    assert_eq!(whole.field(2).metadata().len(), 2);
    let outputs = [
        catalog_backed
            .scan(
                &session_with_target_partitions(2),
                table.clone(),
                vec![],
                Some(&projection),
                None,
                None,
            )
            .unwrap()
            .scan_config()
            .output_schema(),
        fixed.scan(Some(&projection), None, None).scan_config().output_schema(),
    ];
    for output in outputs {
        assert_eq!(output.fields().len(), 2);
        assert_eq!(output.field(0), whole.field(2));
        assert_eq!(output.field(1), whole.field(0));
        assert_eq!(output.metadata(), whole.metadata());
    }
}

#[test]
fn ordinary_tasks_can_be_scanned() {
    let table = identity_table(properties(&[(VALUE_PARTITIONING_ENABLED, "true")]));
    assert!(provider(&table).can_scan(
        &session_with_target_partitions(2),
        &table,
        &identity_tasks(vec!["a", "b"]),
        None
    ));
}

#[test]
fn no_partitions_declare_nothing() {
    let keys = iceberg_datafusion::table::bucketing::PartitionKeys::Bucket(vec![
        iceberg_datafusion::table::bucketing::BucketCol {
            name: "name".to_string(),
            output_idx: 1,
            spec_field_idx: 0,
        },
    ]);
    let (groups, declared) = place_tasks(bucket_tasks(vec![Some(3)]), 0, Some(&keys));
    assert!(groups.is_empty());
    assert_eq!(declared, Partitioning::UnknownPartitioning(0));
    let (groups, declared) = place_tasks(bucket_tasks(vec![Some(3)]), 1, Some(&keys));
    assert_eq!(groups.len(), 1);
    assert!(matches!(declared, Partitioning::Hash(_, 1)));
}
