use std::collections::HashMap;
use std::sync::Arc;

use datafusion::arrow::datatypes::{DataType, Field, Schema as ArrowSchema};
use iceberg::expr::Reference;
use iceberg::spec::{Datum, NestedField, PrimitiveType, Schema, Type};
use iceberg_datafusion::error::PlanError;
use iceberg_datafusion::metadata::{
    PartitionSpec, Properties, Table, TableIdent, TableMetadata,
};
use iceberg_datafusion::partitioning::{Column, Partitioning};
use iceberg_datafusion::physical_plan::display::{
    DisplayFormatType, FileTaskDisplay, FileTaskGroupDisplay, FileTaskGroupsDisplay,
};
use iceberg_datafusion::physical_plan::limit::RowLimit;
use iceberg_datafusion::physical_plan::scan::{
    Boundedness, EmissionType, IcebergTableScan, ScanExecution,
};
use iceberg_datafusion::physical_plan::scan_planning::{
    build_table_scan, get_column_names, group_file_scan_tasks_round_robin, plan_eager_scan,
    IcebergScanConfig,
};
use iceberg_datafusion::task::FileScanTask;

fn task(ordinal: usize) -> FileScanTask {
    FileScanTask {
        ordinal,
        data_file_path: format!("f{ordinal}.parquet"),
        start: 4,
        length: 10,
        file_size_in_bytes: 100,
        partition: None,
    }
}

fn tasks(n: usize) -> Vec<FileScanTask> {
    (0..n).map(task).collect()
}

fn ordinals(groups: &Vec<Vec<FileScanTask>>) -> Vec<Vec<usize>> {
    groups
        .iter()
        .map(|group| group.iter().map(|t| t.ordinal).collect())
        .collect()
}

fn arrow_schema() -> Arc<ArrowSchema> {
    Arc::new(ArrowSchema::new(vec![
        Field::new("id", DataType::Int32, false),
        Field::new("name", DataType::Utf8, false),
        Field::new("at", DataType::Date32, true),
    ]))
}

fn table() -> Arc<Table> {
    let schema = Arc::new(
        Schema::builder()
            .with_fields(vec![NestedField::required(
                1,
                "id",
                Type::Primitive(PrimitiveType::Int),
            )
            .into()])
            .build()
            .unwrap(),
    );
    Arc::new(Table {
        identifier: TableIdent {
            namespace: vec![],
            name: "t".to_string(),
        },
        metadata: TableMetadata {
            current_schema: schema,
            schemas: HashMap::new(),
            partition_spec_count: 1,
            default_partition_spec: PartitionSpec { fields: vec![] },
            snapshots: HashMap::new(),
            properties: Properties::default(),
        },
    })
}

fn config(projection: Option<&Vec<usize>>) -> IcebergScanConfig {
    IcebergScanConfig::new(arrow_schema(), Some(11), projection, None)
}

#[test]
fn column_names_follow_the_projection() {
    let schema = arrow_schema();
    assert_eq!(get_column_names(&schema, None), None);
    assert_eq!(get_column_names(&schema, Some(&vec![])), Some(vec![]));
    assert_eq!(
        get_column_names(&schema, Some(&vec![2, 0])),
        Some(vec!["at".to_string(), "id".to_string()])
    );
}

#[test]
fn config_projects_the_schema() {
    let all = config(None);
    assert_eq!(all.output_schema(), arrow_schema());
    assert_eq!(all.column_names(), None);
    assert_eq!(all.snapshot_id(), Some(11));

    let some = config(Some(&vec![1, 2]));
    assert_eq!(
        *some.output_schema(),
        ArrowSchema::new(vec![
            Field::new("name", DataType::Utf8, false),
            Field::new("at", DataType::Date32, true),
        ])
    );
}

#[test]
fn table_scan_is_built_from_the_config() {
    let filter = Reference::new("id").equal_to(Datum::int(1));
    let config = IcebergScanConfig::new(arrow_schema(), None, Some(&vec![0]), Some(filter.clone()));
    let request = build_table_scan(&config);
    assert_eq!(request.snapshot_id, None);
    assert_eq!(request.column_names, Some(&vec!["id".to_string()]));
    assert_eq!(request.filter, Some(&filter));
}

#[test]
fn tasks_are_dealt_in_turn() {
    assert_eq!(
        ordinals(&group_file_scan_tasks_round_robin(tasks(7), 3)),
        vec![vec![0, 3, 6], vec![1, 4], vec![2, 5]]
    );
    assert_eq!(
        ordinals(&group_file_scan_tasks_round_robin(tasks(2), 5)),
        vec![vec![0], vec![1]]
    );
    assert_eq!(
        ordinals(&group_file_scan_tasks_round_robin(tasks(2), 0)),
        vec![vec![0, 1]]
    );
    assert_eq!(
        ordinals(&group_file_scan_tasks_round_robin(vec![], 4)),
        vec![Vec::<usize>::new()]
    );
}

#[test]
fn eager_plan_reads_its_groups() {
    let plan = plan_eager_scan(config(None), tasks(5), 2);
    assert_eq!(plan.partition_count(), 2);
    assert_eq!(plan.task_count(), 5);
    let read = plan.read(1).unwrap();
    assert_eq!(
        read.tasks.iter().map(|t| t.ordinal).collect::<Vec<_>>(),
        vec![1, 3]
    );
    assert_eq!(read.data_file_concurrency_limit, 1);
    assert_eq!(read.table_scan.snapshot_id, Some(11));
    match plan.read(2) {
        Err(PlanError::Internal(message)) => assert!(message.contains("2")),
        other => panic!("unexpected {other:?}"),
    }
}

#[test]
fn row_limit_passes_a_prefix() {
    let mut limit = RowLimit::new(10);
    assert_eq!(limit.take_rows(4), Some(4));
    assert_eq!(limit.take_rows(0), Some(0));
    assert_eq!(limit.take_rows(6), Some(6));
    assert_eq!(limit.take_rows(1), None);

    let mut limit = RowLimit::new(5);
    assert_eq!(limit.take_rows(3), Some(3));
    assert_eq!(limit.take_rows(7), Some(2));
    assert_eq!(limit.take_rows(7), None);

    assert_eq!(RowLimit::new(0).take_rows(3), None);
    assert_eq!(RowLimit::new(5).take_rows(7), Some(5));
}

fn shown(text: impl Fn(&mut String)) -> String {
    let mut out = String::new();
    text(&mut out);
    out
}

#[test]
fn task_text() {
    assert_eq!(
        shown(|f| FileTaskDisplay(&task(3)).fmt_as(DisplayFormatType::Default, f)),
        "{path=f3.parquet, range=4..14, scan_bytes=10, file_size_bytes=100}"
    );
    let mut far = task(0);
    far.start = u64::MAX - 3;
    assert_eq!(
        shown(|f| FileTaskDisplay(&far).fmt_as(DisplayFormatType::Default, f)),
        "{path=f0.parquet, range=18446744073709551612..18446744073709551615, scan_bytes=10, \
         file_size_bytes=100}"
    );
}

#[test]
fn group_text() {
    assert_eq!(
        shown(|f| FileTaskGroupDisplay(&vec![]).fmt_as(DisplayFormatType::Default, f)),
        "{files=[], planned_scan_bytes=0}"
    );
    assert_eq!(
        shown(|f| FileTaskGroupDisplay(&tasks(2)).fmt_as(DisplayFormatType::Default, f)),
        "{files=[\n    {path=f0.parquet, range=4..14, scan_bytes=10, file_size_bytes=100},\n    \
         {path=f1.parquet, range=4..14, scan_bytes=10, file_size_bytes=100}\n  ], \
         planned_scan_bytes=20}"
    );
    let cut = shown(|f| FileTaskGroupDisplay(&tasks(6)).fmt_as(DisplayFormatType::TreeRender, f));
    assert!(cut.contains("path=f4.parquet"));
    assert!(!cut.contains("path=f5.parquet"));
    assert!(cut.ends_with(",\n    ...\n  ], planned_scan_bytes=60}"));
    let full = shown(|f| FileTaskGroupDisplay(&tasks(6)).fmt_as(DisplayFormatType::Verbose, f));
    assert!(full.contains("path=f5.parquet"));
    assert!(!full.contains("..."));
}

#[test]
fn groups_text() {
    assert_eq!(
        shown(|f| FileTaskGroupsDisplay(&vec![]).fmt_as(DisplayFormatType::Default, f)),
        "{0 groups: []}, planned_scan_bytes=0"
    );
    assert_eq!(
        shown(|f| FileTaskGroupsDisplay(&vec![vec![]]).fmt_as(DisplayFormatType::Default, f)),
        "{1 group: [\n  {files=[], planned_scan_bytes=0}\n]}, planned_scan_bytes=0"
    );
    let groups: Vec<Vec<FileScanTask>> = (0..6).map(|_| vec![]).collect();
    let cut = shown(|f| FileTaskGroupsDisplay(&groups).fmt_as(DisplayFormatType::Default, f));
    assert_eq!(cut.matches("files=[]").count(), 5);
    assert!(cut.starts_with("{6 groups: [\n  {files=[], planned_scan_bytes=0},\n"));
    assert!(cut.ends_with(",\n  ...\n]}, planned_scan_bytes=0"));
    let full = shown(|f| FileTaskGroupsDisplay(&groups).fmt_as(DisplayFormatType::Verbose, f));
    assert_eq!(full.matches("files=[]").count(), 6);
}

#[test]
fn lazy_scan_has_one_partition() {
    let scan = IcebergTableScan::new(table(), config(Some(&vec![0, 1])), Some(3), None);
    let properties = scan.properties();
    assert_eq!(properties.partitioning, Partitioning::UnknownPartitioning(1));
    assert_eq!(properties.emission_type, EmissionType::Incremental);
    assert_eq!(properties.boundedness, Boundedness::Bounded);
    assert_eq!(properties.schema.fields().len(), 2);
    match scan.execute(0).unwrap() {
        (ScanExecution::Lazy(request), Some(bound)) => {
            assert_eq!(request.snapshot_id, Some(11));
            assert_eq!(bound, RowLimit::new(3));
        }
        other => panic!("unexpected {other:?}"),
    }
    // The partition number of a lazy scan is not looked at.
    assert!(scan.execute(5).is_ok());
    assert_eq!(
        shown(|f| scan.fmt_with_predicate(DisplayFormatType::Default, "", f)),
        "IcebergTableScan projection:[id,name] predicate:[] limit:[3]"
    );
}

#[test]
fn eager_scan_has_a_partition_per_group() {
    let scan = IcebergTableScan::new(
        table(),
        config(None),
        None,
        Some(vec![tasks(1), vec![], tasks(2)]),
    );
    assert_eq!(
        scan.properties().partitioning,
        Partitioning::UnknownPartitioning(3)
    );
    match scan.execute(2).unwrap() {
        (ScanExecution::Eager(read), None) => assert_eq!(read.tasks.len(), 2),
        other => panic!("unexpected {other:?}"),
    }
    match scan.execute(3) {
        Err(PlanError::Internal(message)) => assert_eq!(
            message,
            "IcebergTableScan partition 3 does not exist; scan has 3 partitions"
        ),
        other => panic!("unexpected {other:?}"),
    }
    assert_eq!(
        shown(|f| scan.fmt_with_predicate(DisplayFormatType::Default, "", f)),
        "IcebergTableScan projection:[] predicate:[] file_groups={3 groups: [\n  {files=[\n    \
         {path=f0.parquet, range=4..14, scan_bytes=10, file_size_bytes=100}\n  ], \
         planned_scan_bytes=10},\n  {files=[], planned_scan_bytes=0},\n  {files=[\n    \
         {path=f0.parquet, range=4..14, scan_bytes=10, file_size_bytes=100},\n    \
         {path=f1.parquet, range=4..14, scan_bytes=10, file_size_bytes=100}\n  ], \
         planned_scan_bytes=20}\n]}, planned_scan_bytes=30"
    );
}

#[test]
fn declared_partitioning_is_kept() {
    let declared = Partitioning::Hash(
        vec![Column {
            name: "id".to_string(),
            index: 0,
        }],
        2,
    );
    let scan = IcebergTableScan::new_with_tasks(
        table(),
        config(None),
        None,
        vec![tasks(1), tasks(1)],
        declared.clone(),
    );
    assert_eq!(scan.properties().partitioning, declared);
    assert_eq!(scan.file_task_groups().unwrap().len(), 2);
}

#[test]
fn predicate_is_shown() {
    let filter = Reference::new("id").less_than(Datum::int(7));
    let shown_filter = format!("{filter}");
    let scan = IcebergTableScan::new(
        table(),
        IcebergScanConfig::new(arrow_schema(), None, None, Some(filter)),
        None,
        None,
    );
    assert_eq!(
        shown(|f| scan.fmt_with_predicate(DisplayFormatType::Verbose, &shown_filter, f)),
        format!("IcebergTableScan projection:[] predicate:[{shown_filter}]")
    );
    assert_eq!(
        shown(|f| scan.fmt_with_predicate(DisplayFormatType::Verbose, "id < 7", f)),
        "IcebergTableScan projection:[] predicate:[id < 7]"
    );
    // Without a predicate there is nothing to show.
    let bare = IcebergTableScan::new(table(), config(None), None, None);
    assert_eq!(
        shown(|f| bare.fmt_with_predicate(DisplayFormatType::Verbose, "id < 7", f)),
        "IcebergTableScan projection:[] predicate:[]"
    );
}

#[test]
fn scan_is_a_leaf() {
    let scan = Arc::new(IcebergTableScan::new(table(), config(None), None, None));
    let scan = scan.with_new_children(0).unwrap();
    match scan.with_new_children(1) {
        Err(PlanError::Internal(message)) => assert_eq!(
            message,
            "IcebergTableScan is a leaf node and cannot have children"
        ),
        other => panic!("unexpected {other:?}"),
    }
}

#[test]
fn grouping_keeps_the_planned_bytes() {
    let planned: Vec<FileScanTask> = (0..7)
        .map(|i| {
            let mut t = task(i);
            t.length = 1 << (8 * i);
            t
        })
        .collect();
    let groups = group_file_scan_tasks_round_robin(planned, 3);
    let text = shown(|f| FileTaskGroupsDisplay(&groups).fmt_as(DisplayFormatType::Default, f));
    assert!(text.ends_with(", planned_scan_bytes=282578800148737"));
}

#[test]
fn planned_bytes_exceed_a_word() {
    let mut big = task(0);
    big.length = u64::MAX;
    let groups = vec![vec![big.clone()], vec![big]];
    let text = shown(|f| FileTaskGroupsDisplay(&groups).fmt_as(DisplayFormatType::Default, f));
    assert!(text.ends_with("]}, planned_scan_bytes=36893488147419103230"));
}

#[test]
fn short_scans_are_shown_in_full() {
    let groups = vec![tasks(5), tasks(2), vec![], tasks(1), tasks(5)];
    let default = shown(|f| FileTaskGroupsDisplay(&groups).fmt_as(DisplayFormatType::Default, f));
    let verbose = shown(|f| FileTaskGroupsDisplay(&groups).fmt_as(DisplayFormatType::Verbose, f));
    assert_eq!(default, verbose);
}

#[test]
fn dealt_groups_differ_by_one_task_at_most() {
    for n in 1..9 {
        let groups = group_file_scan_tasks_round_robin(tasks(8), n);
        let sizes: Vec<usize> = groups.iter().map(|g| g.len()).collect();
        assert_eq!(sizes.len(), n);
        assert_eq!(sizes.iter().sum::<usize>(), 8);
        assert!(sizes.iter().max().unwrap() - sizes.iter().min().unwrap() <= 1);
        assert!(sizes.iter().all(|size| *size > 0));
    }
}
