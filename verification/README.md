# iceberg_datafusion

Iceberg tables in DataFusion, with the planning verified by Verus.

- `src/`: the library. What a scan asks of its table, which tasks each output
  partition reads and which partitioning the plan may declare, the steps of a
  write, the session options and the text of a plan. Every item is verified;
  calls into `iceberg`, `datafusion` and Arrow stand in small wrappers whose
  contracts are taken on their documentation and source.
- `tests/`: the library as its callers see it, with the outside crates linked.
- `app/`: the DataFusion traits, the catalog and file I/O and the record batch
  streams around the library.

| module | content |
| --- | --- |
| `config` | session options under the `iceberg` namespace |
| `metadata`, `task`, `predicate`, `arrow` | tables, file scan tasks, filters and Arrow values as planning reads them |
| `partitioning` | the partitioning that a plan declares |
| `physical_plan::scan_planning` | scan configuration, round-robin grouping of tasks |
| `physical_plan::scan` | the scan node: properties, execution, text |
| `physical_plan::limit` | the bound on the rows of a partition |
| `physical_plan::display` | the text of tasks and groups of tasks |
| `table::bucketing` | partition keys, and the placing of tasks by key |
| `table::resolve` | whether keys are declared: session, table property, default |
| `table::provider`, `table::static_provider` | the two table providers |
| `table::insert` | the steps of a write |
| `error`, `text` | errors and text helpers |

Laws of the library are public proof functions named `law_*`, next to the
functions they speak of.
