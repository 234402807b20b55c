//! The plan of a write, one step at a time.

use iceberg::spec::TableProperties;
use vstd::prelude::*;
use vstd::string::*;

use crate::error::{to_datafusion_error, PlanError, TableError};
use crate::metadata::{Properties, Table, TableMetadata, Transform};
use crate::table::provider::{IcebergTableProvider, SessionSettings};
use crate::text::{
    bool_error_text, law_only_true_and_false_are_truth_values, parse_bool, plain_bool,
};

verus! {

/// `TableProperties::PROPERTY_DATAFUSION_WRITE_FANOUT_ENABLED`: the property by
/// which a table has its writers keep a file open per partition.
#[verifier::external_body]
fn fanout_property() -> (name: &'static str)
    ensures
        name@ == "write.datafusion.fanout.enabled"@,
{
    TableProperties::PROPERTY_DATAFUSION_WRITE_FANOUT_ENABLED
}

/// `TableProperties::PROPERTY_DATAFUSION_WRITE_FANOUT_ENABLED_DEFAULT`: what
/// holds where that property is not set.
#[verifier::external_body]
fn fanout_default() -> (enabled: bool)
    ensures
        enabled,
{
    TableProperties::PROPERTY_DATAFUSION_WRITE_FANOUT_ENABLED_DEFAULT
}

/// Whether writers of a table keep a file open per partition, `None` where the
/// property is not a truth value.
pub open spec fn fanout(properties: Properties) -> Option<bool> {
    match properties.value("write.datafusion.fanout.enabled"@) {
        Some(value) => plain_bool(value),
        None => Some(true),
    }
}

/// The error of a table whose fanout property is not a truth value.
pub open spec fn is_invalid_fanout(error: PlanError, properties: Properties) -> bool {
    &&& error matches PlanError::External(TableError::DataInvalid {
        message,
        source: Some(source),
    })
    &&& message@ == "Invalid value for "@ + "write.datafusion.fanout.enabled"@
        + ", expected 'true' or 'false'"@
    &&& source@ == bool_error_text(properties.value("write.datafusion.fanout.enabled"@)->0)
}

/// Reads whether writers of a table keep a file open per partition.
pub fn fanout_enabled(properties: &Properties) -> (enabled: Result<bool, PlanError>)
    ensures
        match enabled {
            Ok(b) => fanout(*properties) == Some(b),
            Err(e) => {
                &&& fanout(*properties) is None
                &&& is_invalid_fanout(e, *properties)
            },
        },
{
    let name = fanout_property();
    match properties.get(name) {
        Some(value) => match parse_bool(value.as_str()) {
            Ok(b) => Ok(b),
            Err(report) => {
                let mut message = "Invalid value for ".to_owned();
                message.append(name);
                message.append(", expected 'true' or 'false'");
                Err(
                    to_datafusion_error(
                        TableError::DataInvalid { message, source: Some(report) },
                    ),
                )
            },
        },
        None => Ok(fanout_default()),
    }
}

/// What to put on top of the plan next.
#[derive(Clone, Copy, Debug, PartialEq, Eq, Structural)]
pub enum InsertAction {
    /// Compute the partition value of each row.
    ProjectPartition,
    /// Spread the rows over so many partitions, which is never none.
    Repartition(usize),
    /// Order the rows by their partition value.
    SortByPartition,
    /// Write the rows to data files.
    Write,
    /// Merge the outputs of all partitions into one, so that all files are
    /// committed together.
    CoalescePartitions,
    /// Commit the data files to the table.
    Commit,
}

/// How far the plan of a write has come.
#[derive(Clone, Copy, Debug, PartialEq, Eq, Structural)]
pub enum InsertStage {
    /// The rows come as the query hands them over.
    Input,
    /// The rows carry their partition value, where the table is partitioned.
    Projected,
    /// The rows are spread over the session's partitions.
    Repartitioned,
    /// The rows can be written as they come.
    Writable,
    /// The rows are written.
    Written,
    /// The written files are known in one place.
    Coalesced,
    /// The plan is complete.
    Committed,
}

impl InsertStage {
    /// How many stages are still ahead.
    pub open spec fn ahead(self) -> nat {
        match self {
            InsertStage::Input => 6,
            InsertStage::Projected => 5,
            InsertStage::Repartitioned => 4,
            InsertStage::Writable => 3,
            InsertStage::Written => 2,
            InsertStage::Coalesced => 1,
            InsertStage::Committed => 0,
        }
    }
}

/// The step from a stage: what to do and the stage that it leads to. `None`
/// where the plan is complete or cannot be made.
pub open spec fn insert_step(
    stage: InsertStage,
    metadata: TableMetadata,
    target_partitions: usize,
) -> Option<(InsertAction, InsertStage)> {
    match stage {
        InsertStage::Input => if !metadata.default_partition_spec.unpartitioned() {
            Some((InsertAction::ProjectPartition, InsertStage::Projected))
        } else {
            repartition_step(target_partitions)
        },
        InsertStage::Projected => repartition_step(target_partitions),
        InsertStage::Repartitioned => match fanout(metadata.properties) {
            Some(true) => Some((InsertAction::Write, InsertStage::Written)),
            Some(false) => Some((InsertAction::SortByPartition, InsertStage::Writable)),
            None => None,
        },
        InsertStage::Writable => Some((InsertAction::Write, InsertStage::Written)),
        InsertStage::Written => Some((InsertAction::CoalescePartitions, InsertStage::Coalesced)),
        InsertStage::Coalesced => Some((InsertAction::Commit, InsertStage::Committed)),
        InsertStage::Committed => None,
    }
}

/// The step that spreads the rows, which takes a partition to spread them over.
pub open spec fn repartition_step(target_partitions: usize) -> Option<
    (InsertAction, InsertStage),
> {
    if target_partitions > 0 {
        Some((InsertAction::Repartition(target_partitions), InsertStage::Repartitioned))
    } else {
        None
    }
}

/// The error of a session without partitions to spread rows over.
pub open spec fn is_no_partitions(error: PlanError) -> bool {
    error matches PlanError::Configuration(message) && message@
        == "target_partitions must be greater than 0"@
}

impl IcebergTableProvider {
    /// Decides on the next step of the plan of a write to `table`, from how far
    /// the plan has come.
    pub fn insert_into(&self, session: &SessionSettings, table: &Table, stage: InsertStage) -> (step:
        Result<(InsertAction, InsertStage), PlanError>)
        requires
            !(stage is Committed),
        ensures
            match step {
                Ok(s) => insert_step(stage, table.metadata, session.target_partitions) == Some(s),
                Err(e) => {
                    &&& insert_step(stage, table.metadata, session.target_partitions) is None
                    &&& if stage is Repartitioned {
                        is_invalid_fanout(e, table.metadata.properties)
                    } else {
                        is_no_partitions(e)
                    }
                },
            },
    {
        match stage {
            InsertStage::Input => if !table.metadata.default_partition_spec.is_unpartitioned() {
                Ok((InsertAction::ProjectPartition, InsertStage::Projected))
            } else {
                spread_rows(session.target_partitions)
            },
            InsertStage::Projected => spread_rows(session.target_partitions),
            InsertStage::Repartitioned => match fanout_enabled(&table.metadata.properties) {
                Ok(true) => Ok((InsertAction::Write, InsertStage::Written)),
                Ok(false) => Ok((InsertAction::SortByPartition, InsertStage::Writable)),
                Err(e) => Err(e),
            },
            InsertStage::Writable => Ok((InsertAction::Write, InsertStage::Written)),
            InsertStage::Written => Ok((InsertAction::CoalescePartitions, InsertStage::Coalesced)),
            InsertStage::Coalesced | InsertStage::Committed => Ok(
                (InsertAction::Commit, InsertStage::Committed),
            ),
        }
    }
}

fn spread_rows(target_partitions: usize) -> (step: Result<(InsertAction, InsertStage), PlanError>)
    ensures
        match step {
            Ok(s) => repartition_step(target_partitions) == Some(s),
            Err(e) => repartition_step(target_partitions) is None && is_no_partitions(e),
        },
{
    if target_partitions == 0 {
        return Err(
            PlanError::Configuration("target_partitions must be greater than 0".to_owned()),
        );
    }
    Ok((InsertAction::Repartition(target_partitions), InsertStage::Repartitioned))
}

/// Everything that is done from a stage on.
pub open spec fn insert_actions(
    stage: InsertStage,
    metadata: TableMetadata,
    target_partitions: usize,
) -> Seq<InsertAction>
    decreases stage.ahead(),
{
    match insert_step(stage, metadata, target_partitions) {
        Some((action, next)) => seq![action] + insert_actions(next, metadata, target_partitions),
        None => seq![],
    }
}

/// Each step leads to a later stage, so the plan of a write comes to an end.
pub proof fn law_insert_advances(
    stage: InsertStage,
    metadata: TableMetadata,
    target_partitions: usize,
)
    ensures
        insert_step(stage, metadata, target_partitions) matches Some((_, next)) ==> next.ahead()
            < stage.ahead(),
{
}

/// A write projects the partition values of a partitioned table, spreads the
/// rows, sorts them where writers do not fan out, and then writes, merges and
/// commits, in that order.
pub proof fn law_insert_actions(metadata: TableMetadata, target_partitions: usize)
    requires
        target_partitions > 0,
        fanout(metadata.properties) is Some,
    ensures
        insert_actions(InsertStage::Input, metadata, target_partitions) == (if metadata
            .default_partition_spec
            .unpartitioned() {
            seq![]
        } else {
            seq![InsertAction::ProjectPartition]
        }) + seq![InsertAction::Repartition(target_partitions)] + (if fanout(
            metadata.properties,
        )->0 {
            seq![]
        } else {
            seq![InsertAction::SortByPartition]
        }) + seq![InsertAction::Write, InsertAction::CoalescePartitions, InsertAction::Commit],
{
    reveal_with_fuel(insert_actions, 8);
    assert(insert_actions(InsertStage::Written, metadata, target_partitions) =~= seq![
        InsertAction::CoalescePartitions,
        InsertAction::Commit,
    ]);
    assert(insert_actions(InsertStage::Input, metadata, target_partitions) =~= (if metadata
        .default_partition_spec
        .unpartitioned() {
        seq![]
    } else {
        seq![InsertAction::ProjectPartition]
    }) + seq![InsertAction::Repartition(target_partitions)] + (if fanout(metadata.properties)->0 {
        seq![]
    } else {
        seq![InsertAction::SortByPartition]
    }) + seq![InsertAction::Write, InsertAction::CoalescePartitions, InsertAction::Commit]);
}

/// Nothing is written without a partition to spread the rows over, nor where the
/// fanout property is not a truth value.
pub proof fn law_refused_insert_writes_nothing(metadata: TableMetadata, target_partitions: usize)
    requires
        target_partitions == 0 || fanout(metadata.properties) is None,
    ensures
        !insert_actions(InsertStage::Input, metadata, target_partitions).contains(
            InsertAction::Write,
        ),
        !insert_actions(InsertStage::Input, metadata, target_partitions).contains(
            InsertAction::Commit,
        ),
{
    reveal_with_fuel(insert_actions, 8);
}

/// A table with any field that is not void has the partition values of its rows
/// computed first, and a table with none but void fields never has.
pub proof fn law_partitioned_write_projects_first(
    metadata: TableMetadata,
    target_partitions: usize,
    k: int,
)
    ensures
        0 <= k < metadata.default_partition_spec.fields@.len()
            && metadata.default_partition_spec.fields@[k].transform != Transform::Void ==> {
            &&& insert_step(InsertStage::Input, metadata, target_partitions) == Some(
                (InsertAction::ProjectPartition, InsertStage::Projected),
            )
            &&& insert_actions(InsertStage::Input, metadata, target_partitions).len() > 0
            &&& insert_actions(InsertStage::Input, metadata, target_partitions)[0]
                == InsertAction::ProjectPartition
        },
        (forall|i: int|
            0 <= i < metadata.default_partition_spec.fields@.len()
                ==> (#[trigger] metadata.default_partition_spec.fields@[i]).transform
                == Transform::Void) ==> !insert_actions(
            InsertStage::Input,
            metadata,
            target_partitions,
        ).contains(InsertAction::ProjectPartition),
{
    reveal_with_fuel(insert_actions, 8);
}

/// Writers fan out unless the property says `false`: then, and only then, are the
/// rows sorted, and never after they were written.
pub proof fn law_rows_are_sorted_unless_fanned_out(
    metadata: TableMetadata,
    target_partitions: usize,
)
    requires
        target_partitions > 0,
    ensures
        ({
            let name = "write.datafusion.fanout.enabled"@;
            let properties = metadata.properties@;
            let actions = insert_actions(InsertStage::Input, metadata, target_partitions);
            &&& actions.contains(InsertAction::SortByPartition) <==> properties.contains_key(name)
                && properties[name] == seq!['f', 'a', 'l', 's', 'e']
            &&& actions.contains(InsertAction::Write) <==> !properties.contains_key(name)
                || properties[name] == seq!['f', 'a', 'l', 's', 'e'] || properties[name]
                == seq!['t', 'r', 'u', 'e']
        }),
{
    reveal_with_fuel(insert_actions, 8);
    let name = "write.datafusion.fanout.enabled"@;
    if metadata.properties@.contains_key(name) {
        law_only_true_and_false_are_truth_values(metadata.properties@[name]);
    }
    let actions = insert_actions(InsertStage::Input, metadata, target_partitions);
    let start: int = if metadata.default_partition_spec.unpartitioned() {
        0
    } else {
        1
    };
    if fanout(metadata.properties) == Some(true) {
        assert(actions[start + 1] == InsertAction::Write);
    } else if fanout(metadata.properties) == Some(false) {
        assert(actions[start + 1] == InsertAction::SortByPartition);
        assert(actions[start + 2] == InsertAction::Write);
    }
}

/// A write spreads its rows over as many partitions as the session runs, before
/// it sorts or writes them, and ends by committing what it merged.
pub proof fn law_write_spreads_then_writes_then_commits(
    metadata: TableMetadata,
    target_partitions: usize,
)
    requires
        target_partitions > 0,
        !metadata.properties@.contains_key("write.datafusion.fanout.enabled"@)
            || metadata.properties@["write.datafusion.fanout.enabled"@] == seq!['t', 'r', 'u', 'e']
            || metadata.properties@["write.datafusion.fanout.enabled"@] == seq![
            'f',
            'a',
            'l',
            's',
            'e',
        ],
    ensures
        ({
            let actions = insert_actions(InsertStage::Input, metadata, target_partitions);
            let len = actions.len() as int;
            &&& 4 <= len <= 6
            &&& actions[len - 3] == InsertAction::Write
            &&& actions[len - 2] == InsertAction::CoalescePartitions
            &&& actions[len - 1] == InsertAction::Commit
            &&& actions[0] == InsertAction::Repartition(target_partitions) || (actions[0]
                == InsertAction::ProjectPartition && actions[1] == InsertAction::Repartition(
                target_partitions,
            ))
        }),
{
    if metadata.properties@.contains_key("write.datafusion.fanout.enabled"@) {
        law_only_true_and_false_are_truth_values(
            metadata.properties@["write.datafusion.fanout.enabled"@],
        );
    }
    law_insert_actions(metadata, target_partitions);
}

/// A session without partitions is refused when the rows are to be spread, and a
/// fanout property that is not a truth value when they are to be written; no
/// other step fails.
pub proof fn law_write_fails_for_two_reasons(
    stage: InsertStage,
    metadata: TableMetadata,
    target_partitions: usize,
)
    ensures
        target_partitions == 0 ==> insert_step(
            InsertStage::Projected,
            metadata,
            target_partitions,
        ) is None,
        target_partitions > 0 ==> insert_step(InsertStage::Projected, metadata, target_partitions)
            == Some((InsertAction::Repartition(target_partitions), InsertStage::Repartitioned)),
        insert_step(stage, metadata, target_partitions) is None && stage != InsertStage::Committed
            && target_partitions > 0 ==> stage == InsertStage::Repartitioned,
        insert_step(InsertStage::Writable, metadata, target_partitions) == Some(
            (InsertAction::Write, InsertStage::Written),
        ),
        insert_step(InsertStage::Written, metadata, target_partitions) == Some(
            (InsertAction::CoalescePartitions, InsertStage::Coalesced),
        ),
        insert_step(InsertStage::Coalesced, metadata, target_partitions) == Some(
            (InsertAction::Commit, InsertStage::Committed),
        ),
{
}

/// A refused write says which setting refused it.
pub proof fn law_refused_write_says_why(error: PlanError, properties: Properties)
    ensures
        is_no_partitions(error) ==> (error matches PlanError::Configuration(message) && message@
            == "target_partitions must be greater than 0"@),
        is_invalid_fanout(error, properties) ==> (error matches PlanError::External(
            TableError::DataInvalid { message, source: Some(source) },
        ) && message@ == "Invalid value for "@ + "write.datafusion.fanout.enabled"@
            + ", expected 'true' or 'false'"@ && source@ == bool_error_text(
            properties.value("write.datafusion.fanout.enabled"@)->0,
        )),
{
}

}
