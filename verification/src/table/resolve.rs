//! Whether a scan declares the hash partitioning that its table allows.

use vstd::prelude::*;
use vstd::string::*;

use crate::config::{PartitioningOverride, PartitioningOverrides};
use crate::error::PlanError;
use crate::metadata::Properties;
use crate::table::bucketing::PartitionKeysKind;
use crate::text::{
    bool_error_text, law_only_true_and_false_are_truth_values, parse_bool, plain_bool,
};

verus! {

/// Table property: declare a hash over identity-partitioned columns.
pub const VALUE_PARTITIONING_ENABLED: &'static str = "read.datafusion.value-partitioning.enabled";

/// What holds where [`VALUE_PARTITIONING_ENABLED`] is not set.
pub const VALUE_PARTITIONING_ENABLED_DEFAULT: bool = false;

/// Table property: declare a hash over a bucketed column.
pub const BUCKET_EXECUTION_ENABLED: &'static str = "read.datafusion.bucket-execution.enabled";

/// What holds where [`BUCKET_EXECUTION_ENABLED`] is not set.
pub const BUCKET_EXECUTION_ENABLED_DEFAULT: bool = true;

/// The message for a property whose value is not a truth value.
pub open spec fn invalid_property_text(property_name: Seq<char>, value: Seq<char>) -> Seq<char> {
    "Invalid value for "@ + property_name + ", expected 'true' or 'false': "@ + bool_error_text(
        value,
    )
}

/// Reads a table property that is a truth value.
pub fn parse_bool_table_property(property_name: &str, value: &str) -> (parsed: Result<
    bool,
    PlanError,
>)
    ensures
        match parsed {
            Ok(b) => plain_bool(value@) == Some(b),
            Err(e) => {
                &&& plain_bool(value@) is None
                &&& e matches PlanError::Plan(message)
                &&& message@ == invalid_property_text(property_name@, value@)
            },
        },
{
    match parse_bool(value) {
        Ok(b) => Ok(b),
        Err(report) => {
            let mut message = "Invalid value for ".to_owned();
            message.append(property_name);
            message.append(", expected 'true' or 'false': ");
            message.append(report.as_str());
            Err(PlanError::Plan(message))
        },
    }
}

/// Whether a kind of partitioning is enabled: as the session says, else as the
/// table property says, else by default. `None` where that rests on a property
/// that is not a truth value.
pub open spec fn family_enabled(
    override_value: Option<PartitioningOverride>,
    property_value: Option<Seq<char>>,
    default_value: bool,
) -> Option<bool> {
    match override_value {
        Some(PartitioningOverride::Enabled) => Some(true),
        Some(PartitioningOverride::Disabled) => Some(false),
        Some(PartitioningOverride::Auto) | None => match property_value {
            Some(value) => plain_bool(value),
            None => Some(default_value),
        },
    }
}

/// Decides whether a kind of partitioning is enabled.
pub fn resolve_partitioning_family(
    override_value: Option<PartitioningOverride>,
    table_properties: &Properties,
    property_name: &str,
    default_value: bool,
) -> (enabled: Result<bool, PlanError>)
    ensures
        ({
            let property_value = table_properties.value(property_name@);
            match enabled {
                Ok(b) => family_enabled(override_value, property_value, default_value) == Some(b),
                Err(e) => {
                    &&& family_enabled(override_value, property_value, default_value) is None
                    &&& e matches PlanError::Plan(message)
                    &&& message@ == invalid_property_text(property_name@, property_value->0)
                },
            }
        }),
        override_value == Some(PartitioningOverride::Enabled) ==> enabled == Ok::<bool, PlanError>(
            true,
        ),
        override_value == Some(PartitioningOverride::Disabled) ==> enabled == Ok::<bool, PlanError>(
            false,
        ),
{
    match override_value {
        Some(PartitioningOverride::Enabled) => Ok(true),
        Some(PartitioningOverride::Disabled) => Ok(false),
        Some(PartitioningOverride::Auto) | None => match table_properties.get(property_name) {
            Some(value) => parse_bool_table_property(property_name, value.as_str()),
            None => Ok(default_value),
        },
    }
}

/// What a session says of identity keys.
pub open spec fn value_override(overrides: Option<PartitioningOverrides>) -> Option<
    PartitioningOverride,
> {
    match overrides {
        Some(o) => Some(o.value_partitioning),
        None => None,
    }
}

/// What a session says of bucket keys.
pub open spec fn bucket_override(overrides: Option<PartitioningOverrides>) -> Option<
    PartitioningOverride,
> {
    match overrides {
        Some(o) => Some(o.bucket_execution),
        None => None,
    }
}

/// Whether the keys of that kind are to be declared: never without keys.
pub open spec fn partitioning_enabled(
    key_kind: Option<PartitionKeysKind>,
    overrides: Option<PartitioningOverrides>,
    properties: Properties,
) -> Option<bool> {
    match key_kind {
        Some(PartitionKeysKind::Identity) => family_enabled(
            value_override(overrides),
            properties.value(VALUE_PARTITIONING_ENABLED@),
            VALUE_PARTITIONING_ENABLED_DEFAULT,
        ),
        Some(PartitionKeysKind::Bucket) => family_enabled(
            bucket_override(overrides),
            properties.value(BUCKET_EXECUTION_ENABLED@),
            BUCKET_EXECUTION_ENABLED_DEFAULT,
        ),
        None => Some(false),
    }
}

/// The property that decides on keys of that kind.
pub open spec fn deciding_property(kind: PartitionKeysKind) -> Seq<char> {
    match kind {
        PartitionKeysKind::Identity => VALUE_PARTITIONING_ENABLED@,
        PartitionKeysKind::Bucket => BUCKET_EXECUTION_ENABLED@,
    }
}

/// Decides whether the keys of a table are to be declared.
pub fn resolve_partitioning_enabled(
    key_kind: Option<PartitionKeysKind>,
    overrides: Option<PartitioningOverrides>,
    table_properties: &Properties,
) -> (enabled: Result<bool, PlanError>)
    ensures
        match enabled {
            Ok(b) => partitioning_enabled(key_kind, overrides, *table_properties) == Some(b),
            Err(e) => {
                &&& partitioning_enabled(key_kind, overrides, *table_properties) is None
                &&& key_kind matches Some(kind)
                &&& table_properties.value(deciding_property(kind)) matches Some(value)
                &&& e matches PlanError::Plan(message)
                &&& message@ == invalid_property_text(deciding_property(kind), value)
            },
        },
        key_kind is None ==> enabled == Ok::<bool, PlanError>(false),
        key_kind == Some(PartitionKeysKind::Identity) ==> (overrides matches Some(o) ==> {
            &&& o.value_partitioning is Enabled ==> enabled == Ok::<bool, PlanError>(true)
            &&& o.value_partitioning is Disabled ==> enabled == Ok::<bool, PlanError>(false)
        }),
        key_kind == Some(PartitionKeysKind::Bucket) ==> (overrides matches Some(o) ==> {
            &&& o.bucket_execution is Enabled ==> enabled == Ok::<bool, PlanError>(true)
            &&& o.bucket_execution is Disabled ==> enabled == Ok::<bool, PlanError>(false)
        }),
{
    match key_kind {
        Some(PartitionKeysKind::Identity) => resolve_partitioning_family(
            match overrides {
                Some(o) => Some(o.value_partitioning),
                None => None,
            },
            table_properties,
            VALUE_PARTITIONING_ENABLED,
            VALUE_PARTITIONING_ENABLED_DEFAULT,
        ),
        Some(PartitionKeysKind::Bucket) => resolve_partitioning_family(
            match overrides {
                Some(o) => Some(o.bucket_execution),
                None => None,
            },
            table_properties,
            BUCKET_EXECUTION_ENABLED,
            BUCKET_EXECUTION_ENABLED_DEFAULT,
        ),
        None => Ok(false),
    }
}

/// A session that enables or disables a kind of partitioning is obeyed whatever
/// the table says, a property that is not a truth value among it.
pub proof fn law_session_decides(
    choice: PartitioningOverride,
    property_value: Option<Seq<char>>,
    default_value: bool,
)
    ensures
        choice is Enabled ==> family_enabled(Some(choice), property_value, default_value) == Some(
            true,
        ),
        choice is Disabled ==> family_enabled(Some(choice), property_value, default_value) == Some(
            false,
        ),
{
}

/// A session that leaves it to the table is one that says nothing.
pub proof fn law_auto_is_unset(property_value: Option<Seq<char>>, default_value: bool)
    ensures
        family_enabled(Some(PartitioningOverride::Auto), property_value, default_value)
            == family_enabled(None, property_value, default_value),
{
}

/// What the table says counts before what holds by default.
pub proof fn law_property_before_default(value: Seq<char>, default_value: bool)
    ensures
        family_enabled(None, Some(value), default_value) == plain_bool(value),
        family_enabled(None, None, default_value) == Some(default_value),
{
}

/// The two kinds of partitioning do not look at each other's override or
/// property, whether or not a session holds overrides.
pub proof fn law_kinds_are_independent(
    a: Option<PartitioningOverrides>,
    b: Option<PartitioningOverrides>,
    p: Properties,
    q: Properties,
)
    ensures
        value_override(a) == value_override(b) && p.value(VALUE_PARTITIONING_ENABLED@) == q.value(
            VALUE_PARTITIONING_ENABLED@,
        ) ==> partitioning_enabled(Some(PartitionKeysKind::Identity), a, p)
            == partitioning_enabled(Some(PartitionKeysKind::Identity), b, q),
        bucket_override(a) == bucket_override(b) && p.value(BUCKET_EXECUTION_ENABLED@) == q.value(
            BUCKET_EXECUTION_ENABLED@,
        ) ==> partitioning_enabled(Some(PartitionKeysKind::Bucket), a, p) == partitioning_enabled(
            Some(PartitionKeysKind::Bucket),
            b,
            q,
        ),
{
}

/// What the session's own field for a kind of key says is what happens, whatever
/// the table's properties are.
pub proof fn law_own_override_decides(overrides: PartitioningOverrides, properties: Properties)
    ensures
        overrides.value_partitioning is Enabled ==> partitioning_enabled(
            Some(PartitionKeysKind::Identity),
            Some(overrides),
            properties,
        ) == Some(true),
        overrides.value_partitioning is Disabled ==> partitioning_enabled(
            Some(PartitionKeysKind::Identity),
            Some(overrides),
            properties,
        ) == Some(false),
        overrides.bucket_execution is Enabled ==> partitioning_enabled(
            Some(PartitionKeysKind::Bucket),
            Some(overrides),
            properties,
        ) == Some(true),
        overrides.bucket_execution is Disabled ==> partitioning_enabled(
            Some(PartitionKeysKind::Bucket),
            Some(overrides),
            properties,
        ) == Some(false),
{
}

/// A session that says nothing of a kind of key leaves it to the table property
/// of that kind: `true` and `false` are obeyed, no other text decides, and
/// without the property identity keys are off and bucket keys are on.
pub proof fn law_undecided_session_leaves_it_to_the_table(
    overrides: Option<PartitioningOverrides>,
    properties: Properties,
)
    ensures
        (overrides matches Some(o) ==> o.value_partitioning is Auto) ==> {
            let name = "read.datafusion.value-partitioning.enabled"@;
            let enabled = partitioning_enabled(
                Some(PartitionKeysKind::Identity),
                overrides,
                properties,
            );
            &&& !properties@.contains_key(name) ==> enabled == Some(false)
            &&& properties@.contains_key(name) ==> {
                &&& enabled == Some(true) <==> properties@[name] == seq!['t', 'r', 'u', 'e']
                &&& enabled == Some(false) <==> properties@[name] == seq!['f', 'a', 'l', 's', 'e']
            }
        },
        (overrides matches Some(o) ==> o.bucket_execution is Auto) ==> {
            let name = "read.datafusion.bucket-execution.enabled"@;
            let enabled = partitioning_enabled(
                Some(PartitionKeysKind::Bucket),
                overrides,
                properties,
            );
            &&& !properties@.contains_key(name) ==> enabled == Some(true)
            &&& properties@.contains_key(name) ==> {
                &&& enabled == Some(true) <==> properties@[name] == seq!['t', 'r', 'u', 'e']
                &&& enabled == Some(false) <==> properties@[name] == seq!['f', 'a', 'l', 's', 'e']
            }
        },
{
    if properties@.contains_key("read.datafusion.value-partitioning.enabled"@) {
        law_only_true_and_false_are_truth_values(
            properties@["read.datafusion.value-partitioning.enabled"@],
        );
    }
    if properties@.contains_key("read.datafusion.bucket-execution.enabled"@) {
        law_only_true_and_false_are_truth_values(
            properties@["read.datafusion.bucket-execution.enabled"@],
        );
    }
}

/// Without keys nothing is enabled, whatever the session and the table say.
pub proof fn law_no_keys_nothing_to_enable(
    overrides: Option<PartitioningOverrides>,
    properties: Properties,
)
    ensures
        partitioning_enabled(None, overrides, properties) == Some(false),
{
}

/// The message for a property that does not decide names the property.
pub proof fn law_invalid_property_is_named(property_name: Seq<char>, value: Seq<char>)
    ensures
        invalid_property_text(property_name, value) == "Invalid value for "@ + property_name
            + ", expected 'true' or 'false': "@ + bool_error_text(value),
        deciding_property(PartitionKeysKind::Identity)
            == "read.datafusion.value-partitioning.enabled"@,
        deciding_property(PartitionKeysKind::Bucket)
            == "read.datafusion.bucket-execution.enabled"@,
{
}

}
