//! Session options of Iceberg scans.

use datafusion::common::config::ConfigField;
use datafusion::error::DataFusionError;
use vstd::prelude::*;
use vstd::string::*;
use vstd::utf8::is_ascii_chars;

use crate::error::{datafusion_error_text, PlanError};
use crate::text::{
    ascii_lowercase, law_only_true_and_false_are_truth_values, plain_bool, same_text,
    split_at_dot, split_key,
};

verus! {

/// The namespace that the options are registered under.
pub const PREFIX: &'static str = "iceberg";

/// Iceberg options registered under the `iceberg` DataFusion namespace.
#[derive(Clone, Copy, Debug, PartialEq, Eq)]
pub struct IcebergConfig {
    /// Scan planning options.
    pub scan: IcebergScanConfig,
}

/// Scan planning options read when a catalog-backed table provider plans a scan.
#[derive(Clone, Copy, Debug, PartialEq, Eq)]
pub struct IcebergScanConfig {
    /// Enable identity-partition based scan hash declarations.
    pub identity_partitioning_enabled: bool,
    /// Enable pure single-bucket scan planning.
    pub bucket_execution_enabled: bool,
}

/// The truth value that DataFusion reads from the text of an option that is not
/// all ASCII, `None` where it reads none.
pub uninterp spec fn unicode_option_bool(value: Seq<char>) -> Option<bool>;

/// The truth value that the text of an option gives, `None` where it gives none.
pub open spec fn option_bool(value: Seq<char>) -> Option<bool> {
    if is_ascii_chars(value) {
        plain_bool(ascii_lowercase(value))
    } else {
        unicode_option_bool(value)
    }
}

/// The text of the error for an option text that gives no truth value.
pub uninterp spec fn option_error_text(value: Seq<char>) -> Seq<char>;

/// Whether `error` is that of an option text that gives no truth value.
pub open spec fn is_option_error(error: PlanError, value: Seq<char>) -> bool {
    &&& option_bool(value) is None
    &&& error matches PlanError::Reported(e)
    &&& datafusion_error_text(e) == option_error_text(value)
}

/// `ConfigField::set` of `bool`: the text is put in lower case, and then has to
/// be `true` or `false`. For ASCII text that is what is stated; what the lower
/// case of other text spells, and how the error reads, depend on the text alone.
#[verifier::external_body]
fn parse_option_bool(value: &str) -> (parsed: Result<bool, DataFusionError>)
    ensures
        parsed.ok() == if is_ascii_chars(value@) {
            plain_bool(ascii_lowercase(value@))
        } else {
            unicode_option_bool(value@)
        },
        parsed matches Err(e) ==> datafusion_error_text(e) == option_error_text(value@),
{
    let mut parsed = false;
    ConfigField::set(&mut parsed, "", value).map(|()| parsed)
}

/// The message for an option that `owner` does not have.
pub open spec fn unknown_option_text(name: Seq<char>, owner: Seq<char>) -> Seq<char> {
    "Config value \""@ + name + "\" not found on "@ + owner
}

/// The error for an option that `owner` does not have.
pub(crate) fn unknown_option(name: &str, owner: &str) -> (error: PlanError)
    ensures
        error matches PlanError::Configuration(message) && message@ == unknown_option_text(
            name@,
            owner@,
        ),
{
    let mut message = "Config value \"".to_owned();
    message.append(name);
    message.append("\" not found on ");
    message.append(owner);
    PlanError::Configuration(message)
}

impl IcebergScanConfig {
    /// Whether there is an option of that name.
    pub open spec fn has_option(name: Seq<char>) -> bool {
        name == "identity_partitioning_enabled"@ || name == "bucket_execution_enabled"@
    }

    /// The options with the one called `name` at `enabled`.
    pub open spec fn with_option(self, name: Seq<char>, enabled: bool) -> Self {
        if name == "identity_partitioning_enabled"@ {
            IcebergScanConfig { identity_partitioning_enabled: enabled, ..self }
        } else if name == "bucket_execution_enabled"@ {
            IcebergScanConfig { bucket_execution_enabled: enabled, ..self }
        } else {
            self
        }
    }

    /// Sets the option that `key` names up to its first `.`; what stands behind
    /// that is not looked at. A refused setting changes nothing.
    pub fn set(&mut self, key: &str, value: &str) -> (result: Result<(), PlanError>)
        ensures
            ({
                let name = split_at_dot(key@).0;
                match result {
                    Ok(()) => {
                        &&& Self::has_option(name)
                        &&& option_bool(value@) matches Some(enabled)
                        &&& *final(self) == old(self).with_option(name, enabled)
                    },
                    Err(e) => {
                        &&& *final(self) == *old(self)
                        &&& if Self::has_option(name) {
                            is_option_error(e, value@)
                        } else {
                            e matches PlanError::Configuration(message) && message@
                                == unknown_option_text(name, "IcebergScanConfig"@)
                        }
                    },
                }
            }),
            result is Ok && split_at_dot(key@).0 == "identity_partitioning_enabled"@
                ==> option_bool(value@) == Some(final(self).identity_partitioning_enabled)
                && final(self).bucket_execution_enabled == old(self).bucket_execution_enabled,
            result is Ok && split_at_dot(key@).0 != "identity_partitioning_enabled"@
                ==> split_at_dot(key@).0 == "bucket_execution_enabled"@ && option_bool(value@)
                == Some(final(self).bucket_execution_enabled)
                && final(self).identity_partitioning_enabled
                == old(self).identity_partitioning_enabled,
    {
        let (name, _) = split_key(key);
        let identity = same_text(name, "identity_partitioning_enabled");
        let bucket = same_text(name, "bucket_execution_enabled");
        if !identity && !bucket {
            return Err(unknown_option(name, "IcebergScanConfig"));
        }
        match parse_option_bool(value) {
            Ok(enabled) => {
                if identity {
                    self.identity_partitioning_enabled = enabled;
                } else {
                    self.bucket_execution_enabled = enabled;
                }
                Ok(())
            },
            Err(e) => Err(PlanError::Reported(e)),
        }
    }
}

impl IcebergConfig {
    /// Enable or disable identity-partition based scan hash declarations.
    pub fn with_identity_partitioning_enabled(self, enabled: bool) -> (config: Self)
        ensures
            config.scan.identity_partitioning_enabled == enabled,
            config.scan.bucket_execution_enabled == self.scan.bucket_execution_enabled,
    {
        let mut config = self;
        config.scan.identity_partitioning_enabled = enabled;
        config
    }

    /// Enable or disable Iceberg bucket-transform aware scan planning.
    pub fn with_bucket_execution_enabled(self, enabled: bool) -> (config: Self)
        ensures
            config.scan.bucket_execution_enabled == enabled,
            config.scan.identity_partitioning_enabled == self.scan.identity_partitioning_enabled,
    {
        let mut config = self;
        config.scan.bucket_execution_enabled = enabled;
        config
    }

    /// Sets the option that `key` names, the namespace left out.
    pub fn set(&mut self, key: &str, value: &str) -> (result: Result<(), PlanError>)
        ensures
            ({
                let (section, rest) = split_at_dot(key@);
                let name = split_at_dot(rest).0;
                match result {
                    Ok(()) => {
                        &&& section == "scan"@
                        &&& IcebergScanConfig::has_option(name)
                        &&& option_bool(value@) matches Some(enabled)
                        &&& final(self).scan == old(self).scan.with_option(name, enabled)
                    },
                    Err(e) => {
                        &&& *final(self) == *old(self)
                        &&& if section != "scan"@ {
                            e matches PlanError::Configuration(message) && message@
                                == unknown_option_text(section, "IcebergConfig"@)
                        } else if IcebergScanConfig::has_option(name) {
                            is_option_error(e, value@)
                        } else {
                            e matches PlanError::Configuration(message) && message@
                                == unknown_option_text(name, "IcebergScanConfig"@)
                        }
                    },
                }
            }),
    {
        let (section, rest) = split_key(key);
        if same_text(section, "scan") {
            self.scan.set(rest, value)
        } else {
            Err(unknown_option(section, "IcebergConfig"))
        }
    }
}

impl Default for IcebergScanConfig {
    fn default() -> (config: Self)
        ensures
            !config.identity_partitioning_enabled,
            config.bucket_execution_enabled,
    {
        IcebergScanConfig { identity_partitioning_enabled: false, bucket_execution_enabled: true }
    }
}

impl Default for IcebergConfig {
    fn default() -> (config: Self)
        ensures
            !config.scan.identity_partitioning_enabled,
            config.scan.bucket_execution_enabled,
    {
        IcebergConfig { scan: IcebergScanConfig::default() }
    }
}

/// What a session says of a kind of partitioning.
#[derive(Clone, Copy, Debug, PartialEq, Eq, Structural)]
pub enum PartitioningOverride {
    /// Leave it to the table.
    Auto,
    Enabled,
    Disabled,
}

impl PartitioningOverride {
    /// The override that a text spells out.
    pub open spec fn spelled(text: Seq<char>) -> Option<Self> {
        if text == "auto"@ {
            Some(PartitioningOverride::Auto)
        } else if text == "enabled"@ {
            Some(PartitioningOverride::Enabled)
        } else if text == "disabled"@ {
            Some(PartitioningOverride::Disabled)
        } else {
            None
        }
    }

    pub fn parse(text: &str) -> (parsed: Option<Self>)
        ensures
            parsed == Self::spelled(text@),
    {
        if same_text(text, "auto") {
            Some(PartitioningOverride::Auto)
        } else if same_text(text, "enabled") {
            Some(PartitioningOverride::Enabled)
        } else if same_text(text, "disabled") {
            Some(PartitioningOverride::Disabled)
        } else {
            None
        }
    }
}

impl Default for PartitioningOverride {
    fn default() -> (value: Self)
        ensures
            value is Auto,
    {
        PartitioningOverride::Auto
    }
}

/// Session overrides of the partitioning that tables ask for.
#[derive(Clone, Copy, Debug, PartialEq, Eq, Structural)]
pub struct PartitioningOverrides {
    /// Hash declarations over identity-partitioned columns.
    pub value_partitioning: PartitioningOverride,
    /// Hash declarations over a bucketed column.
    pub bucket_execution: PartitioningOverride,
}

impl Default for PartitioningOverrides {
    fn default() -> (overrides: Self)
        ensures
            overrides.value_partitioning is Auto,
            overrides.bucket_execution is Auto,
    {
        PartitioningOverrides {
            value_partitioning: PartitioningOverride::Auto,
            bucket_execution: PartitioningOverride::Auto,
        }
    }
}

/// The message for a text that is no override.
pub open spec fn invalid_override_text(value: Seq<char>) -> Seq<char> {
    "Invalid partitioning override \""@ + value
        + "\", expected 'auto', 'enabled' or 'disabled'"@
}

impl PartitioningOverrides {
    /// Whether there is an override of that name.
    pub open spec fn has_option(name: Seq<char>) -> bool {
        name == "value_partitioning"@ || name == "bucket_execution"@
    }

    /// The overrides with the one called `name` at `value`.
    pub open spec fn with_option(self, name: Seq<char>, value: PartitioningOverride) -> Self {
        if name == "value_partitioning"@ {
            PartitioningOverrides { value_partitioning: value, ..self }
        } else if name == "bucket_execution"@ {
            PartitioningOverrides { bucket_execution: value, ..self }
        } else {
            self
        }
    }

    /// Sets the override that `key` names up to its first `.`, the namespace
    /// left out; what stands behind that is not looked at. A refused setting
    /// changes nothing.
    pub fn set(&mut self, key: &str, value: &str) -> (result: Result<(), PlanError>)
        ensures
            ({
                let name = split_at_dot(key@).0;
                match result {
                    Ok(()) => {
                        &&& Self::has_option(name)
                        &&& PartitioningOverride::spelled(value@) matches Some(choice)
                        &&& *final(self) == old(self).with_option(name, choice)
                    },
                    Err(e) => {
                        &&& *final(self) == *old(self)
                        &&& e matches PlanError::Configuration(message)
                        &&& if Self::has_option(name) {
                            &&& PartitioningOverride::spelled(value@) is None
                            &&& message@ == invalid_override_text(value@)
                        } else {
                            message@ == unknown_option_text(name, "PartitioningOverrides"@)
                        }
                    },
                }
            }),
            result is Ok && split_at_dot(key@).0 == "value_partitioning"@
                ==> PartitioningOverride::spelled(value@) == Some(final(self).value_partitioning)
                && final(self).bucket_execution == old(self).bucket_execution,
            result is Ok && split_at_dot(key@).0 != "value_partitioning"@ ==> split_at_dot(key@).0
                == "bucket_execution"@ && PartitioningOverride::spelled(value@) == Some(
                final(self).bucket_execution,
            ) && final(self).value_partitioning == old(self).value_partitioning,
    {
        let (name, _) = split_key(key);
        let identity = same_text(name, "value_partitioning");
        let bucket = same_text(name, "bucket_execution");
        if !identity && !bucket {
            return Err(unknown_option(name, "PartitioningOverrides"));
        }
        match PartitioningOverride::parse(value) {
            Some(choice) => {
                if identity {
                    self.value_partitioning = choice;
                } else {
                    self.bucket_execution = choice;
                }
                Ok(())
            },
            None => {
                let mut message = "Invalid partitioning override \"".to_owned();
                message.append(value);
                message.append("\", expected 'auto', 'enabled' or 'disabled'");
                Err(PlanError::Configuration(message))
            },
        }
    }
}

/// Setting one option leaves the value of the other as it was.
pub proof fn law_options_are_independent(config: IcebergScanConfig, enabled: bool)
    ensures
        config.with_option("identity_partitioning_enabled"@, enabled).identity_partitioning_enabled
            == enabled,
        config.with_option("identity_partitioning_enabled"@, enabled).bucket_execution_enabled
            == config.bucket_execution_enabled,
        config.with_option("bucket_execution_enabled"@, enabled).bucket_execution_enabled
            == enabled,
        config.with_option("bucket_execution_enabled"@, enabled).identity_partitioning_enabled
            == config.identity_partitioning_enabled,
{
    reveal_strlit("identity_partitioning_enabled");
    reveal_strlit("bucket_execution_enabled");
    assert("identity_partitioning_enabled"@.len() != "bucket_execution_enabled"@.len());
}

/// Setting one override leaves the value of the other as it was.
pub proof fn law_overrides_are_independent(
    overrides: PartitioningOverrides,
    value: PartitioningOverride,
)
    ensures
        overrides.with_option("value_partitioning"@, value).value_partitioning == value,
        overrides.with_option("value_partitioning"@, value).bucket_execution
            == overrides.bucket_execution,
        overrides.with_option("bucket_execution"@, value).bucket_execution == value,
        overrides.with_option("bucket_execution"@, value).value_partitioning
            == overrides.value_partitioning,
{
    reveal_strlit("value_partitioning");
    reveal_strlit("bucket_execution");
    assert("value_partitioning"@.len() != "bucket_execution"@.len());
}

/// An ASCII text is read as its letters spell it in any mixture of cases, and
/// nothing but `true` and `false` is read.
pub proof fn law_option_text_is_read_in_any_case(value: Seq<char>)
    requires
        is_ascii_chars(value),
    ensures
        option_bool(value) == Some(true) <==> value.len() == 4 && (value[0] == 't' || value[0]
            == 'T') && (value[1] == 'r' || value[1] == 'R') && (value[2] == 'u' || value[2] == 'U')
            && (value[3] == 'e' || value[3] == 'E'),
        option_bool(value) == Some(false) <==> value.len() == 5 && (value[0] == 'f' || value[0]
            == 'F') && (value[1] == 'a' || value[1] == 'A') && (value[2] == 'l' || value[2] == 'L')
            && (value[3] == 's' || value[3] == 'S') && (value[4] == 'e' || value[4] == 'E'),
{
    let lower = ascii_lowercase(value);
    law_only_true_and_false_are_truth_values(lower);
    let yes = seq!['t', 'r', 'u', 'e'];
    let no = seq!['f', 'a', 'l', 's', 'e'];
    assert(lower.len() == value.len());
    assert(lower == yes ==> lower[0] == 't' && lower[1] == 'r' && lower[2] == 'u' && lower[3]
        == 'e');
    assert(lower == no ==> lower[0] == 'f' && lower[1] == 'a' && lower[2] == 'l' && lower[3] == 's'
        && lower[4] == 'e');
    if value.len() == 4 && lower[0] == 't' && lower[1] == 'r' && lower[2] == 'u' && lower[3] == 'e' {
        assert(lower =~= yes);
    }
    if value.len() == 5 && lower[0] == 'f' && lower[1] == 'a' && lower[2] == 'l' && lower[3] == 's'
        && lower[4] == 'e' {
        assert(lower =~= no);
    }
}

/// What DataFusion reads from other text is what counts.
pub proof fn law_other_option_text_is_read_by_datafusion(value: Seq<char>)
    requires
        !is_ascii_chars(value),
    ensures
        option_bool(value) == unicode_option_bool(value),
{
}

/// There are two options, and no other name is one.
pub proof fn law_known_options(name: Seq<char>)
    ensures
        IcebergScanConfig::has_option("identity_partitioning_enabled"@),
        IcebergScanConfig::has_option("bucket_execution_enabled"@),
        IcebergScanConfig::has_option(name) ==> name == "identity_partitioning_enabled"@ || name
            == "bucket_execution_enabled"@,
{
}

/// There are two overrides, and no other name is one.
pub proof fn law_known_overrides(name: Seq<char>)
    ensures
        PartitioningOverrides::has_option("value_partitioning"@),
        PartitioningOverrides::has_option("bucket_execution"@),
        PartitioningOverrides::has_option(name) ==> name == "value_partitioning"@ || name
            == "bucket_execution"@,
{
}

/// Each override has one spelling, and no other text is one.
pub proof fn law_overrides_have_one_spelling(text: Seq<char>)
    ensures
        PartitioningOverride::spelled(text) == Some(PartitioningOverride::Auto) <==> text
            == "auto"@,
        PartitioningOverride::spelled(text) == Some(PartitioningOverride::Enabled) <==> text
            == "enabled"@,
        PartitioningOverride::spelled(text) == Some(PartitioningOverride::Disabled) <==> text
            == "disabled"@,
{
    reveal_strlit("auto");
    reveal_strlit("enabled");
    reveal_strlit("disabled");
    assert("auto"@.len() != "enabled"@.len());
    assert("auto"@.len() != "disabled"@.len());
    assert("enabled"@.len() != "disabled"@.len());
}

/// The message for an unknown option names the option and its owner, the one for
/// an invalid override the text that was given.
pub proof fn law_refusals_name_what_was_given(name: Seq<char>, owner: Seq<char>)
    ensures
        unknown_option_text(name, owner) == "Config value \""@ + name + "\" not found on "@ + owner,
        invalid_override_text(name) == "Invalid partitioning override \""@ + name
            + "\", expected 'auto', 'enabled' or 'disabled'"@,
{
}

/// A text is refused only where it gives no truth value, with DataFusion's own
/// error for it.
pub proof fn law_refused_text_gives_no_truth_value(error: PlanError, value: Seq<char>)
    requires
        is_option_error(error, value),
    ensures
        option_bool(value) is None,
        error matches PlanError::Reported(e) && datafusion_error_text(e) == option_error_text(
            value,
        ),
{
}

}
