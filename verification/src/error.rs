//! Errors of scan and write planning.

use vstd::prelude::*;

verus! {

/// Iceberg's own `Error`, carried along as it came.
#[verifier::external_type_specification]
#[verifier::external_body]
pub struct ExIcebergError(iceberg::Error);

/// DataFusion's own `DataFusionError`, carried along as it came.
#[verifier::external_type_specification]
#[verifier::external_body]
pub struct ExDataFusionError(datafusion::error::DataFusionError);

/// The text that Iceberg's `Error` displays as.
pub uninterp spec fn iceberg_error_text(error: iceberg::Error) -> Seq<char>;

/// The text that DataFusion's `DataFusionError` displays as.
pub uninterp spec fn datafusion_error_text(error: datafusion::error::DataFusionError) -> Seq<char>;

/// What goes wrong on the table side.
#[derive(Debug)]
pub enum TableError {
    /// Something that a consistent table does not lead to.
    Unexpected(String),
    /// Table metadata that cannot be used, with the text of the error behind it.
    DataInvalid { message: String, source: Option<String> },
    /// A request that this kind of table does not serve.
    FeatureUnsupported(String),
    /// An error that the Iceberg library reported.
    Iceberg(iceberg::Error),
}

/// What goes wrong while a query is planned or executed.
#[derive(Debug)]
pub enum PlanError {
    /// A plan that cannot be made from the table's settings.
    Plan(String),
    /// A request that the planner should never make.
    Internal(String),
    /// A session setting that cannot be used.
    Configuration(String),
    /// An error on the table side.
    External(TableError),
    /// An error that the DataFusion library reported.
    Reported(datafusion::error::DataFusionError),
}

/// Hands an error on the table side to the query side.
pub fn to_datafusion_error(error: TableError) -> (e: PlanError)
    ensures
        e == PlanError::External(error),
{
    PlanError::External(error)
}

}
