//! Filters that a scan pushes down to the table.

use iceberg::expr::Predicate;
use vstd::prelude::*;

verus! {

/// Iceberg's `Predicate`, carried along to the table scan.
#[verifier::external_type_specification]
#[verifier::external_body]
pub struct ExPredicate(Predicate);

}
