//! The binding that asks the engine for the columns of a plan.

use polars::prelude::{LazyFrame, PolarsError};
use vstd::prelude::*;

verus! {

/// `LazyFrame::collect_schema` on a copy of the plan: the names of the
/// columns the plan yields, in order, or the engine's error. The engine may
/// read the source to answer, so nothing is promised of the names.
#[verifier::external_body]
#[inline]
pub(crate) fn schema_names(plan: &LazyFrame) -> (r: Result<Vec<String>, PolarsError>)
{
    let schema = plan.clone().collect_schema()?;
    Ok(schema.iter_names().map(|name| name.to_string()).collect())
}

} // verus!
