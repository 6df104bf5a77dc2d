//! The query engine: from an ordered list of operations to one lazy plan.
//! Nothing is materialized here; the log is folded into plan steps, and
//! only the removal of a column asks the engine for the columns so far.

use crate::engine::{limit, plan_limit};
use crate::operations::{log_view, Operation, OperationView};
use crate::plan_steps::{
    apply_step, drop_column, outcome_view, step_plan, step_result, EngineError, SchemaOutcome,
};
use crate::schema::schema_names;
use polars::prelude::LazyFrame;
use vstd::prelude::*;

verus! {

/// The plan after a log of operations, applied first to last, each to the
/// plan that the one before it left. `schemas` holds, for each operation,
/// the engine's answer on the columns at that point. The first failure ends
/// the fold.
pub open spec fn plan_result(
    plan: LazyFrame,
    ops: Seq<OperationView>,
    schemas: Seq<SchemaOutcome>,
) -> Result<LazyFrame, EngineError>
    decreases ops.len(),
{
    if ops.len() == 0 {
        Ok(plan)
    } else {
        match plan_result(plan, ops.drop_last(), schemas.drop_last()) {
            Err(error) => Err(error),
            Ok(before) => step_result(before, ops.last(), schemas.last()),
        }
    }
}

/// Whether no operation of the log removes a column.
pub open spec fn drops_nothing(ops: Seq<OperationView>) -> bool {
    forall|i: int| 0 <= i < ops.len() ==> !(#[trigger] ops[i] is DropColumn)
}

/// The plan after a log that removes no column: each operation's step on
/// top of the plan before it.
pub open spec fn plan_of(plan: LazyFrame, ops: Seq<OperationView>) -> LazyFrame
    decreases ops.len(),
{
    if ops.len() == 0 {
        plan
    } else {
        step_plan(plan_of(plan, ops.drop_last()), ops.last())
    }
}

/// Applies one operation to a plan. The removal of a column asks the engine
/// for the columns of the plan first; every other operation is one step.
#[inline]
pub fn apply_operation(plan: LazyFrame, op: &Operation) -> (r: Result<LazyFrame, EngineError>)
    ensures
        exists|schema: SchemaOutcome| r == step_result(plan, op@, schema),
        !(op@ is DropColumn) ==> r == Ok::<LazyFrame, EngineError>(step_plan(plan, op@)),
{
    match op {
        Operation::DropColumn(column) => {
            let schema = schema_names(&plan);
            let ghost outcome = outcome_view(schema);
            let out = drop_column(plan, schema, column.as_str());
            assert(out == step_result(plan, op@, outcome));
            out
        },
        _ => {
            let out = Ok(apply_step(plan, op));
            assert(out == step_result(plan, op@, Ok(Seq::empty())));
            out
        },
    }
}

/// Whether `r` is what folding `ops` over `plan` gives: the plan after all
/// of them, or the failure of the first operation that fails, after which
/// no later one is applied.
pub open spec fn folds_to(
    plan: LazyFrame,
    ops: Seq<OperationView>,
    r: Result<LazyFrame, EngineError>,
) -> bool {
    exists|n: int, schemas: Seq<SchemaOutcome>|
        {
            &&& 0 <= n <= ops.len()
            &&& schemas.len() == n
            &&& #[trigger] plan_result(plan, ops.take(n), schemas) == r
            &&& (r is Ok ==> n == ops.len())
            &&& (r is Err ==> n > 0 && plan_result(plan, ops.take(n - 1), schemas.take(n - 1))
                is Ok)
        }
}

/// A log that removes no column folds to one plan, whatever the engine
/// answers along the way: no step of it asks the engine anything.
pub proof fn lemma_fold_without_drop(
    plan: LazyFrame,
    ops: Seq<OperationView>,
    schemas: Seq<SchemaOutcome>,
)
    requires
        drops_nothing(ops),
    ensures
        plan_result(plan, ops, schemas) == Ok::<LazyFrame, EngineError>(plan_of(plan, ops)),
    decreases ops.len(),
{
    if ops.len() > 0 {
        assert forall|i: int| 0 <= i < ops.drop_last().len() implies !(
        #[trigger] ops.drop_last()[i] is DropColumn) by {
            assert(ops.drop_last()[i] == ops[i]);
        }
        lemma_fold_without_drop(plan, ops.drop_last(), schemas.drop_last());
        assert(!(ops[ops.len() - 1] is DropColumn));
    }
}

/// Building twice from one scanned source and one log gives the same plan,
/// and never a failure, where the log removes no column: such a plan is
/// fixed by the source and the log alone.
pub proof fn lemma_same_log_same_plan(
    plan: LazyFrame,
    ops: Seq<OperationView>,
    first: Result<LazyFrame, EngineError>,
    second: Result<LazyFrame, EngineError>,
)
    requires
        drops_nothing(ops),
        folds_to(plan, ops, first),
        folds_to(plan, ops, second),
    ensures
        first == second,
        first == Ok::<LazyFrame, EngineError>(plan_of(plan, ops)),
{
    lemma_fold_is_fixed(plan, ops, first);
    lemma_fold_is_fixed(plan, ops, second);
}

proof fn lemma_fold_is_fixed(
    plan: LazyFrame,
    ops: Seq<OperationView>,
    r: Result<LazyFrame, EngineError>,
)
    requires
        drops_nothing(ops),
        folds_to(plan, ops, r),
    ensures
        r == Ok::<LazyFrame, EngineError>(plan_of(plan, ops)),
{
    let (n, schemas) = choose|n: int, schemas: Seq<SchemaOutcome>|
        {
            &&& 0 <= n <= ops.len()
            &&& schemas.len() == n
            &&& #[trigger] plan_result(plan, ops.take(n), schemas) == r
            &&& (r is Ok ==> n == ops.len())
            &&& (r is Err ==> n > 0 && plan_result(plan, ops.take(n - 1), schemas.take(n - 1))
                is Ok)
        };
    assert forall|i: int| 0 <= i < ops.take(n).len() implies !(#[trigger] ops.take(
        n,
    )[i] is DropColumn) by {
        assert(ops.take(n)[i] == ops[i]);
    }
    lemma_fold_without_drop(plan, ops.take(n), schemas);
    assert(ops.take(ops.len() as int) =~= ops);
}

/// A built plan cut to its first `n` rows; a failure stays as it is.
pub open spec fn limited(built: Result<LazyFrame, EngineError>, n: u32) -> Result<
    LazyFrame,
    EngineError,
> {
    match built {
        Ok(plan) => Ok(plan_limit(plan, n)),
        Err(error) => Err(error),
    }
}

/// Folds the log over a scanned source, first operation first. Each
/// operation works on the plan that the one before it left.
#[inline]
pub fn build_lazy(scanned: LazyFrame, operations: &Vec<Operation>) -> (r: Result<
    LazyFrame,
    EngineError,
>)
    ensures
        folds_to(scanned, log_view(operations@), r),
        drops_nothing(log_view(operations@)) ==> r == Ok::<LazyFrame, EngineError>(
            plan_of(scanned, log_view(operations@)),
        ),
{
    let ghost ops = log_view(operations@);
    let ghost mut schemas: Seq<SchemaOutcome> = Seq::empty();
    let mut plan = scanned;
    let mut i: usize = 0;
    assert(ops.take(0) =~= Seq::<OperationView>::empty());
    while i < operations.len()
        invariant
            i <= operations.len(),
            ops == log_view(operations@),
            schemas.len() == i,
            plan_result(scanned, ops.take(i as int), schemas) == Ok::<LazyFrame, EngineError>(plan),
            drops_nothing(ops.take(i as int)) ==> plan == plan_of(scanned, ops.take(i as int)),
        decreases operations.len() - i,
    {
        let ghost before = plan;
        let step = apply_operation(plan, &operations[i]);
        let ghost schema = choose|schema: SchemaOutcome|
            step == step_result(before, operations@[i as int]@, schema);
        let ghost earlier = schemas;
        proof {
            schemas = schemas.push(schema);
            assert(ops.take(i + 1).drop_last() =~= ops.take(i as int));
            assert(schemas.drop_last() =~= earlier);
            assert(ops.take(i + 1).last() == operations@[i as int]@);
            assert(plan_result(scanned, ops.take(i + 1), schemas) == step);
            assert(schemas.take(i as int) =~= earlier);
        }
        match step {
            Err(error) => {
                proof {
                    assert(!drops_nothing(ops)) by {
                        if drops_nothing(ops) {
                            assert(ops[i as int] == operations@[i as int]@);
                        }
                    }
                }
                return Err(error);
            },
            Ok(next) => {
                proof {
                    if drops_nothing(ops.take(i + 1)) {
                        assert(ops.take(i + 1)[i as int] == operations@[i as int]@);
                        assert forall|k: int| 0 <= k < i implies !(#[trigger] ops.take(
                            i as int,
                        )[k] is DropColumn) by {
                            assert(ops.take(i + 1)[k] == ops.take(i as int)[k]);
                        }
                    }
                }
                plan = next;
            },
        }
        i = i + 1;
    }
    assert(ops.take(i as int) =~= ops);
    Ok(plan)
}

/// The plan of a preview: the log folded over the scanned source, then cut
/// to the first `n` rows.
#[inline]
pub fn preview(scanned: LazyFrame, operations: &Vec<Operation>, n: u32) -> (r: Result<
    LazyFrame,
    EngineError,
>)
    ensures
        exists|built: Result<LazyFrame, EngineError>| #[trigger]
            folds_to(scanned, log_view(operations@), built) && r == limited(built, n),
        drops_nothing(log_view(operations@)) ==> r == Ok::<LazyFrame, EngineError>(
            plan_limit(plan_of(scanned, log_view(operations@)), n),
        ),
{
    let built = build_lazy(scanned, operations);
    let out = match built {
        Ok(plan) => Ok(limit(plan, n)),
        Err(error) => Err(error),
    };
    assert(out == limited(built, n));
    out
}

} // verus!
