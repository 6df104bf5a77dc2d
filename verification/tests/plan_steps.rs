use std::sync::Arc;

use dafer_utils::datasource::{DataSource, DataSourceType};
use dafer_utils::operations::{DTypeTag, FillNullStrategy, FilterOp, Operation};
use dafer_utils::plan_steps::{apply_step, drop_column, EngineError};
use polars::prelude::{DslPlan, Expr, FunctionExpr, LazyFrame, Operator, PolarsError};

fn start() -> LazyFrame {
    LazyFrame::from(DslPlan::SinkMultiple { inputs: Vec::new() })
}

fn is_start(plan: &Arc<DslPlan>) -> bool {
    matches!(**plan, DslPlan::SinkMultiple { .. })
}

fn column_of(e: &Expr) -> Option<String> {
    match e {
        Expr::Column(name) => Some(name.as_str().to_string()),
        _ => None,
    }
}

fn columns_of(exprs: &[Expr]) -> Vec<Option<String>> {
    exprs.iter().map(column_of).collect()
}

fn named(names: &[&str]) -> Vec<Option<String>> {
    names.iter().map(|n| Some(n.to_string())).collect()
}

#[test]
fn a_filter_step_holds_the_predicate() {
    let op = Operation::Filter {
        column: "id".to_string(),
        op: FilterOp::Gt,
        value: "3".to_string(),
    };
    match apply_step(start(), &op).logical_plan {
        DslPlan::Filter { input, predicate } => {
            assert!(is_start(&input));
            assert!(matches!(predicate, Expr::BinaryExpr { op: Operator::Gt, .. }));
        },
        _ => panic!("not a filter"),
    }
}

#[test]
fn a_sort_step_sorts_by_one_column() {
    for descending in [true, false] {
        let op = Operation::Sort { column: "id".to_string(), descending };
        match apply_step(start(), &op).logical_plan {
            DslPlan::Sort { input, by_column, slice, sort_options } => {
                assert!(is_start(&input));
                assert_eq!(columns_of(&by_column), named(&["id"]));
                assert!(slice.is_none());
                assert_eq!(sort_options.descending, vec![descending]);
                assert!(sort_options.maintain_order);
            },
            _ => panic!("not a sort"),
        }
    }
}

#[test]
fn a_rename_step_maps_over_the_plan() {
    let op = Operation::RenameColumn { from: "a".to_string(), to: "b".to_string() };
    match apply_step(start(), &op).logical_plan {
        DslPlan::MapFunction { input, .. } => assert!(is_start(&input)),
        _ => panic!("not a renaming"),
    }
}

#[test]
fn a_select_step_projects_in_the_given_order() {
    let op = Operation::SelectColumns(vec!["score".to_string(), "id".to_string()]);
    match apply_step(start(), &op).logical_plan {
        DslPlan::Select { expr, input, .. } => {
            assert!(is_start(&input));
            assert_eq!(columns_of(&expr), named(&["score", "id"]));
        },
        _ => panic!("not a projection"),
    }
}

#[test]
fn a_limit_step_is_a_slice_from_the_start() {
    match apply_step(start(), &Operation::Limit(3)).logical_plan {
        DslPlan::Slice { input, offset: 0, len: 3 } => assert!(is_start(&input)),
        _ => panic!("not a slice"),
    }
}

#[test]
fn a_fill_step_replaces_one_column() {
    let op = Operation::FillNull {
        column: "x".to_string(),
        strategy: FillNullStrategy::Mean,
        value: None,
    };
    match apply_step(start(), &op).logical_plan {
        DslPlan::HStack { input, exprs, .. } => {
            assert!(is_start(&input));
            assert_eq!(exprs.len(), 1);
            assert!(matches!(exprs[0], Expr::Function { function: FunctionExpr::FillNull, .. }));
        },
        _ => panic!("not a column replacement"),
    }
}

#[test]
fn a_cast_step_replaces_one_column() {
    let op = Operation::CastColumn { column: "x".to_string(), dtype: DTypeTag::Int64 };
    match apply_step(start(), &op).logical_plan {
        DslPlan::HStack { input, exprs, .. } => {
            assert!(is_start(&input));
            assert_eq!(exprs.len(), 1);
            assert!(matches!(exprs[0], Expr::Cast { .. }));
        },
        _ => panic!("not a column replacement"),
    }
}

#[test]
fn a_timestamp_step_replaces_one_column() {
    let op = Operation::ParseDatetime { column: "t".to_string(), format: "%Y".to_string() };
    match apply_step(start(), &op).logical_plan {
        DslPlan::HStack { input, exprs, .. } => {
            assert!(is_start(&input));
            assert_eq!(exprs.len(), 1);
            assert!(matches!(exprs[0], Expr::Function { .. }));
        },
        _ => panic!("not a column replacement"),
    }
}

#[test]
fn a_drop_is_no_step_of_its_own() {
    let plan = apply_step(start(), &Operation::DropColumn("x".to_string()));
    assert!(matches!(plan.logical_plan, DslPlan::SinkMultiple { .. }));
}

#[test]
fn each_step_sits_on_the_plan_before_it() {
    let sorted = apply_step(start(), &Operation::Sort { column: "id".to_string(), descending: true });
    let cut = apply_step(sorted, &Operation::Limit(2));
    match cut.logical_plan {
        DslPlan::Slice { input, offset: 0, len: 2 } => match &*input {
            DslPlan::Sort { input, .. } => assert!(is_start(input)),
            _ => panic!("the sort is not below the slice"),
        },
        _ => panic!("not a slice"),
    }
}

#[test]
fn dropping_a_column_projects_to_the_others() {
    let names = vec!["id".to_string(), "name".to_string(), "score".to_string()];
    match drop_column(start(), Ok(names), "name") {
        Ok(plan) => match plan.logical_plan {
            DslPlan::Select { expr, input, .. } => {
                assert!(is_start(&input));
                assert_eq!(columns_of(&expr), named(&["id", "score"]));
            },
            _ => panic!("not a projection"),
        },
        Err(_) => panic!("a column was left"),
    }
}

#[test]
fn dropping_a_column_that_is_not_there_fails() {
    let names = vec!["a".to_string(), "b".to_string()];
    let missing = drop_column(start(), Ok(names), "zzz");
    assert!(matches!(missing, Err(EngineError::UnknownColumn)));
    let nearly = drop_column(start(), Ok(vec!["id".to_string()]), "ID");
    assert!(matches!(nearly, Err(EngineError::UnknownColumn)));
    let none = drop_column(start(), Ok(Vec::new()), "id");
    assert!(matches!(none, Err(EngineError::UnknownColumn)));
    assert_eq!(EngineError::UnknownColumn.message(), "Cannot drop a column that is not there");
}

#[test]
fn dropping_the_last_column_fails() {
    let only = drop_column(start(), Ok(vec!["id".to_string()]), "id");
    assert!(matches!(only, Err(EngineError::DropAllColumns)));
    assert_eq!(EngineError::DropAllColumns.message(), "Cannot drop all columns");
}

#[test]
fn a_scan_without_numeric_text_columns_is_the_opened_file() {
    let source = DataSource {
        path: "a.csv".to_string(),
        source_type: DataSourceType::Csv,
        auto_numeric_cols: Vec::new(),
    };
    assert!(matches!(source.scan(start()).logical_plan, DslPlan::SinkMultiple { .. }));
}

#[test]
fn a_scan_casts_the_numeric_text_columns() {
    let source = DataSource {
        path: "a.csv".to_string(),
        source_type: DataSourceType::Csv,
        auto_numeric_cols: vec!["score".to_string(), "price".to_string()],
    };
    match source.scan(start()).logical_plan {
        DslPlan::HStack { input, exprs, .. } => {
            assert!(is_start(&input));
            let cast: Vec<Option<String>> = exprs
                .iter()
                .map(|e| match e {
                    Expr::Cast { expr, .. } => column_of(expr),
                    _ => None,
                })
                .collect();
            assert_eq!(cast, named(&["score", "price"]));
        },
        _ => panic!("not a column replacement"),
    }
}

#[test]
fn what_the_engine_cannot_resolve_is_reported_in_its_words() {
    let unresolved = Err(PolarsError::ColumnNotFound("nowhere".into()));
    match drop_column(start(), unresolved, "id") {
        Err(EngineError::Schema(error)) => {
            let shown = EngineError::Schema(error).message();
            assert!(shown.contains("nowhere"), "{shown}");
        },
        _ => panic!("the error was lost"),
    }
}
