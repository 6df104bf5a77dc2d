use dafer_utils::operations::{DTypeTag, FillNullStrategy, FilterOp};
use dafer_utils::plan_steps::{
    build_cast_expr, build_datetime_expr, build_fill_expr, build_filter_expr, column_list,
    parse_literal,
};
use polars::prelude::{
    AggExpr, AnyValue, BooleanFunction, DataType, DataTypeExpr, Expr, FunctionExpr,
    LiteralValue, Operator, StringFunction, TimeUnit,
};

fn column_of(e: &Expr) -> Option<String> {
    match e {
        Expr::Column(name) => Some(name.as_str().to_string()),
        _ => None,
    }
}

fn int_of(e: &Expr) -> Option<i64> {
    match e {
        Expr::Literal(LiteralValue::Dyn(value)) => {
            LiteralValue::Dyn(value.clone()).extract_i64().ok()
        },
        _ => None,
    }
}

fn bool_of(e: &Expr) -> Option<bool> {
    match e {
        Expr::Literal(LiteralValue::Scalar(scalar)) => match scalar.value() {
            AnyValue::Boolean(b) => Some(*b),
            _ => None,
        },
        _ => None,
    }
}

fn text_of(e: &Expr) -> Option<String> {
    match e {
        Expr::Literal(LiteralValue::Scalar(scalar)) => match scalar.value() {
            AnyValue::StringOwned(s) => Some(s.as_str().to_string()),
            AnyValue::String(s) => Some(s.to_string()),
            _ => None,
        },
        _ => None,
    }
}

fn is_untyped_number(e: &Expr) -> bool {
    matches!(e, Expr::Literal(LiteralValue::Dyn(_)))
}

fn compares(op: FilterOp, expected: Operator) -> bool {
    match build_filter_expr("id", &op, "4") {
        Expr::BinaryExpr { left, op, right } => {
            op == expected && column_of(&left) == Some("id".to_string()) && int_of(&right) == Some(4)
        },
        _ => false,
    }
}

#[test]
fn literals_are_built_as_the_engine_builds_them() {
    assert_eq!(int_of(&parse_literal("42")), Some(42));
    assert_eq!(int_of(&parse_literal("-7")), Some(-7));
    assert_eq!(int_of(&parse_literal("9223372036854775807")), Some(i64::MAX));
    assert_eq!(bool_of(&parse_literal("true")), Some(true));
    assert_eq!(bool_of(&parse_literal("false")), Some(false));
    assert_eq!(text_of(&parse_literal("hello")), Some("hello".to_string()));
    assert_eq!(text_of(&parse_literal("")), Some(String::new()));
    assert_eq!(text_of(&parse_literal("True")), Some("True".to_string()));
}

#[test]
fn a_float_literal_is_a_number_and_no_integer() {
    for text in ["3.14", "1e3", "inf", "nan", "9223372036854775808"] {
        let built = parse_literal(text);
        assert!(is_untyped_number(&built), "{text}");
        assert_eq!(int_of(&built), None, "{text}");
    }
}

#[test]
fn a_literal_has_one_reading_only() {
    assert_eq!(bool_of(&parse_literal("42")), None);
    assert_eq!(text_of(&parse_literal("42")), None);
    assert_eq!(int_of(&parse_literal("true")), None);
    assert_eq!(text_of(&parse_literal("true")), None);
    assert_eq!(int_of(&parse_literal("x")), None);
    assert_eq!(bool_of(&parse_literal("x")), None);
}

#[test]
fn each_comparison_has_its_own_operator() {
    assert!(compares(FilterOp::Eq, Operator::Eq));
    assert!(compares(FilterOp::Neq, Operator::NotEq));
    assert!(compares(FilterOp::Gt, Operator::Gt));
    assert!(compares(FilterOp::Gte, Operator::GtEq));
    assert!(compares(FilterOp::Lt, Operator::Lt));
    assert!(compares(FilterOp::Lte, Operator::LtEq));
    assert!(!compares(FilterOp::Eq, Operator::NotEq));
    assert!(!compares(FilterOp::IsNull, Operator::Eq));
    assert!(!compares(FilterOp::Contains, Operator::Eq));
}

#[test]
fn a_comparison_reads_the_literal_of_its_value() {
    match build_filter_expr("name", &FilterOp::Eq, "cyd") {
        Expr::BinaryExpr { left, op: Operator::Eq, right } => {
            assert_eq!(column_of(&left), Some("name".to_string()));
            assert_eq!(text_of(&right), Some("cyd".to_string()));
        },
        _ => panic!("not a comparison"),
    }
    match build_filter_expr("member", &FilterOp::Neq, "true") {
        Expr::BinaryExpr { right, .. } => assert_eq!(bool_of(&right), Some(true)),
        _ => panic!("not a comparison"),
    }
}

#[test]
fn the_null_tests_take_the_column_alone() {
    match build_filter_expr("x", &FilterOp::IsNull, "ignored") {
        Expr::Function { input, function: FunctionExpr::Boolean(BooleanFunction::IsNull) } => {
            assert_eq!(input.len(), 1);
            assert_eq!(column_of(&input[0]), Some("x".to_string()));
        },
        _ => panic!("not a null test"),
    }
    match build_filter_expr("x", &FilterOp::IsNotNull, "7") {
        Expr::Function { input, function: FunctionExpr::Boolean(BooleanFunction::IsNotNull) } => {
            assert_eq!(input.len(), 1);
            assert_eq!(column_of(&input[0]), Some("x".to_string()));
        },
        _ => panic!("not a null test"),
    }
}

#[test]
fn contains_looks_for_the_value_as_plain_text() {
    match build_filter_expr("name", &FilterOp::Contains, "4.2") {
        Expr::Function {
            input,
            function:
                FunctionExpr::StringExpr(StringFunction::Contains { literal: true, strict: false }),
        } => {
            assert_eq!(input.len(), 2);
            assert_eq!(column_of(&input[0]), Some("name".to_string()));
            assert_eq!(text_of(&input[1]), Some("4.2".to_string()));
        },
        _ => panic!("not a substring test"),
    }
}

fn replacement(strategy: FillNullStrategy, value: Option<&str>) -> Expr {
    match build_fill_expr("x", &strategy, &value.map(|v| v.to_string())) {
        Expr::Function { mut input, function: FunctionExpr::FillNull } => {
            assert_eq!(input.len(), 2);
            assert_eq!(column_of(&input[0]), Some("x".to_string()));
            input.pop().unwrap()
        },
        _ => panic!("not a fill"),
    }
}

fn shift_of(e: Expr) -> Option<i64> {
    match e {
        Expr::Function { input, function: FunctionExpr::Shift } => {
            assert_eq!(input.len(), 2);
            assert_eq!(column_of(&input[0]), Some("x".to_string()));
            int_of(&input[1])
        },
        _ => None,
    }
}

#[test]
fn forward_and_backward_fill_shift_by_one_row() {
    assert_eq!(shift_of(replacement(FillNullStrategy::Forward, None)), Some(1));
    assert_eq!(shift_of(replacement(FillNullStrategy::Backward, None)), Some(-1));
}

#[test]
fn fill_with_value_reads_the_literal() {
    assert_eq!(int_of(&replacement(FillNullStrategy::WithValue, Some("7"))), Some(7));
    let word = replacement(FillNullStrategy::WithValue, Some("none"));
    assert_eq!(text_of(&word), Some("none".to_string()));
    let absent = replacement(FillNullStrategy::WithValue, None);
    assert_eq!(text_of(&absent), Some(String::new()));
}

#[test]
fn fill_with_an_aggregate_takes_it_over_the_column() {
    match replacement(FillNullStrategy::Mean, Some("ignored")) {
        Expr::Agg(AggExpr::Mean(input)) => assert_eq!(column_of(&input), Some("x".to_string())),
        _ => panic!("not a mean"),
    }
    match replacement(FillNullStrategy::Min, None) {
        Expr::Agg(AggExpr::Min { input, propagate_nans: false }) => {
            assert_eq!(column_of(&input), Some("x".to_string()))
        },
        _ => panic!("not a minimum"),
    }
    match replacement(FillNullStrategy::Max, None) {
        Expr::Agg(AggExpr::Max { input, propagate_nans: false }) => {
            assert_eq!(column_of(&input), Some("x".to_string()))
        },
        _ => panic!("not a maximum"),
    }
}

fn target_of(tag: DTypeTag) -> DataType {
    match build_cast_expr("x", &tag) {
        Expr::Cast { expr, dtype: DataTypeExpr::Literal(dtype), .. } => {
            assert_eq!(column_of(&expr), Some("x".to_string()));
            dtype
        },
        _ => panic!("not a cast"),
    }
}

#[test]
fn a_cast_names_the_engine_type() {
    assert!(matches!(target_of(DTypeTag::Int32), DataType::Int32));
    assert!(matches!(target_of(DTypeTag::Int64), DataType::Int64));
    assert!(matches!(target_of(DTypeTag::Float32), DataType::Float32));
    assert!(matches!(target_of(DTypeTag::Float64), DataType::Float64));
    assert!(matches!(target_of(DTypeTag::Utf8String), DataType::String));
    assert!(matches!(target_of(DTypeTag::Boolean), DataType::Boolean));
    assert!(matches!(target_of(DTypeTag::Date), DataType::Date));
}

#[test]
fn cast_targets_are_the_engine_types() {
    assert!(matches!(DTypeTag::Int32.to_polars(), DataType::Int32));
    assert!(matches!(DTypeTag::Int64.to_polars(), DataType::Int64));
    assert!(matches!(DTypeTag::Float32.to_polars(), DataType::Float32));
    assert!(matches!(DTypeTag::Float64.to_polars(), DataType::Float64));
    assert!(matches!(DTypeTag::Utf8String.to_polars(), DataType::String));
    assert!(matches!(DTypeTag::Boolean.to_polars(), DataType::Boolean));
    assert!(matches!(DTypeTag::Date.to_polars(), DataType::Date));
}

#[test]
fn timestamps_parse_by_format_without_failing_on_bad_values() {
    match build_datetime_expr("at", "%Y-%m-%d") {
        Expr::Function {
            input,
            function: FunctionExpr::StringExpr(StringFunction::Strptime(dtype, options)),
        } => {
            assert_eq!(input.len(), 2);
            assert_eq!(column_of(&input[0]), Some("at".to_string()));
            assert_eq!(text_of(&input[1]), Some("null".to_string()));
            assert!(matches!(
                dtype,
                DataTypeExpr::Literal(DataType::Datetime(TimeUnit::Microseconds, None))
            ));
            assert_eq!(options.format.as_ref().map(|f| f.as_str()), Some("%Y-%m-%d"));
            assert!(!options.strict);
            assert!(options.exact);
        },
        _ => panic!("not a timestamp parse"),
    }
}

#[test]
fn a_column_list_has_one_expression_per_name() {
    let exprs = column_list(&vec!["score".to_string(), "id".to_string()]);
    let names: Vec<Option<String>> = exprs.iter().map(column_of).collect();
    assert_eq!(names, vec![Some("score".to_string()), Some("id".to_string())]);
    assert!(column_list(&Vec::new()).is_empty());
}
