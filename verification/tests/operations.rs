use dafer_utils::operations::{
    clone_strings, same_strings, DTypeTag, FillNullStrategy, FilterOp, Operation, OperationType,
};

fn filter(op: FilterOp) -> Operation {
    Operation::Filter { column: "age".to_string(), op, value: "18".to_string() }
}

#[test]
fn filter_ops_are_listed_once_in_order() {
    assert_eq!(
        FilterOp::all(),
        &[
            FilterOp::Eq,
            FilterOp::Neq,
            FilterOp::Gt,
            FilterOp::Gte,
            FilterOp::Lt,
            FilterOp::Lte,
            FilterOp::Contains,
            FilterOp::IsNull,
            FilterOp::IsNotNull,
        ]
    );
}

#[test]
fn null_tests_need_no_value() {
    for op in FilterOp::all() {
        let expected = !matches!(op, FilterOp::IsNull | FilterOp::IsNotNull);
        assert_eq!(op.needs_value(), expected);
    }
}

#[test]
fn filter_op_labels() {
    let labels: Vec<&str> = FilterOp::all().iter().map(|op| op.label()).collect();
    assert_eq!(labels, vec!["=", "≠", ">", "≥", "<", "≤", "contains", "is null", "is not null"]);
}

#[test]
fn fill_strategies_are_listed_once_in_order() {
    assert_eq!(
        FillNullStrategy::all(),
        &[
            FillNullStrategy::Forward,
            FillNullStrategy::Backward,
            FillNullStrategy::WithValue,
            FillNullStrategy::Mean,
            FillNullStrategy::Min,
            FillNullStrategy::Max,
        ]
    );
}

#[test]
fn only_with_value_needs_a_value() {
    for strategy in FillNullStrategy::all() {
        assert_eq!(strategy.needs_value(), *strategy == FillNullStrategy::WithValue);
    }
}

#[test]
fn fill_strategy_labels() {
    let labels: Vec<&str> = FillNullStrategy::all().iter().map(|s| s.label()).collect();
    assert_eq!(labels, vec!["Forward Fill", "Backward Fill", "With Value", "Mean", "Min", "Max"]);
}

#[test]
fn dtype_tags_are_listed_once_in_order() {
    assert_eq!(
        DTypeTag::all(),
        &[
            DTypeTag::Int32,
            DTypeTag::Int64,
            DTypeTag::Float32,
            DTypeTag::Float64,
            DTypeTag::Utf8String,
            DTypeTag::Boolean,
            DTypeTag::Date,
        ]
    );
}

#[test]
fn dtype_tag_labels() {
    let labels: Vec<&str> = DTypeTag::all().iter().map(|t| t.label()).collect();
    assert_eq!(labels, vec!["Int32", "Int64", "Float32", "Float64", "String", "Boolean", "Date"]);
}

#[test]
fn operation_types_are_listed_once_in_order() {
    assert_eq!(
        OperationType::all(),
        &[
            OperationType::Filter,
            OperationType::Sort,
            OperationType::DropColumn,
            OperationType::RenameColumn,
            OperationType::SelectColumns,
            OperationType::Limit,
            OperationType::FillNull,
            OperationType::CastColumn,
            OperationType::ParseDatetime,
        ]
    );
}

#[test]
fn operation_type_labels() {
    let labels: Vec<&str> = OperationType::all().iter().map(|t| t.label()).collect();
    assert_eq!(
        labels,
        vec![
            "Filter",
            "Sort",
            "Drop Column",
            "Rename Column",
            "Select Columns",
            "Limit Rows",
            "Fill Null",
            "Cast Column Type",
            "Parse Datetime",
        ]
    );
}

#[test]
fn defaults() {
    assert_eq!(FilterOp::default(), FilterOp::Eq);
    assert_eq!(FillNullStrategy::default(), FillNullStrategy::Forward);
    assert_eq!(DTypeTag::default(), DTypeTag::Float64);
    assert_eq!(OperationType::default(), OperationType::Filter);
}

#[test]
fn filter_description_shows_the_value() {
    assert_eq!(filter(FilterOp::Gte).description(), "Filter: age ≥ 18");
    assert_eq!(filter(FilterOp::Eq).description(), "Filter: age = 18");
    assert_eq!(filter(FilterOp::Contains).description(), "Filter: age contains 18");
}

#[test]
fn null_filter_description_hides_the_value() {
    assert_eq!(filter(FilterOp::IsNull).description(), "Filter: age is null");
    assert_eq!(filter(FilterOp::IsNotNull).description(), "Filter: age is not null");
}

#[test]
fn sort_description() {
    let up = Operation::Sort { column: "id".to_string(), descending: false };
    let down = Operation::Sort { column: "id".to_string(), descending: true };
    assert_eq!(up.description(), "Sort: id ASC");
    assert_eq!(down.description(), "Sort: id DESC");
}

#[test]
fn drop_and_rename_descriptions() {
    assert_eq!(Operation::DropColumn("x".to_string()).description(), "Drop: x");
    let rename = Operation::RenameColumn { from: "a".to_string(), to: "b".to_string() };
    assert_eq!(rename.description(), "Rename: a → b");
}

#[test]
fn select_description_joins_with_commas() {
    let three = Operation::SelectColumns(vec!["a".to_string(), "b".to_string(), "c".to_string()]);
    assert_eq!(three.description(), "Select: a, b, c");
    assert_eq!(Operation::SelectColumns(vec!["a".to_string()]).description(), "Select: a");
    assert_eq!(Operation::SelectColumns(Vec::new()).description(), "Select: ");
}

#[test]
fn limit_description_is_decimal() {
    assert_eq!(Operation::Limit(0).description(), "Limit: 0");
    assert_eq!(Operation::Limit(7).description(), "Limit: 7");
    assert_eq!(Operation::Limit(1000).description(), "Limit: 1000");
    assert_eq!(Operation::Limit(u32::MAX).description(), "Limit: 4294967295");
}

#[test]
fn fill_cast_and_parse_descriptions() {
    let fill = Operation::FillNull {
        column: "x".to_string(),
        strategy: FillNullStrategy::WithValue,
        value: Some("0".to_string()),
    };
    assert_eq!(fill.description(), "FillNull: x (With Value)");
    let cast = Operation::CastColumn { column: "x".to_string(), dtype: DTypeTag::Utf8String };
    assert_eq!(cast.description(), "Cast: x → String");
    let parse = Operation::ParseDatetime { column: "t".to_string(), format: "%Y-%m-%d".to_string() };
    assert_eq!(parse.description(), "ParseDatetime: t (%Y-%m-%d)");
}

fn one_of_each() -> Vec<Operation> {
    vec![
        filter(FilterOp::Lt),
        Operation::Sort { column: "id".to_string(), descending: true },
        Operation::DropColumn("x".to_string()),
        Operation::RenameColumn { from: "a".to_string(), to: "b".to_string() },
        Operation::SelectColumns(vec!["a".to_string(), "b".to_string()]),
        Operation::Limit(3),
        Operation::FillNull {
            column: "x".to_string(),
            strategy: FillNullStrategy::WithValue,
            value: Some("0".to_string()),
        },
        Operation::CastColumn { column: "x".to_string(), dtype: DTypeTag::Int32 },
        Operation::ParseDatetime { column: "t".to_string(), format: "%Y".to_string() },
    ]
}

#[test]
fn a_clone_is_the_same_operation() {
    for op in one_of_each() {
        assert!(op.clone().same_as(&op));
    }
}

#[test]
fn different_variants_are_not_the_same() {
    let ops = one_of_each();
    for (i, a) in ops.iter().enumerate() {
        for (j, b) in ops.iter().enumerate() {
            assert_eq!(a.same_as(b), i == j);
        }
    }
}

#[test]
fn a_changed_field_is_not_the_same() {
    assert!(!filter(FilterOp::Lt).same_as(&filter(FilterOp::Lte)));
    assert!(!Operation::Limit(3).same_as(&Operation::Limit(4)));
    let with = Operation::FillNull {
        column: "x".to_string(),
        strategy: FillNullStrategy::WithValue,
        value: Some("0".to_string()),
    };
    let without = Operation::FillNull {
        column: "x".to_string(),
        strategy: FillNullStrategy::WithValue,
        value: None,
    };
    assert!(!with.same_as(&without));
    let ab = Operation::SelectColumns(vec!["a".to_string(), "b".to_string()]);
    let ba = Operation::SelectColumns(vec!["b".to_string(), "a".to_string()]);
    assert!(!ab.same_as(&ba));
}

#[test]
fn string_lists_compare_in_order() {
    let ab = vec!["a".to_string(), "b".to_string()];
    assert!(same_strings(&ab, &clone_strings(&ab)));
    assert!(!same_strings(&ab, &vec!["a".to_string()]));
    assert!(!same_strings(&ab, &vec!["b".to_string(), "a".to_string()]));
    assert!(same_strings(&Vec::new(), &Vec::new()));
}
