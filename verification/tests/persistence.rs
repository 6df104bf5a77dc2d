use dafer_utils::datasource::{DataSource, DataSourceType};
use dafer_utils::operations::{DTypeTag, FillNullStrategy, FilterOp, Operation};
use dafer_utils::persistence::{DecodeError, PersistentState};

fn s(text: &str) -> String {
    text.to_string()
}

fn one_of_each() -> Vec<Operation> {
    vec![
        Operation::Filter { column: s("âge"), op: FilterOp::Gt, value: s("18") },
        Operation::Sort { column: s("id"), descending: true },
        Operation::DropColumn(s("x")),
        Operation::RenameColumn { from: s("a"), to: s("b → c") },
        Operation::SelectColumns(vec![s("a"), s(""), s("c")]),
        Operation::Limit(7),
        Operation::FillNull {
            column: s("x"),
            strategy: FillNullStrategy::WithValue,
            value: Some(s("0")),
        },
        Operation::FillNull { column: s("y"), strategy: FillNullStrategy::Mean, value: None },
        Operation::CastColumn { column: s("x"), dtype: DTypeTag::Utf8String },
        Operation::ParseDatetime { column: s("t"), format: s("%Y-%m-%d %H:%M:%S") },
    ]
}

fn rich() -> PersistentState {
    PersistentState {
        source: Some(DataSource {
            path: s("/data/Ünïcode.csv"),
            source_type: DataSourceType::Csv,
            auto_numeric_cols: vec![s("score"), s("prix €")],
        }),
        operations: one_of_each(),
    }
}

fn same(a: &PersistentState, b: &PersistentState) -> bool {
    let same_source = match (&a.source, &b.source) {
        (None, None) => true,
        (Some(x), Some(y)) => {
            x.path == y.path
                && x.source_type == y.source_type
                && x.auto_numeric_cols == y.auto_numeric_cols
        },
        _ => false,
    };
    same_source
        && a.operations.len() == b.operations.len()
        && a.operations.iter().zip(b.operations.iter()).all(|(x, y)| x.same_as(y))
}

fn encoded_by_bincode() -> Vec<u8> {
    let mut bytes = Vec::new();
    let source = Some(("/data/Ünïcode.csv", 0u32, vec!["score", "prix €"]));
    bytes.extend(bincode::serialize(&source).unwrap());
    bytes.extend(bincode::serialize(&10u64).unwrap());
    bytes.extend(bincode::serialize(&(0u32, "âge", 2u32, "18")).unwrap());
    bytes.extend(bincode::serialize(&(1u32, "id", true)).unwrap());
    bytes.extend(bincode::serialize(&(2u32, "x")).unwrap());
    bytes.extend(bincode::serialize(&(3u32, "a", "b → c")).unwrap());
    bytes.extend(bincode::serialize(&(4u32, vec!["a", "", "c"])).unwrap());
    bytes.extend(bincode::serialize(&(5u32, 7u32)).unwrap());
    bytes.extend(bincode::serialize(&(6u32, "x", 2u32, Some("0"))).unwrap());
    bytes.extend(bincode::serialize(&(6u32, "y", 3u32, None::<&str>)).unwrap());
    bytes.extend(bincode::serialize(&(7u32, "x", 4u32)).unwrap());
    bytes.extend(bincode::serialize(&(8u32, "t", "%Y-%m-%d %H:%M:%S")).unwrap());
    bytes
}

#[test]
fn an_empty_state_is_nine_zero_bytes() {
    let bytes = PersistentState::default().to_bytes();
    assert_eq!(bytes, vec![0u8; 9]);
    let expected = bincode::serialize(&(None::<u8>, Vec::<u8>::new())).unwrap();
    assert_eq!(bytes, expected);
}

#[test]
fn a_state_is_written_as_bincode_writes_it() {
    assert_eq!(rich().to_bytes(), encoded_by_bincode());
}

#[test]
fn every_variant_index_is_written_as_bincode_writes_it() {
    for (index, op) in FilterOp::all().iter().enumerate() {
        let state = PersistentState {
            source: None,
            operations: vec![Operation::Filter { column: s("c"), op: *op, value: s("v") }],
        };
        let mut expected = bincode::serialize(&(None::<u8>, 1u64)).unwrap();
        expected.extend(bincode::serialize(&(0u32, "c", index as u32, "v")).unwrap());
        assert_eq!(state.to_bytes(), expected);
    }
    for (index, strategy) in FillNullStrategy::all().iter().enumerate() {
        let state = PersistentState {
            source: None,
            operations: vec![Operation::FillNull {
                column: s("c"),
                strategy: *strategy,
                value: None,
            }],
        };
        let mut expected = bincode::serialize(&(None::<u8>, 1u64)).unwrap();
        expected.extend(bincode::serialize(&(6u32, "c", index as u32, None::<&str>)).unwrap());
        assert_eq!(state.to_bytes(), expected);
    }
    for (index, dtype) in DTypeTag::all().iter().enumerate() {
        let state = PersistentState {
            source: None,
            operations: vec![Operation::CastColumn { column: s("c"), dtype: *dtype }],
        };
        let mut expected = bincode::serialize(&(None::<u8>, 1u64)).unwrap();
        expected.extend(bincode::serialize(&(7u32, "c", index as u32)).unwrap());
        assert_eq!(state.to_bytes(), expected);
    }
    let parquet = PersistentState {
        source: Some(DataSource {
            path: s("a.pq"),
            source_type: DataSourceType::Parquet,
            auto_numeric_cols: Vec::new(),
        }),
        operations: Vec::new(),
    };
    let expected = bincode::serialize(&(Some(("a.pq", 1u32, Vec::<&str>::new())), 0u64)).unwrap();
    assert_eq!(parquet.to_bytes(), expected);
}

#[test]
fn a_written_state_is_read_back_as_it_was() {
    let state = rich();
    let back = PersistentState::from_bytes(&state.to_bytes()).unwrap();
    assert!(same(&back, &state));
    let source = back.source.unwrap();
    assert_eq!(source.path, "/data/Ünïcode.csv");
    assert_eq!(source.source_type, DataSourceType::Csv);
    let empty = PersistentState::from_bytes(&PersistentState::default().to_bytes()).unwrap();
    assert!(same(&empty, &PersistentState::default()));
}

#[test]
fn what_bincode_wrote_is_read() {
    let back = PersistentState::from_bytes(&encoded_by_bincode()).unwrap();
    assert!(same(&back, &rich()));
}

#[test]
fn bytes_after_the_state_are_not_read() {
    let mut bytes = rich().to_bytes();
    bytes.extend([0xffu8, 0x00, 0x7f]);
    assert!(same(&PersistentState::from_bytes(&bytes).unwrap(), &rich()));
}

#[test]
fn every_cut_of_a_state_ends_too_early() {
    let bytes = rich().to_bytes();
    for cut in 0..bytes.len() {
        assert_eq!(
            PersistentState::from_bytes(&bytes[..cut]).err(),
            Some(DecodeError::UnexpectedEnd),
            "cut at {cut}"
        );
    }
}

#[test]
fn a_wrong_tag_before_the_source_is_refused() {
    let mut bytes = rich().to_bytes();
    bytes[0] = 2;
    assert_eq!(PersistentState::from_bytes(&bytes).err(), Some(DecodeError::InvalidTag(2)));
}

#[test]
fn a_wrong_tag_before_a_fill_value_is_refused() {
    let mut bytes = bincode::serialize(&(None::<u8>, 1u64)).unwrap();
    bytes.extend(bincode::serialize(&(6u32, "x", 2u32, 7u8)).unwrap());
    assert_eq!(PersistentState::from_bytes(&bytes).err(), Some(DecodeError::InvalidTag(7)));
}

#[test]
fn a_wrong_boolean_is_refused() {
    let mut bytes = bincode::serialize(&(None::<u8>, 1u64)).unwrap();
    bytes.extend(bincode::serialize(&(1u32, "id", 2u8)).unwrap());
    assert_eq!(PersistentState::from_bytes(&bytes).err(), Some(DecodeError::InvalidBool(2)));
}

#[test]
fn an_unknown_variant_is_refused() {
    let head = bincode::serialize(&(None::<u8>, 1u64)).unwrap();
    let cases: Vec<(Vec<u8>, u32)> = vec![
        (bincode::serialize(&(9u32, "x")).unwrap(), 9),
        (bincode::serialize(&(0u32, "c", 9u32, "v")).unwrap(), 9),
        (bincode::serialize(&(6u32, "c", 6u32, None::<&str>)).unwrap(), 6),
        (bincode::serialize(&(7u32, "c", 7u32)).unwrap(), 7),
        (bincode::serialize(&(u32::MAX, "c")).unwrap(), u32::MAX),
    ];
    for (op, index) in cases {
        let mut bytes = head.clone();
        bytes.extend(op);
        assert_eq!(
            PersistentState::from_bytes(&bytes).err(),
            Some(DecodeError::UnknownVariant(index))
        );
    }
    let bytes = bincode::serialize(&(Some(("a.csv", 2u32, Vec::<&str>::new())), 0u64)).unwrap();
    assert_eq!(PersistentState::from_bytes(&bytes).err(), Some(DecodeError::UnknownVariant(2)));
}

#[test]
fn a_string_that_is_not_utf8_is_refused() {
    let mut bytes = bincode::serialize(&(None::<u8>, 1u64)).unwrap();
    bytes.extend(bincode::serialize(&(2u32, 2u64)).unwrap());
    bytes.extend([0xc3u8, 0x28]);
    assert_eq!(PersistentState::from_bytes(&bytes).err(), Some(DecodeError::InvalidUtf8));
}

#[test]
fn a_length_beyond_the_bytes_ends_too_early() {
    let mut bytes = bincode::serialize(&(None::<u8>, 1u64)).unwrap();
    bytes.extend(bincode::serialize(&(2u32, u64::MAX)).unwrap());
    bytes.extend([b'a', b'b']);
    assert_eq!(PersistentState::from_bytes(&bytes).err(), Some(DecodeError::UnexpectedEnd));
    let bytes = bincode::serialize(&(None::<u8>, u64::MAX)).unwrap();
    assert_eq!(PersistentState::from_bytes(&bytes).err(), Some(DecodeError::UnexpectedEnd));
}

#[test]
fn every_error_has_its_own_message() {
    let errors = [
        DecodeError::UnexpectedEnd,
        DecodeError::InvalidUtf8,
        DecodeError::InvalidBool(2),
        DecodeError::InvalidTag(2),
        DecodeError::UnknownVariant(9),
    ];
    for (i, a) in errors.iter().enumerate() {
        assert!(!a.message().is_empty());
        for (j, b) in errors.iter().enumerate() {
            assert_eq!(a.message() == b.message(), i == j);
        }
    }
}
