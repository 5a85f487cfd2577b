use causal_ops::error::InvalidOpType;
use causal_ops::marks::MarkData;
use causal_ops::obj_type::ObjType;
use causal_ops::op_type::OpType;
use causal_ops::scalar::{Counter, ScalarValue};

fn all_scalars() -> Vec<ScalarValue> {
    vec![
        ScalarValue::Bytes(vec![1, 2]),
        ScalarValue::Str("x".into()),
        ScalarValue::Int(-3),
        ScalarValue::Uint(3),
        ScalarValue::F64(1.5f64.to_bits()),
        ScalarValue::counter(4),
        ScalarValue::Timestamp(5),
        ScalarValue::Boolean(true),
        ScalarValue::Unknown { type_code: 11, bytes: vec![9] },
        ScalarValue::Null,
    ]
}

#[test]
fn action_codes_are_those_of_the_wire() {
    assert_eq!(OpType::Make(ObjType::Mapping).action_index(), 0);
    assert_eq!(OpType::Put(ScalarValue::Null).action_index(), 1);
    assert_eq!(OpType::Make(ObjType::List).action_index(), 2);
    assert_eq!(OpType::Delete.action_index(), 3);
    assert_eq!(OpType::Make(ObjType::Text).action_index(), 4);
    assert_eq!(OpType::Increment(1).action_index(), 5);
    assert_eq!(OpType::Make(ObjType::Table).action_index(), 6);
    let data = MarkData { name: "bold".into(), value: ScalarValue::Boolean(true) };
    assert_eq!(OpType::MarkBegin(true, data).action_index(), 7);
    assert_eq!(OpType::MarkEnd(false).action_index(), 7);
}

#[test]
fn non_numeric_increment_is_refused() {
    let r = OpType::validate_action_and_value(5, &ScalarValue::Str("x".into()));
    assert_eq!(r, Err(InvalidOpType::NonNumericInc));
    assert_eq!(r.unwrap_err().to_string(), "non-numeric increment");
    for value in all_scalars() {
        let numeric = matches!(value, ScalarValue::Int(_) | ScalarValue::Uint(_));
        let r = OpType::validate_action_and_value(5, &value);
        if numeric {
            assert_eq!(r, Ok(()));
        } else {
            assert_eq!(r, Err(InvalidOpType::NonNumericInc));
        }
    }
}

#[test]
fn unknown_action_is_refused_with_its_code() {
    let r = OpType::validate_action_and_value(9, &ScalarValue::Null);
    assert_eq!(r, Err(InvalidOpType::UnknownAction(9)));
    assert_eq!(r.unwrap_err().to_string(), "unknown action 9");
    assert_eq!(
        OpType::validate_action_and_value(8, &ScalarValue::Int(1)),
        Err(InvalidOpType::UnknownAction(8))
    );
    let r = OpType::validate_action_and_value(u64::MAX, &ScalarValue::Int(1));
    assert_eq!(r, Err(InvalidOpType::UnknownAction(u64::MAX)));
    assert_eq!(r.unwrap_err().to_string(), "unknown action 18446744073709551615");
}

#[test]
fn every_other_code_takes_any_value() {
    for action in [0u64, 1, 2, 3, 4, 6, 7] {
        for value in all_scalars() {
            assert_eq!(OpType::validate_action_and_value(action, &value), Ok(()));
        }
    }
}

#[test]
fn decoding_the_codes() {
    let v = ScalarValue::Str("x".into());
    assert_eq!(OpType::from_action_and_value(0, v.clone(), None, false), OpType::Make(ObjType::Mapping));
    assert_eq!(OpType::from_action_and_value(1, v.clone(), None, false), OpType::Put(v.clone()));
    assert_eq!(OpType::from_action_and_value(2, v.clone(), None, false), OpType::Make(ObjType::List));
    assert_eq!(OpType::from_action_and_value(3, v.clone(), None, false), OpType::Delete);
    assert_eq!(OpType::from_action_and_value(4, v.clone(), None, false), OpType::Make(ObjType::Text));
    assert_eq!(OpType::from_action_and_value(6, v.clone(), None, false), OpType::Make(ObjType::Table));
}

#[test]
fn decoding_increments() {
    assert_eq!(
        OpType::from_action_and_value(5, ScalarValue::Int(-7), None, false),
        OpType::Increment(-7)
    );
    assert_eq!(OpType::from_action_and_value(5, ScalarValue::Uint(7), None, false), OpType::Increment(7));
    assert_eq!(
        OpType::from_action_and_value(5, ScalarValue::Uint(i64::MAX as u64), None, false),
        OpType::Increment(i64::MAX)
    );
    assert_eq!(
        OpType::from_action_and_value(5, ScalarValue::Uint(1u64 << 63), None, false),
        OpType::Increment(i64::MIN)
    );
    assert_eq!(
        OpType::from_action_and_value(5, ScalarValue::Uint(u64::MAX), None, false),
        OpType::Increment(-1)
    );
    assert_eq!(
        OpType::from_action_and_value(5, ScalarValue::Uint(u64::MAX - 41), None, false),
        OpType::Increment((u64::MAX - 41) as i64)
    );
}

#[test]
fn decoding_marks_by_the_presence_of_a_name() {
    let v = ScalarValue::Int(3);
    assert_eq!(
        OpType::from_action_and_value(7, v.clone(), Some("bold".into()), true),
        OpType::MarkBegin(true, MarkData { name: "bold".into(), value: v.clone() })
    );
    assert_eq!(
        OpType::from_action_and_value(7, v.clone(), Some("".into()), false),
        OpType::MarkBegin(false, MarkData { name: "".into(), value: v.clone() })
    );
    assert_eq!(OpType::from_action_and_value(7, v.clone(), None, true), OpType::MarkEnd(true));
    assert_eq!(OpType::from_action_and_value(7, v, None, false), OpType::MarkEnd(false));
}

#[test]
fn decoding_gives_back_the_code() {
    let data = MarkData { name: "bold".into(), value: ScalarValue::Boolean(true) };
    let kinds = vec![
        (OpType::Make(ObjType::Mapping), ScalarValue::Null, None),
        (OpType::Put(ScalarValue::Int(2)), ScalarValue::Int(2), None),
        (OpType::Make(ObjType::List), ScalarValue::Null, None),
        (OpType::Delete, ScalarValue::Null, None),
        (OpType::Make(ObjType::Text), ScalarValue::Null, None),
        (OpType::Increment(-4), ScalarValue::Int(-4), None),
        (OpType::Make(ObjType::Table), ScalarValue::Null, None),
        (OpType::MarkBegin(true, data), ScalarValue::Boolean(true), Some("bold".into())),
        (OpType::MarkEnd(true), ScalarValue::Null, None),
    ];
    for (kind, value, name) in kinds {
        let code = kind.action_index();
        assert_eq!(OpType::validate_action_and_value(code, &value), Ok(()));
        assert_eq!(OpType::from_action_and_value(code, value, name, true), kind);
    }
}

#[test]
fn texts_of_the_kinds() {
    assert_eq!(OpType::Put(ScalarValue::Str("abc".into())).to_str(), "abc");
    assert_eq!(OpType::Put(ScalarValue::Str("a string that is longer than what fits in place".into())).to_str(), "a string that is longer than what fits in place");
    assert_eq!(OpType::Put(ScalarValue::Int(1)).to_str(), "\u{fffc}");
    assert_eq!(OpType::Make(ObjType::Text).to_str(), "\u{fffc}");
    assert_eq!(OpType::Delete.to_str(), "\u{fffc}");
    assert_eq!(OpType::Increment(2).to_str(), "\u{fffc}");
    assert_eq!(OpType::MarkEnd(true).to_str(), "");
    let data = MarkData { name: "bold".into(), value: ScalarValue::Str("x".into()) };
    assert_eq!(OpType::MarkBegin(true, data).to_str(), "");
    assert!(OpType::MarkEnd(false).is_mark());
    assert!(!OpType::Delete.is_mark());
}

#[test]
fn kinds_from_their_parts() {
    assert_eq!(OpType::from(ObjType::List), OpType::Make(ObjType::List));
    assert_eq!(OpType::from(ScalarValue::Int(4)), OpType::Put(ScalarValue::Int(4)));
}

#[test]
fn scalars_are_equal_by_kind_and_content() {
    let scalars = all_scalars();
    for (i, a) in scalars.iter().enumerate() {
        for (j, b) in scalars.iter().enumerate() {
            assert_eq!(a == b, i == j);
        }
    }
    assert!(ScalarValue::Bytes(vec![1, 2]) != ScalarValue::Bytes(vec![1, 3]));
    assert!(ScalarValue::Bytes(vec![1, 2]) != ScalarValue::Bytes(vec![1]));
    assert!(ScalarValue::Int(3) != ScalarValue::Uint(3));
    assert!(ScalarValue::Int(3) != ScalarValue::Timestamp(3));
    assert!(
        ScalarValue::Unknown { type_code: 1, bytes: vec![] }
            != ScalarValue::Unknown { type_code: 2, bytes: vec![] }
    );
    assert!(ScalarValue::Str("a long string, too long to be held in place".into())
        == ScalarValue::Str("a long string, too long to be held in place".into()));
    assert!(ScalarValue::Str("a".into()) != ScalarValue::Str("b".into()));
}

#[test]
fn counters_are_equal_by_their_totals() {
    let mut c = Counter::from(2);
    c.current = 9;
    assert!(c == Counter::from(9));
    assert!(c != Counter::from(2));
    assert!(ScalarValue::Counter(c) == ScalarValue::counter(9));
}

#[test]
fn scalars_as_text() {
    assert_eq!(ScalarValue::Bytes(vec![]).to_string(), "\"[]\"");
    assert_eq!(ScalarValue::Bytes(vec![7]).to_string(), "\"[7]\"");
    assert_eq!(ScalarValue::Bytes(vec![1, 20, 255]).to_string(), "\"[1, 20, 255]\"");
    assert_eq!(ScalarValue::Str("hi".into()).to_string(), "\"hi\"");
    assert_eq!(ScalarValue::Int(0).to_string(), "0");
    assert_eq!(ScalarValue::Int(-45).to_string(), "-45");
    assert_eq!(ScalarValue::Int(i64::MIN).to_string(), "-9223372036854775808");
    assert_eq!(ScalarValue::Int(i64::MAX).to_string(), "9223372036854775807");
    assert_eq!(ScalarValue::Uint(u64::MAX).to_string(), "18446744073709551615");
    assert_eq!(ScalarValue::Uint(10).to_string(), "10");
    assert_eq!(ScalarValue::F64(2.5f64.to_bits()).to_string(), "0x4004000000000000");
    assert_eq!(ScalarValue::F64(0).to_string(), "0x0000000000000000");
    assert_eq!(ScalarValue::counter(12).to_string(), "Counter: 12");
    assert_eq!(ScalarValue::Timestamp(-1).to_string(), "Timestamp: -1");
    assert_eq!(ScalarValue::Boolean(true).to_string(), "true");
    assert_eq!(ScalarValue::Boolean(false).to_string(), "false");
    assert_eq!(ScalarValue::Unknown { type_code: 200, bytes: vec![1] }.to_string(), "unknown type 200");
    assert_eq!(ScalarValue::Null.to_string(), "null");
}
