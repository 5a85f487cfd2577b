use causal_ops::clock::Clock;
use causal_ops::lex::{compare_bytes, same_bytes};
use causal_ops::op_id::{ElemId, ObjId, OpId};
use causal_ops::scalar::{Counter, ScalarValue, Value};
use causal_ops::text::{digit_text, push_decimal, push_hex_digits, push_signed_decimal};
use std::cmp::Ordering;

fn counter(start: i64, increments: Vec<(OpId, i64)>) -> Counter {
    let current = increments.iter().fold(start, |total, (_, n)| total.wrapping_add(*n));
    Counter { start, current, increments }
}

#[test]
fn counter_total_as_of_a_clock() {
    let c = counter(100, vec![(OpId::new(2, 0), 1), (OpId::new(3, 1), 20), (OpId::new(4, 0), -300)]);
    let mut clock = Clock::new();
    assert_eq!(c.value_at(&clock), 100);
    assert_eq!(c.checked_value_at(&clock), Some(100));
    clock.record(0, 2);
    assert_eq!(c.value_at(&clock), 101);
    clock.record(1, 3);
    assert_eq!(c.value_at(&clock), 121);
    clock.record(0, 4);
    assert_eq!(c.value_at(&clock), -179);
    assert_eq!(c.checked_value_at(&clock), Some(-179));
    let mut only_last = Clock::new();
    only_last.record(1, 9);
    assert_eq!(c.value_at(&only_last), 120);
}

#[test]
fn counter_total_out_of_range_is_reported() {
    let c = counter(i64::MAX, vec![(OpId::new(2, 0), 1), (OpId::new(3, 0), -1)]);
    let mut clock = Clock::new();
    assert_eq!(c.checked_value_at(&clock), Some(i64::MAX));
    clock.record(0, 2);
    assert_eq!(c.checked_value_at(&clock), None);
    clock.record(0, 3);
    assert_eq!(c.checked_value_at(&clock), Some(i64::MAX));
    assert_eq!(c.value_at(&clock), i64::MAX);
    let low = counter(i64::MIN, vec![(OpId::new(2, 0), -1)]);
    assert_eq!(low.checked_value_at(&clock), None);
}

#[test]
fn counter_total_passes_through_what_is_out_of_range() {
    let c = counter(
        i64::MAX,
        vec![(OpId::new(1, 0), i64::MAX), (OpId::new(2, 0), i64::MIN), (OpId::new(3, 0), i64::MIN)],
    );
    let mut clock = Clock::new();
    clock.record(0, 3);
    assert_eq!(c.checked_value_at(&clock), Some(-2));
    assert_eq!(c.value_at(&clock), -2);
}

#[test]
fn counters_from_a_number() {
    let c = Counter::from(7);
    assert_eq!(c.start, 7);
    assert_eq!(c.current, 7);
    assert!(c.increments.is_empty());
    assert!(ScalarValue::counter(7) == ScalarValue::Counter(Counter::from(7)));
    assert!(Value::counter(7) == Value::Scalar(std::borrow::Cow::Owned(ScalarValue::counter(7))));
    assert!(Value::counter(7) != Value::counter(8));
    assert!(Value::counter(7).clone() == Value::counter(7));
    assert!(Value::counter(7).as_scalar() == Some(&ScalarValue::counter(7)));
}

#[test]
fn typed_identifiers_are_ordered_as_operations() {
    let ids = [OpId::new(0, 0), OpId::new(0, 9), OpId::new(1, 0), OpId::new(1, 1), OpId::new(7, 0)];
    for a in ids {
        for b in ids {
            assert_eq!(ObjId(a).partial_cmp(&ObjId(b)), Some(a.cmp(&b)));
            assert_eq!(ObjId(a).cmp(&ObjId(b)), a.cmp(&b));
            assert_eq!(ElemId(a).partial_cmp(&ElemId(b)), Some(a.cmp(&b)));
            assert_eq!(ElemId(a).cmp(&ElemId(b)), a.cmp(&b));
            assert_eq!(ObjId(a) < ObjId(b), a < b);
            assert_eq!(ElemId(a) >= ElemId(b), a >= b);
        }
    }
}

#[test]
fn byte_strings_are_compared_as_slices_are() {
    let samples: Vec<Vec<u8>> = vec![
        vec![],
        vec![0],
        vec![0, 0],
        vec![0, 255],
        vec![1],
        vec![1, 2, 3],
        vec![1, 2, 4],
        vec![1, 3],
        vec![200],
        vec![255, 255],
    ];
    for a in &samples {
        for b in &samples {
            assert_eq!(compare_bytes(a, b), a.cmp(b));
            assert_eq!(same_bytes(a, b), a == b);
        }
    }
    assert_eq!(compare_bytes(&[1, 2], &[1, 2, 0]), Ordering::Less);
    assert_eq!(compare_bytes(&[2], &[1, 9, 9]), Ordering::Greater);
}

#[test]
fn numbers_as_text() {
    let mut s = String::from("n=");
    push_decimal(&mut s, 0);
    assert_eq!(s, "n=0");
    push_decimal(&mut s, 9);
    push_decimal(&mut s, 10);
    push_decimal(&mut s, 1234567890123456789);
    assert_eq!(s, "n=09101234567890123456789");
    let mut s = String::new();
    push_signed_decimal(&mut s, -1);
    push_signed_decimal(&mut s, 0);
    push_signed_decimal(&mut s, i64::MIN);
    push_signed_decimal(&mut s, i64::MAX);
    assert_eq!(s, "-10-92233720368547758089223372036854775807");
    let mut s = String::new();
    push_hex_digits(&mut s, 0xabc, 2);
    push_hex_digits(&mut s, 0xabc, 0);
    push_hex_digits(&mut s, 0xabc, 5);
    push_hex_digits(&mut s, u64::MAX, 16);
    assert_eq!(s, "bc00abcffffffffffffffff");
    let digits: String = (0..16u8).map(digit_text).collect();
    assert_eq!(digits, "0123456789abcdef");
}
