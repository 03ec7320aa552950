use thawing::codec::{decode_bool, decode_i64, decode_u32, encode_bool, encode_i64, encode_u32};
use thawing::counter::{decode_message, encode_message, Counter, Message};
use thawing::decimal::i64_to_string;

#[test]
fn i64_layout_matches_bincode() {
    for v in [0i64, 1, -1, 42, -9000, i64::MAX, i64::MIN] {
        assert_eq!(encode_i64(v), bincode::serialize(&v).unwrap());
    }
}

#[test]
fn u32_layout_matches_bincode() {
    for v in [0u32, 1, 0xdead_beef, u32::MAX] {
        assert_eq!(encode_u32(v), bincode::serialize(&v).unwrap());
    }
}

#[test]
fn bool_layout_matches_bincode() {
    assert_eq!(encode_bool(true), bincode::serialize(&true).unwrap());
    assert_eq!(encode_bool(false), bincode::serialize(&false).unwrap());
    assert_eq!(encode_bool(true), vec![1u8]);
    assert_eq!(encode_bool(false), vec![0u8]);
}

#[test]
fn state_bytes_match_bincode_field_order() {
    let counter = Counter { value: -7, is_checked: true };
    assert_eq!(
        counter.state_bytes(),
        bincode::serialize(&(-7i64, true)).unwrap()
    );
}

#[test]
fn scalar_round_trips() {
    for v in [0i64, 5, -5, i64::MIN, i64::MAX] {
        assert_eq!(decode_i64(&encode_i64(v), 0), v);
    }
    for v in [0u32, 7, u32::MAX] {
        assert_eq!(decode_u32(&encode_u32(v), 0), v);
    }
    assert_eq!(decode_bool(&encode_bool(true)), Some(true));
    assert_eq!(decode_bool(&encode_bool(false)), Some(false));
}

#[test]
fn decode_bool_rejects_everything_else() {
    assert_eq!(decode_bool(&vec![2u8]), None);
    assert_eq!(decode_bool(&vec![]), None);
    assert_eq!(decode_bool(&vec![1u8, 0u8]), None);
}

#[test]
fn message_round_trips() {
    for m in [Message::Toggled(true), Message::Toggled(false), Message::Increment, Message::Decrement] {
        assert_eq!(decode_message(&encode_message(&m)), Some(m));
    }
}

#[test]
fn message_decode_rejects_garbage() {
    assert_eq!(decode_message(&vec![]), None);
    assert_eq!(decode_message(&vec![9u8, 0, 0, 0]), None);
    assert_eq!(decode_message(&vec![0u8, 0, 0, 0, 7]), None);
    assert_eq!(decode_message(&vec![1u8, 0, 0, 0, 0, 0]), None);
}

#[test]
fn decimal_rendering() {
    assert_eq!(i64_to_string(0).as_str(), "0");
    assert_eq!(i64_to_string(1).as_str(), "1");
    assert_eq!(i64_to_string(10).as_str(), "10");
    assert_eq!(i64_to_string(-12).as_str(), "-12");
    assert_eq!(i64_to_string(i64::MAX).as_str(), "9223372036854775807");
    assert_eq!(i64_to_string(i64::MIN).as_str(), "-9223372036854775808");
}
