use suave::message::{JsonBuilder, JsonKind, Networkable, JSON_INDENT};
use suave::queue::{queue_id_from_raw, Message, MessageQueue};

#[test]
fn integers_are_sent_in_decimal() {
    assert_eq!(0u8.to_net_str(), "0");
    assert_eq!(255u8.to_net_str(), "255");
    assert_eq!((-128i8).to_net_str(), "-128");
    assert_eq!(65535u16.to_net_str(), "65535");
    assert_eq!((-1i16).to_net_str(), "-1");
    assert_eq!(4294967295u32.to_net_str(), "4294967295");
    assert_eq!(i32::MIN.to_net_str(), "-2147483648");
    assert_eq!(u64::MAX.to_net_str(), "18446744073709551615");
    assert_eq!(i64::MIN.to_net_str(), "-9223372036854775808");
    assert_eq!(i64::MAX.to_net_str(), "9223372036854775807");
    assert_eq!(1234usize.to_net_str(), "1234");
    assert_eq!(10u64.to_net_str(), "10");
}

#[test]
fn strings_are_sent_as_they_are() {
    let s: &str = "hello";
    assert_eq!(s.to_net_str(), "hello");
    let owned = String::from("wörld");
    assert_eq!((&owned).to_net_str(), "wörld");
}

#[test]
fn json_object_and_array() {
    let object = JsonBuilder::object();
    assert!(object.tag() == JsonKind::Object);
    let arr = JsonBuilder::array();
    assert!(arr.tag() == JsonKind::Array);
    assert_eq!(JSON_INDENT, 2);
}

#[test]
fn json_default_and_with_tag() {
    let b = JsonBuilder::default();
    assert!(b.tag() == JsonKind::Unknown);
    assert!(b.context() == JsonKind::Unknown);
    assert!(JsonBuilder::object().context() == JsonKind::Object);
    let b = b.with_tag(JsonKind::Array);
    assert!(b.tag() == JsonKind::Array);
}

#[test]
fn json_with_entry_keeps_builder() {
    let b = JsonBuilder::object().with_entry(String::from("key"), 5u32);
    assert!(b.tag() == JsonKind::Object);
    let b = b.with_entry(String::from("name"), "value");
    assert!(b.tag() == JsonKind::Object);
}

#[test]
fn queue_ids() {
    assert_eq!(queue_id_from_raw(5), Some(5));
    assert_eq!(queue_id_from_raw(0), None);
    assert_eq!(queue_id_from_raw(-1), None);
}

#[test]
fn messages() {
    let _m = Message::new(String::from("hi"));
    let _n = Message::from_object(42u32.to_net_str());
    let _q = MessageQueue {};
}
