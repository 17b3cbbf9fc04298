use protoactor::message::{Message, MessageEnvelope, MessageHeader, Pid};
use std::any::{Any, TypeId};

struct TestMessage;

impl Message for TestMessage {
    type Result = ();
}

#[test]
fn it_can_wrap_message() {
    let envelope: MessageEnvelope<TestMessage> = TestMessage.into();
    assert_eq!(
        TypeId::of::<TestMessage>(),
        envelope.get_message().type_id()
    );
}

#[test]
fn should_merge_header_by_overwriting_existing() {
    let mut expected_result = MessageHeader::new();
    expected_result.insert("key0".to_string(), "value0".to_string());
    expected_result.insert("key1".to_string(), "overwritten".to_string());
    expected_result.insert("key2".to_string(), "value2".to_string());

    let mut to_merge = MessageHeader::new();
    to_merge.insert("key1".to_string(), "overwritten".to_string());
    to_merge.insert("key2".to_string(), "value2".to_string());

    let mut envelope = MessageEnvelope::wrap(TestMessage);
    let mut initial = MessageHeader::new();
    initial.insert("key0".to_string(), "value0".to_string());
    initial.insert("key1".to_string(), "value1".to_string());
    envelope.with_header(initial);
    envelope.merge_header(to_merge);

    assert_eq!(3, envelope.get_header().len());
    assert_eq!(expected_result, *envelope.get_header())
}

#[test]
fn wrap_sets_no_sender_and_empty_header() {
    let envelope = MessageEnvelope::wrap(TestMessage);
    assert!(envelope.get_sender().is_none());
    assert_eq!(0, envelope.get_header().len());
}

#[test]
fn with_sender_records_the_sender() {
    let mut envelope = MessageEnvelope::wrap(TestMessage);
    envelope.with_sender(Pid::new("hostA".to_string(), "42".to_string()));
    let sender = envelope.get_sender().as_ref().expect("sender was recorded");
    assert_eq!(*sender, Pid::new("hostA".to_string(), "42".to_string()));
}

#[test]
fn new_with_explicit_header_keeps_it() {
    let mut header = MessageHeader::new();
    header.insert("k".to_string(), "v".to_string());
    let envelope = MessageEnvelope::new(
        TestMessage,
        Some(Pid::new("h".to_string(), "1".to_string())),
        Some(header),
    );
    assert_eq!(1, envelope.get_header().len());
    assert_eq!(
        Some(&"v".to_string()),
        envelope.get_header().get(&"k".to_string())
    );
}

#[test]
fn header_insert_overwrites_and_get_reads_back() {
    let mut header = MessageHeader::new();
    header.insert("name".to_string(), "first".to_string());
    header.insert("name".to_string(), "second".to_string());
    assert_eq!(1, header.len());
    assert_eq!(
        Some(&"second".to_string()),
        header.get(&"name".to_string())
    );
    assert_eq!(None, header.get(&"absent".to_string()));
}

#[test]
fn header_equality_ignores_insertion_order() {
    let mut a = MessageHeader::new();
    a.insert("x".to_string(), "1".to_string());
    a.insert("y".to_string(), "2".to_string());
    let mut b = MessageHeader::new();
    b.insert("y".to_string(), "2".to_string());
    b.insert("x".to_string(), "1".to_string());
    assert_eq!(a, b);

    let mut c = MessageHeader::new();
    c.insert("x".to_string(), "1".to_string());
    assert_ne!(a, c);
    let mut d = MessageHeader::new();
    d.insert("x".to_string(), "1".to_string());
    d.insert("y".to_string(), "other".to_string());
    assert_ne!(a, d);
}
