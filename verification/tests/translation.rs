use opentelemetry_stackdriver::encoding::{encode_u128, encode_u64, u128_to_be_bytes, u64_to_be_bytes};
use opentelemetry_stackdriver::span::{Event, KeyValue, Span, Timestamp, Value};
use opentelemetry_stackdriver::translate::{
    build_request, format_project_name, format_span_name, to_truncate, translate_attributes,
    translate_batch, translate_events, translate_span, u64_bits_as_i64, Attribute, AttributeValue,
    TimeEvent, TruncatableString,
};

fn text(value: &str) -> AttributeValue {
    AttributeValue::StringValue(TruncatableString { value: value.to_string(), truncated_byte_count: 0 })
}

fn sample_span() -> Span {
    Span {
        trace_id: 1,
        span_id: 2,
        parent_span_id: 0xabc,
        name: "load".to_string(),
        start_time: Timestamp { seconds: 1_600_000_000, nanos: 5 },
        end_time: Timestamp { seconds: 1_600_000_001, nanos: 999_999_999 },
        attributes: vec![
            KeyValue { key: "ok".to_string(), value: Value::Bool(true) },
            KeyValue { key: "count".to_string(), value: Value::I64(-7) },
            KeyValue { key: "big".to_string(), value: Value::U64(1 << 63) },
            KeyValue { key: "ratio".to_string(), value: Value::F64("0.5".to_string()) },
            KeyValue { key: "who".to_string(), value: Value::String("me".to_string()) },
            KeyValue { key: "raw".to_string(), value: Value::Bytes(vec![0xde, 0xad, 0xbe, 0xef]) },
            KeyValue { key: "list".to_string(), value: Value::Array("[1,2,3]".to_string()) },
        ],
        message_events: vec![
            Event { name: "started".to_string(), timestamp: Timestamp { seconds: 1_600_000_000, nanos: 7 } },
            Event { name: "done".to_string(), timestamp: Timestamp { seconds: 1_600_000_001, nanos: 8 } },
        ],
    }
}

#[test]
fn span_name_is_zero_padded_lowercase_hex() {
    assert_eq!(
        format_span_name("p1", 1, 2),
        "projects/p1/traces/00000000000000000000000000000001/spans/0000000000000002"
    );
}

#[test]
fn span_name_of_large_identifiers() {
    assert_eq!(
        format_span_name("my-project", u128::MAX, 0xDEAD_BEEF_0000_00FF),
        "projects/my-project/traces/ffffffffffffffffffffffffffffffff/spans/deadbeef000000ff"
    );
}

#[test]
fn project_name_has_prefix() {
    assert_eq!(format_project_name("p1"), "projects/p1");
    assert_eq!(format_project_name(""), "projects/");
}

#[test]
fn identifiers_as_big_endian_bytes() {
    assert_eq!(u64_to_be_bytes(0x0102_0304_0506_0708), vec![1, 2, 3, 4, 5, 6, 7, 8]);
    assert_eq!(u64_to_be_bytes(0), vec![0; 8]);
    let mut expected = vec![0u8; 16];
    expected[0] = 0x80;
    expected[15] = 0x01;
    assert_eq!(u128_to_be_bytes((1u128 << 127) | 1), expected);
    assert_eq!(u128_to_be_bytes(0x1234).to_vec(), 0x1234u128.to_be_bytes().to_vec());
}

#[test]
fn identifiers_as_hex_text() {
    assert_eq!(encode_u64(0), "0000000000000000");
    assert_eq!(encode_u64(255), "00000000000000ff");
    assert_eq!(encode_u64(u64::MAX), "ffffffffffffffff");
    assert_eq!(encode_u128(0xA), "0000000000000000000000000000000a");
    assert_eq!(encode_u128(0x0123_4567_89ab_cdef_0123_4567_89ab_cdef), "0123456789abcdef0123456789abcdef");
}

#[test]
fn to_truncate_keeps_the_text_and_cuts_nothing() {
    let t = to_truncate("hello".to_string());
    assert_eq!(t.value, "hello");
    assert_eq!(t.truncated_byte_count, 0);
    let empty = to_truncate(String::new());
    assert_eq!(empty, TruncatableString { value: String::new(), truncated_byte_count: 0 });
}

#[test]
fn boolean_stays_boolean() {
    assert_eq!(AttributeValue::from_value(&Value::Bool(true)), AttributeValue::BoolValue(true));
    assert_eq!(AttributeValue::from_value(&Value::Bool(false)), AttributeValue::BoolValue(false));
}

#[test]
fn signed_integer_stays() {
    assert_eq!(AttributeValue::from_value(&Value::I64(-42)), AttributeValue::IntValue(-42));
    assert_eq!(AttributeValue::from_value(&Value::I64(i64::MIN)), AttributeValue::IntValue(i64::MIN));
    assert_eq!(AttributeValue::from_value(&Value::I64(i64::MAX)), AttributeValue::IntValue(i64::MAX));
}

#[test]
fn unsigned_integer_keeps_its_bits() {
    assert_eq!(AttributeValue::from_value(&Value::U64(0)), AttributeValue::IntValue(0));
    assert_eq!(AttributeValue::from_value(&Value::U64(42)), AttributeValue::IntValue(42));
    assert_eq!(
        AttributeValue::from_value(&Value::U64(i64::MAX as u64)),
        AttributeValue::IntValue(i64::MAX)
    );
    assert_eq!(AttributeValue::from_value(&Value::U64(1 << 63)), AttributeValue::IntValue(i64::MIN));
    assert_eq!(AttributeValue::from_value(&Value::U64(u64::MAX)), AttributeValue::IntValue(-1));
    assert_eq!(u64_bits_as_i64((1 << 63) + 5), i64::MIN + 5);
}

#[test]
fn text_stays_text() {
    assert_eq!(AttributeValue::from_value(&Value::String("a b".to_string())), text("a b"));
    assert_eq!(AttributeValue::from_value(&Value::String(String::new())), text(""));
}

#[test]
fn bytes_become_lowercase_hex() {
    assert_eq!(AttributeValue::from_value(&Value::Bytes(vec![0xde, 0xad, 0xbe, 0xef])), text("deadbeef"));
    assert_eq!(AttributeValue::from_value(&Value::Bytes(vec![0, 1, 0x0f, 0x10, 0xff])), text("00010f10ff"));
    assert_eq!(AttributeValue::from_value(&Value::Bytes(b"Hello".to_vec())), text("48656c6c6f"));
    assert_eq!(AttributeValue::from_value(&Value::Bytes(Vec::new())), text(""));
}

#[test]
fn float_and_array_become_their_text() {
    assert_eq!(AttributeValue::from_value(&Value::F64("1.5".to_string())), text("1.5"));
    assert_eq!(AttributeValue::from_value(&Value::Array("[\"a\",\"b\"]".to_string())), text("[\"a\",\"b\"]"));
}

#[test]
fn owned_value_converts_like_borrowed() {
    let values = vec![
        Value::Bool(true),
        Value::I64(3),
        Value::U64(u64::MAX),
        Value::F64("2.25".to_string()),
        Value::String("s".to_string()),
        Value::Bytes(vec![7, 8]),
        Value::Array("[true]".to_string()),
    ];
    for v in values {
        let borrowed = AttributeValue::from_value(&v);
        let owned: AttributeValue = v.into();
        assert_eq!(owned, borrowed);
    }
    assert_eq!(AttributeValue::from(Value::Bytes(vec![0xab])), text("ab"));
}

#[test]
fn attributes_keep_key_and_order() {
    let span = sample_span();
    let out = translate_attributes(&span.attributes);
    assert_eq!(
        out,
        vec![
            Attribute { key: "ok".to_string(), value: AttributeValue::BoolValue(true) },
            Attribute { key: "count".to_string(), value: AttributeValue::IntValue(-7) },
            Attribute { key: "big".to_string(), value: AttributeValue::IntValue(i64::MIN) },
            Attribute { key: "ratio".to_string(), value: text("0.5") },
            Attribute { key: "who".to_string(), value: text("me") },
            Attribute { key: "raw".to_string(), value: text("deadbeef") },
            Attribute { key: "list".to_string(), value: text("[1,2,3]") },
        ]
    );
    assert!(translate_attributes(&Vec::new()).is_empty());
}

#[test]
fn events_become_annotations_with_a_description() {
    let span = sample_span();
    let out = translate_events(&span.message_events);
    assert_eq!(
        out,
        vec![
            TimeEvent {
                time: Timestamp { seconds: 1_600_000_000, nanos: 7 },
                description: TruncatableString { value: "started".to_string(), truncated_byte_count: 0 },
            },
            TimeEvent {
                time: Timestamp { seconds: 1_600_000_001, nanos: 8 },
                description: TruncatableString { value: "done".to_string(), truncated_byte_count: 0 },
            },
        ]
    );
}

#[test]
fn span_is_translated_field_by_field() {
    let span = sample_span();
    let out = translate_span("p1", &span);
    assert_eq!(out.name, "projects/p1/traces/00000000000000000000000000000001/spans/0000000000000002");
    assert_eq!(out.span_id, "0000000000000002");
    assert_eq!(out.parent_span_id, "0000000000000abc");
    assert_eq!(out.display_name, TruncatableString { value: "load".to_string(), truncated_byte_count: 0 });
    assert_eq!(out.start_time, Timestamp { seconds: 1_600_000_000, nanos: 5 });
    assert_eq!(out.end_time, Timestamp { seconds: 1_600_000_001, nanos: 999_999_999 });
    assert_eq!(out.attributes, translate_attributes(&span.attributes));
    assert_eq!(out.attributes.len(), 7);
    assert_eq!(out.time_events, translate_events(&span.message_events));
    assert_eq!(out.time_events.len(), 2);
}

#[test]
fn translating_twice_gives_the_same() {
    let span = sample_span();
    let first = translate_span("p1", &span);
    let second = translate_span("p1", &span);
    assert_eq!(first, second);
    let copy = span.clone();
    assert_eq!(translate_span("p1", &copy), first);
    assert_eq!(format!("{:?}", first), format!("{:?}", second));
}

#[test]
fn batch_is_translated_in_order() {
    let mut a = sample_span();
    a.span_id = 10;
    let mut b = sample_span();
    b.span_id = 11;
    let batch = vec![a.clone(), b.clone()];
    let out = translate_batch("p1", &batch);
    assert_eq!(out, vec![translate_span("p1", &a), translate_span("p1", &b)]);
    assert!(translate_batch("p1", &Vec::new()).is_empty());
}

#[test]
fn request_names_the_project_and_holds_the_spans() {
    let batch = vec![sample_span()];
    let request = build_request("p1", &batch);
    assert_eq!(request.name, "projects/p1");
    assert_eq!(request.spans, translate_batch("p1", &batch));
    let empty = build_request("other", &Vec::new());
    assert_eq!(empty.name, "projects/other");
    assert!(empty.spans.is_empty());
}
