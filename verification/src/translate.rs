//! Translation of spans into the form the trace service takes.

use vstd::prelude::*;
use vstd::string::*;
use crate::encoding::{encode_u128, encode_u64, hex_encode, hex_of_u128, hex_of_u64, hex_text};
use crate::span::{
    batch_view, Event, EventView, KeyValue, KeyValueView, Span, SpanView, Timestamp, Value,
    ValueView,
};

verus! {

/// A string together with the number of bytes that were cut from it.
#[derive(Clone, Debug, PartialEq, Eq)]
pub struct TruncatableString {
    pub value: String,
    pub truncated_byte_count: i32,
}

/// What a `TruncatableString` holds.
pub struct TruncatableStringView {
    pub value: Seq<char>,
    pub truncated_byte_count: i32,
}

impl View for TruncatableString {
    type V = TruncatableStringView;

    open spec fn view(&self) -> TruncatableStringView {
        TruncatableStringView {
            value: self.value@,
            truncated_byte_count: self.truncated_byte_count,
        }
    }
}

/// The text `text` with nothing cut from it.
pub open spec fn untruncated(text: Seq<char>) -> TruncatableStringView {
    TruncatableStringView { value: text, truncated_byte_count: 0 }
}

/// Wraps a string without cutting anything from it.
pub fn to_truncate(s: String) -> (t: TruncatableString)
    ensures
        t@ == untruncated(s@),
{
    TruncatableString { value: s, truncated_byte_count: 0 }
}

/// The value of an attribute as the trace service takes it.
#[derive(Clone, Debug, PartialEq, Eq)]
pub enum AttributeValue {
    StringValue(TruncatableString),
    IntValue(i64),
    BoolValue(bool),
}

/// What an `AttributeValue` holds.
pub enum AttributeValueView {
    StringValue(TruncatableStringView),
    IntValue(i64),
    BoolValue(bool),
}

impl View for AttributeValue {
    type V = AttributeValueView;

    open spec fn view(&self) -> AttributeValueView {
        match *self {
            AttributeValue::StringValue(s) => AttributeValueView::StringValue(s@),
            AttributeValue::IntValue(i) => AttributeValueView::IntValue(i),
            AttributeValue::BoolValue(b) => AttributeValueView::BoolValue(b),
        }
    }
}

/// The signed number with the same sixty-four bits as `u`: `u` itself
/// below two to the sixty-third, and `u` less two to the sixty-fourth
/// from there on.
pub open spec fn reinterpret_as_signed(u: u64) -> i64 {
    if u <= 0x7fff_ffff_ffff_ffff {
        u as i64
    } else {
        (u - 0x1_0000_0000_0000_0000) as i64
    }
}

/// The conversion of attribute values, kind by kind: a boolean stays a
/// boolean; a signed integer stays; an unsigned integer keeps its bits;
/// text stays text; bytes become lowercase hexadecimal text; a
/// floating-point value and an array become the text they are written
/// with.
pub open spec fn converted(v: ValueView) -> AttributeValueView {
    match v {
        ValueView::Bool(b) => AttributeValueView::BoolValue(b),
        ValueView::I64(i) => AttributeValueView::IntValue(i),
        ValueView::U64(u) => AttributeValueView::IntValue(reinterpret_as_signed(u)),
        ValueView::F64(text) => AttributeValueView::StringValue(untruncated(text)),
        ValueView::String(text) => AttributeValueView::StringValue(untruncated(text)),
        ValueView::Bytes(bytes) => AttributeValueView::StringValue(untruncated(hex_text(bytes))),
        ValueView::Array(text) => AttributeValueView::StringValue(untruncated(text)),
    }
}

/// The signed integer with the bits of `u`.
pub fn u64_bits_as_i64(u: u64) -> (i: i64)
    ensures
        i == reinterpret_as_signed(u),
{
    assert(u <= 0x7fff_ffff_ffff_ffff ==> u as i64 == u) by (bit_vector);
    assert(u > 0x7fff_ffff_ffff_ffff ==> u as i64 == u - 0x1_0000_0000_0000_0000) by (bit_vector);
    u as i64
}

impl AttributeValue {
    /// Converts an attribute value that is borrowed.
    pub fn from_value(v: &Value) -> (a: AttributeValue)
        ensures
            a@ == converted(v@),
    {
        match v {
            Value::Bool(b) => AttributeValue::BoolValue(*b),
            Value::I64(i) => AttributeValue::IntValue(*i),
            Value::U64(u) => AttributeValue::IntValue(u64_bits_as_i64(*u)),
            Value::F64(text) => AttributeValue::StringValue(to_truncate(text.clone())),
            Value::String(text) => AttributeValue::StringValue(to_truncate(text.clone())),
            Value::Bytes(bytes) => AttributeValue::StringValue(
                to_truncate(hex_encode(bytes.as_slice())),
            ),
            Value::Array(text) => AttributeValue::StringValue(to_truncate(text.clone())),
        }
    }
}

impl From<Value> for AttributeValue {
    /// Converts an attribute value.
    fn from(v: Value) -> (a: AttributeValue)
        ensures
            a@ == converted(v@),
    {
        AttributeValue::from_value(&v)
    }
}

/// What `from` gives is stated in its own `ensures`, over what the values
/// hold. Nothing is claimed here of the value itself: text that is made
/// anew is known by its characters alone.
impl vstd::std_specs::convert::FromSpecImpl<Value> for AttributeValue {
    open spec fn obeys_from_spec() -> bool {
        false
    }

    open spec fn from_spec(v: Value) -> AttributeValue {
        arbitrary()
    }
}

/// One attribute as the trace service takes it.
#[derive(Clone, Debug, PartialEq, Eq)]
pub struct Attribute {
    pub key: String,
    pub value: AttributeValue,
}

/// What an `Attribute` holds.
pub struct AttributeView {
    pub key: Seq<char>,
    pub value: AttributeValueView,
}

impl View for Attribute {
    type V = AttributeView;

    open spec fn view(&self) -> AttributeView {
        AttributeView { key: self.key@, value: self.value@ }
    }
}

/// An annotation with the time it was made at. It carries a description
/// and nothing else.
#[derive(Clone, Debug, PartialEq, Eq)]
pub struct TimeEvent {
    pub time: Timestamp,
    pub description: TruncatableString,
}

/// What a `TimeEvent` holds.
pub struct TimeEventView {
    pub time: Timestamp,
    pub description: TruncatableStringView,
}

impl View for TimeEvent {
    type V = TimeEventView;

    open spec fn view(&self) -> TimeEventView {
        TimeEventView { time: self.time, description: self.description@ }
    }
}

/// A span as the trace service takes it.
#[derive(Clone, Debug, PartialEq, Eq)]
pub struct TranslatedSpan {
    pub name: String,
    pub span_id: String,
    pub parent_span_id: String,
    pub display_name: TruncatableString,
    pub start_time: Timestamp,
    pub end_time: Timestamp,
    pub attributes: Vec<Attribute>,
    pub time_events: Vec<TimeEvent>,
}

/// What a `TranslatedSpan` holds.
pub struct TranslatedSpanView {
    pub name: Seq<char>,
    pub span_id: Seq<char>,
    pub parent_span_id: Seq<char>,
    pub display_name: TruncatableStringView,
    pub start_time: Timestamp,
    pub end_time: Timestamp,
    pub attributes: Seq<AttributeView>,
    pub time_events: Seq<TimeEventView>,
}

impl View for TranslatedSpan {
    type V = TranslatedSpanView;

    open spec fn view(&self) -> TranslatedSpanView {
        TranslatedSpanView {
            name: self.name@,
            span_id: self.span_id@,
            parent_span_id: self.parent_span_id@,
            display_name: self.display_name@,
            start_time: self.start_time,
            end_time: self.end_time,
            attributes: self.attributes@.map_values(|a: Attribute| a@),
            time_events: self.time_events@.map_values(|e: TimeEvent| e@),
        }
    }
}

/// The request that writes a batch of spans under a project.
#[derive(Clone, Debug, PartialEq, Eq)]
pub struct BatchWriteSpansRequest {
    pub name: String,
    pub spans: Vec<TranslatedSpan>,
}

/// What a `BatchWriteSpansRequest` holds.
pub struct BatchWriteSpansRequestView {
    pub name: Seq<char>,
    pub spans: Seq<TranslatedSpanView>,
}

impl View for BatchWriteSpansRequest {
    type V = BatchWriteSpansRequestView;

    open spec fn view(&self) -> BatchWriteSpansRequestView {
        BatchWriteSpansRequestView {
            name: self.name@,
            spans: self.spans@.map_values(|s: TranslatedSpan| s@),
        }
    }
}

/// The name of a project as a resource: `projects/` and the identifier.
pub open spec fn project_name(project_id: Seq<char>) -> Seq<char> {
    "projects/"@ + project_id
}

/// The name of a span as a resource: the project, the trace identifier as
/// thirty-two hexadecimal digits and the span identifier as sixteen.
pub open spec fn span_name(project_id: Seq<char>, trace_id: u128, span_id: u64) -> Seq<char> {
    project_name(project_id) + "/traces/"@ + hex_of_u128(trace_id) + "/spans/"@ + hex_of_u64(
        span_id,
    )
}

/// The translation of one attribute: the key stays, the value is converted.
pub open spec fn translated_attribute(kv: KeyValueView) -> AttributeView {
    AttributeView { key: kv.key, value: converted(kv.value) }
}

/// The translation of one event: its time, and its name as the description.
pub open spec fn translated_event(e: EventView) -> TimeEventView {
    TimeEventView { time: e.timestamp, description: untruncated(e.name) }
}

/// The translation of a span under a project.
pub open spec fn translated(project_id: Seq<char>, s: SpanView) -> TranslatedSpanView {
    TranslatedSpanView {
        name: span_name(project_id, s.trace_id, s.span_id),
        span_id: hex_of_u64(s.span_id),
        parent_span_id: hex_of_u64(s.parent_span_id),
        display_name: untruncated(s.name),
        start_time: s.start_time,
        end_time: s.end_time,
        attributes: s.attributes.map_values(|kv: KeyValueView| translated_attribute(kv)),
        time_events: s.message_events.map_values(|e: EventView| translated_event(e)),
    }
}

/// The request for a batch: the project's name, and the spans translated
/// one by one, in their order.
pub open spec fn request_for(
    project_id: Seq<char>,
    batch: Seq<SpanView>,
) -> BatchWriteSpansRequestView {
    BatchWriteSpansRequestView {
        name: project_name(project_id),
        spans: batch.map_values(|s: SpanView| translated(project_id, s)),
    }
}

/// Writes the name of a project as a resource.
pub fn format_project_name(project_id: &str) -> (name: String)
    ensures
        name@ == project_name(project_id@),
{
    let mut name = String::from_str("projects/");
    name.append(project_id);
    name
}

/// Writes the name of a span as a resource.
pub fn format_span_name(project_id: &str, trace_id: u128, span_id: u64) -> (name: String)
    ensures
        name@ == span_name(project_id@, trace_id, span_id),
{
    let mut name = format_project_name(project_id);
    name.append("/traces/");
    let trace = encode_u128(trace_id);
    name.append(trace.as_str());
    name.append("/spans/");
    let span = encode_u64(span_id);
    name.append(span.as_str());
    name
}

/// Translates the attributes of a span, in their order.
pub fn translate_attributes(attributes: &Vec<KeyValue>) -> (out: Vec<Attribute>)
    ensures
        out@.len() == attributes@.len(),
        out@.map_values(|a: Attribute| a@) == attributes@.map_values(|kv: KeyValue| kv@).map_values(
            |kv: KeyValueView| translated_attribute(kv),
        ),
{
    let mut out: Vec<Attribute> = Vec::new();
    let mut i: usize = 0;
    while i < attributes.len()
        invariant
            i <= attributes.len(),
            out@.len() == i,
            forall|j: int| 0 <= j < i ==> (#[trigger] out@[j])@ == translated_attribute(attributes@[j]@),
        decreases attributes.len() - i,
    {
        let kv = &attributes[i];
        out.push(Attribute { key: kv.key.clone(), value: AttributeValue::from_value(&kv.value) });
        i = i + 1;
    }
    out
}

/// Translates the events of a span, in their order.
pub fn translate_events(events: &Vec<Event>) -> (out: Vec<TimeEvent>)
    ensures
        out@.len() == events@.len(),
        out@.map_values(|e: TimeEvent| e@) == events@.map_values(|e: Event| e@).map_values(
            |e: EventView| translated_event(e),
        ),
{
    let mut out: Vec<TimeEvent> = Vec::new();
    let mut i: usize = 0;
    while i < events.len()
        invariant
            i <= events.len(),
            out@.len() == i,
            forall|j: int| 0 <= j < i ==> (#[trigger] out@[j])@ == translated_event(events@[j]@),
        decreases events.len() - i,
    {
        let event = &events[i];
        out.push(TimeEvent { time: event.timestamp, description: to_truncate(event.name.clone()) });
        i = i + 1;
    }
    out
}

/// Translates one span under a project.
pub fn translate_span(project_id: &str, span: &Span) -> (out: TranslatedSpan)
    ensures
        out@ == translated(project_id@, span@),
{
    TranslatedSpan {
        name: format_span_name(project_id, span.trace_id, span.span_id),
        span_id: encode_u64(span.span_id),
        parent_span_id: encode_u64(span.parent_span_id),
        display_name: to_truncate(span.name.clone()),
        start_time: span.start_time,
        end_time: span.end_time,
        attributes: translate_attributes(&span.attributes),
        time_events: translate_events(&span.message_events),
    }
}

/// Translates a batch of spans, one by one and in their order.
pub fn translate_batch(project_id: &str, batch: &Vec<Span>) -> (out: Vec<TranslatedSpan>)
    ensures
        out@.len() == batch@.len(),
        out@.map_values(|s: TranslatedSpan| s@) == batch_view(batch@).map_values(
            |s: SpanView| translated(project_id@, s),
        ),
{
    let mut out: Vec<TranslatedSpan> = Vec::new();
    let mut i: usize = 0;
    while i < batch.len()
        invariant
            i <= batch.len(),
            out@.len() == i,
            forall|j: int| 0 <= j < i ==> (#[trigger] out@[j])@ == translated(project_id@, batch@[j]@),
        decreases batch.len() - i,
    {
        out.push(translate_span(project_id, &batch[i]));
        i = i + 1;
    }
    out
}

/// Builds the request that writes a batch under a project.
pub fn build_request(project_id: &str, batch: &Vec<Span>) -> (request: BatchWriteSpansRequest)
    ensures
        request@ == request_for(project_id@, batch_view(batch@)),
{
    BatchWriteSpansRequest {
        name: format_project_name(project_id),
        spans: translate_batch(project_id, batch),
    }
}

/// Spans that hold the same are translated to the same, under one
/// project: a translation depends on nothing but the project and the span.
pub proof fn translation_is_deterministic(project_id: Seq<char>, first: Span, second: Span)
    requires
        first@ == second@,
    ensures
        translated(project_id, first@) == translated(project_id, second@),
{
}

/// A translation keeps the order and the number of attributes and of
/// events, and each piece of it is made from the piece of the span in the
/// same place.
pub proof fn translation_goes_piece_by_piece(project_id: Seq<char>, s: SpanView)
    ensures
        translated(project_id, s).attributes.len() == s.attributes.len(),
        translated(project_id, s).time_events.len() == s.message_events.len(),
        forall|i: int|
            0 <= i < s.attributes.len() ==> #[trigger] translated(project_id, s).attributes[i]
                == translated_attribute(s.attributes[i]),
        forall|i: int|
            0 <= i < s.message_events.len() ==> #[trigger] translated(project_id, s).time_events[i]
                == translated_event(s.message_events[i]),
{
}

/// Whatever the kind of an attribute value, its conversion is text, a
/// number or a boolean as the table of `converted` has it: numbers for
/// the two integer kinds, a boolean for a boolean, text for the rest, and
/// text is never cut.
pub proof fn conversion_follows_kind(v: ValueView)
    ensures
        v is Bool <==> converted(v) is BoolValue,
        (v is I64 || v is U64) <==> converted(v) is IntValue,
        (v is F64 || v is String || v is Bytes || v is Array) <==> converted(v) is StringValue,
        converted(v) matches AttributeValueView::StringValue(text) ==> text.truncated_byte_count
            == 0,
        v matches ValueView::Bytes(bytes) ==> converted(v) == AttributeValueView::StringValue(
            untruncated(hex_text(bytes)),
        ),
{
}

/// An unsigned integer keeps its sixty-four bits: from two to the
/// sixty-third on it comes out negative, and two to the sixty-third
/// itself as the least signed number.
pub proof fn large_unsigned_comes_out_negative(u: u64)
    ensures
        u < 0x8000_0000_0000_0000 ==> reinterpret_as_signed(u) == u,
        u >= 0x8000_0000_0000_0000 ==> reinterpret_as_signed(u) == u - 0x1_0000_0000_0000_0000,
        u >= 0x8000_0000_0000_0000 ==> reinterpret_as_signed(u) < 0,
        reinterpret_as_signed(0x8000_0000_0000_0000) == i64::MIN,
{
}

} // verus!
