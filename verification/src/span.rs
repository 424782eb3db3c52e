//! The spans that callers hand over for export.

use vstd::prelude::*;

verus! {

/// A point in time: seconds since the Unix epoch and the nanoseconds
/// within that second.
#[derive(Clone, Copy, Debug, PartialEq, Eq, Structural)]
pub struct Timestamp {
    pub seconds: i64,
    pub nanos: i32,
}

/// The value of a span attribute. A floating-point value and an array are
/// held as the text they are written with.
#[derive(Clone, Debug, PartialEq, Eq)]
pub enum Value {
    Bool(bool),
    I64(i64),
    U64(u64),
    F64(String),
    String(String),
    Bytes(Vec<u8>),
    Array(String),
}

/// What a `Value` holds.
pub enum ValueView {
    Bool(bool),
    I64(i64),
    U64(u64),
    F64(Seq<char>),
    String(Seq<char>),
    Bytes(Seq<u8>),
    Array(Seq<char>),
}

impl View for Value {
    type V = ValueView;

    open spec fn view(&self) -> ValueView {
        match *self {
            Value::Bool(b) => ValueView::Bool(b),
            Value::I64(i) => ValueView::I64(i),
            Value::U64(u) => ValueView::U64(u),
            Value::F64(text) => ValueView::F64(text@),
            Value::String(text) => ValueView::String(text@),
            Value::Bytes(bytes) => ValueView::Bytes(bytes@),
            Value::Array(text) => ValueView::Array(text@),
        }
    }
}

/// One attribute of a span: a key and its value.
#[derive(Clone, Debug, PartialEq, Eq)]
pub struct KeyValue {
    pub key: String,
    pub value: Value,
}

/// What a `KeyValue` holds.
pub struct KeyValueView {
    pub key: Seq<char>,
    pub value: ValueView,
}

impl View for KeyValue {
    type V = KeyValueView;

    open spec fn view(&self) -> KeyValueView {
        KeyValueView { key: self.key@, value: self.value@ }
    }
}

/// A message recorded on a span at some time.
#[derive(Clone, Debug, PartialEq, Eq)]
pub struct Event {
    pub name: String,
    pub timestamp: Timestamp,
}

/// What an `Event` holds.
pub struct EventView {
    pub name: Seq<char>,
    pub timestamp: Timestamp,
}

impl View for Event {
    type V = EventView;

    open spec fn view(&self) -> EventView {
        EventView { name: self.name@, timestamp: self.timestamp }
    }
}

/// A finished span: its identifiers, name, times, attributes and events.
#[derive(Clone, Debug, PartialEq, Eq)]
pub struct Span {
    pub trace_id: u128,
    pub span_id: u64,
    pub parent_span_id: u64,
    pub name: String,
    pub start_time: Timestamp,
    pub end_time: Timestamp,
    pub attributes: Vec<KeyValue>,
    pub message_events: Vec<Event>,
}

/// What a `Span` holds.
pub struct SpanView {
    pub trace_id: u128,
    pub span_id: u64,
    pub parent_span_id: u64,
    pub name: Seq<char>,
    pub start_time: Timestamp,
    pub end_time: Timestamp,
    pub attributes: Seq<KeyValueView>,
    pub message_events: Seq<EventView>,
}

impl View for Span {
    type V = SpanView;

    open spec fn view(&self) -> SpanView {
        SpanView {
            trace_id: self.trace_id,
            span_id: self.span_id,
            parent_span_id: self.parent_span_id,
            name: self.name@,
            start_time: self.start_time,
            end_time: self.end_time,
            attributes: self.attributes@.map_values(|kv: KeyValue| kv@),
            message_events: self.message_events@.map_values(|e: Event| e@),
        }
    }
}

/// What a batch of spans holds, span by span.
pub open spec fn batch_view(batch: Seq<Span>) -> Seq<SpanView> {
    batch.map_values(|s: Span| s@)
}

} // verus!
