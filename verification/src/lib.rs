//! Export of trace spans to Stackdriver: translation of spans into the
//! destination form, and the bookkeeping of a bounded export pipeline.

pub mod encoding;
pub mod span;
pub mod translate;
pub mod queue;
pub mod dispatcher;
pub mod shutdown;
pub mod exporter;
pub mod auth;
