//! Telemetry for Redis commands: command names, span names, typed span
//! attributes and the classification of Redis errors, with the recording of
//! each outcome onto a tracing span.
use vstd::prelude::*;

pub mod attributes;
pub mod command;
pub mod connection;
pub mod errors;
pub mod outcome;
pub mod span;

pub use attributes::{
    apply_span_attributes, attributes_for_name, create_command_span, extract_command_attributes,
    generate_span_name, span_name_of_lowered, Attribute, AttributeValue, CommandSpan,
};
pub use command::{first_arg_undecodable, get_command_name, name_of_first_arg, CommandArg};
pub use connection::InstrumentedAsyncConnection;
pub use errors::error_type_tag;
pub use outcome::{
    record_command_result, record_command_result_with_context, record_error_on_span,
    record_failure,
};
pub use span::{FieldValue, InstrumentedSpan, SpanField};
