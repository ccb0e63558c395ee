use otel_instrumentation_redis::{
    apply_span_attributes, error_type_tag, record_command_result,
    record_command_result_with_context, record_error_on_span, record_failure, Attribute,
    AttributeValue, FieldValue, InstrumentedSpan, SpanField,
};
use redis::{ErrorKind, RedisError};

fn field(key: &str, value: FieldValue) -> SpanField {
    SpanField { key: key.to_string(), value }
}

fn text(s: &str) -> FieldValue {
    FieldValue::Str(s.to_string())
}

fn new_span() -> InstrumentedSpan {
    InstrumentedSpan::new(tracing::Span::none())
}

fn failure_fields(message: &str, tag: &str) -> Vec<SpanField> {
    vec![
        field("error", FieldValue::Bool(true)),
        field("error.message", text(message)),
        field("otel.status_code", text("ERROR")),
        field("otel.status_description", text(message)),
        field("error.type", text(tag)),
    ]
}

#[test]
fn test_error_recording() {
    let mut span = new_span();

    let error = RedisError::from((ErrorKind::ResponseError, "Test error"));

    record_error_on_span(&mut span, &error);

    assert_eq!(
        span.recorded(),
        &failure_fields(&error.to_string(), "response_error")
    );
}

#[test]
fn error_message_is_the_display_of_the_error() {
    let mut span = new_span();
    let error = RedisError::from((ErrorKind::TypeError, "bad type"));
    record_error_on_span(&mut span, &error);
    assert_eq!(span.recorded(), &failure_fields("bad type- TypeError", "type_error"));
}

#[test]
fn new_span_has_no_fields() {
    assert!(new_span().recorded().is_empty());
}

#[test]
fn success_records_ok_only() {
    let mut span = new_span();
    let result: Result<i64, RedisError> = Ok(3);

    record_command_result(&mut span, &result);

    assert_eq!(span.recorded(), &vec![field("otel.status_code", text("OK"))]);
    assert!(!span.recorded().iter().any(|f| f.key == "error"));
}

#[test]
fn failure_records_error_fields() {
    let mut span = new_span();
    let result: Result<(), RedisError> =
        Err(RedisError::from((ErrorKind::IoError, "connection closed")));

    record_command_result(&mut span, &result);

    let fields = span.recorded();
    assert_eq!(fields.len(), 5);
    assert_eq!(fields[0], field("error", FieldValue::Bool(true)));
    assert_eq!(fields[2], field("otel.status_code", text("ERROR")));
    assert_eq!(fields[4], field("error.type", text("io_error")));
    match &fields[1].value {
        FieldValue::Str(m) => assert!(!m.is_empty()),
        other => panic!("unexpected message value {:?}", other),
    }
}

#[test]
fn context_is_recorded_on_failure_only() {
    let mut ok_span = new_span();
    let ok: Result<(), RedisError> = Ok(());
    record_command_result_with_context(&mut ok_span, &ok, "SET", Some("user:*"));
    assert_eq!(ok_span.recorded(), &vec![field("otel.status_code", text("OK"))]);

    let mut err_span = new_span();
    let err: Result<(), RedisError> = Err(RedisError::from((ErrorKind::Moved, "moved")));
    record_command_result_with_context(&mut err_span, &err, "SET", Some("user:*"));
    let mut expected = failure_fields("moved- Moved", "moved");
    expected.push(field("redis.operation_context", text("SET")));
    expected.push(field("redis.key_pattern", text("user:*")));
    assert_eq!(err_span.recorded(), &expected);
}

#[test]
fn context_without_key_pattern() {
    let mut span = new_span();
    let err: Result<(), RedisError> = Err(RedisError::from((ErrorKind::Ask, "ask")));
    record_command_result_with_context(&mut span, &err, "GET", None);
    let mut expected = failure_fields("ask- Ask", "ask");
    expected.push(field("redis.operation_context", text("GET")));
    assert_eq!(span.recorded(), &expected);
}

#[test]
fn record_failure_writes_given_kind_and_message() {
    let mut span = new_span();
    record_failure(&mut span, ErrorKind::ClusterDown, "down");
    assert_eq!(span.recorded(), &failure_fields("down", "cluster_down"));
}

#[test]
fn every_listed_kind_has_its_tag() {
    let cases = [
        (ErrorKind::ResponseError, "response_error"),
        (ErrorKind::AuthenticationFailed, "authentication_failed"),
        (ErrorKind::TypeError, "type_error"),
        (ErrorKind::ExecAbortError, "exec_abort_error"),
        (ErrorKind::BusyLoadingError, "busy_loading_error"),
        (ErrorKind::NoScriptError, "no_script_error"),
        (ErrorKind::InvalidClientConfig, "invalid_client_config"),
        (ErrorKind::Moved, "moved"),
        (ErrorKind::Ask, "ask"),
        (ErrorKind::TryAgain, "try_again"),
        (ErrorKind::ClusterDown, "cluster_down"),
        (ErrorKind::CrossSlot, "cross_slot"),
        (ErrorKind::MasterDown, "master_down"),
        (ErrorKind::IoError, "io_error"),
        (ErrorKind::ClientError, "client_error"),
        (ErrorKind::ExtensionError, "extension_error"),
    ];
    for (kind, tag) in cases {
        assert_eq!(error_type_tag(kind), tag);
    }
}

#[test]
fn unlisted_kinds_are_unknown() {
    assert_eq!(error_type_tag(ErrorKind::ParseError), "unknown");
    assert_eq!(error_type_tag(ErrorKind::ReadOnly), "unknown");
    assert_eq!(error_type_tag(ErrorKind::NoSub), "unknown");
    assert_eq!(error_type_tag(ErrorKind::RESP3NotSupported), "unknown");
}

#[test]
fn apply_writes_supported_values_in_order() {
    let mut span = new_span();
    let attributes = vec![
        Attribute { key: "http.method".to_string(), value: AttributeValue::String("GET".to_string()) },
        Attribute { key: "http.status_code".to_string(), value: AttributeValue::I64(200) },
        Attribute { key: "payload".to_string(), value: AttributeValue::Other },
        Attribute { key: "http.success".to_string(), value: AttributeValue::Bool(true) },
    ];

    apply_span_attributes(&mut span, &attributes);

    assert_eq!(
        span.recorded(),
        &vec![
            field("http.method", text("GET")),
            field("http.status_code", FieldValue::I64(200)),
            field("http.success", FieldValue::Bool(true)),
        ]
    );
}

#[test]
fn unsupported_attribute_writes_nothing() {
    let mut span = new_span();
    let attributes =
        vec![Attribute { key: "tags".to_string(), value: AttributeValue::Other }];
    apply_span_attributes(&mut span, &attributes);
    assert!(span.recorded().is_empty());
}

#[test]
fn duplicate_keys_are_written_in_list_order() {
    let mut span = new_span();
    let attributes = vec![
        Attribute { key: "k".to_string(), value: AttributeValue::I64(1) },
        Attribute { key: "k".to_string(), value: AttributeValue::I64(2) },
    ];
    apply_span_attributes(&mut span, &attributes);
    let last = span.recorded().iter().rev().find(|f| f.key == "k").unwrap();
    assert_eq!(last.value, FieldValue::I64(2));
    assert_eq!(span.recorded().len(), 2);
}

#[test]
fn apply_empty_list_writes_nothing() {
    let mut span = new_span();
    apply_span_attributes(&mut span, &[]);
    assert!(span.recorded().is_empty());
}

#[test]
fn io_error_is_tagged_io_error() {
    let mut span = new_span();
    let result: Result<(), RedisError> =
        Err(RedisError::from((ErrorKind::IoError, "connection error")));
    record_command_result(&mut span, &result);
    assert_eq!(span.recorded(), &failure_fields("connection error- IoError", "io_error"));
}

#[test]
fn context_follows_the_error_fields() {
    let mut span = new_span();
    let result: Result<(), RedisError> =
        Err(RedisError::from((ErrorKind::IoError, "Connection closed")));
    record_command_result_with_context(&mut span, &result, "SET", Some("user:123"));
    let mut expected = failure_fields("Connection closed- IoError", "io_error");
    expected.push(field("redis.operation_context", text("SET")));
    expected.push(field("redis.key_pattern", text("user:123")));
    assert_eq!(span.recorded(), &expected);
}
