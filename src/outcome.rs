//! Recording of a command's outcome onto its span.
use vstd::prelude::*;
use crate::errors::{display_text, error_tags, error_type_tag, kind_of, lemma_tag_is_fixed, tag_of};
use crate::span::{field_write, lemma_shown_value_push, shown_value, FieldData, FieldValue, FieldWrite, InstrumentedSpan};

verus! {

/// The writes that mark a span as successful.
pub open spec fn success_writes() -> Seq<FieldWrite> {
    seq![field_write("otel.status_code"@, FieldData::Str("OK"@))]
}

/// The writes that mark a span as failed with an error of kind `kind`
/// whose text is `message`.
pub open spec fn failure_writes(kind: redis::ErrorKind, message: Seq<char>) -> Seq<FieldWrite> {
    seq![
        field_write("error"@, FieldData::Bool(true)),
        field_write("error.message"@, FieldData::Str(message)),
        field_write("otel.status_code"@, FieldData::Str("ERROR"@)),
        field_write("otel.status_description"@, FieldData::Str(message)),
        field_write("error.type"@, FieldData::Str(tag_of(kind))),
    ]
}

/// The writes that add the caller's context to a failed span.
pub open spec fn context_writes(operation: Seq<char>, key_info: Option<Seq<char>>) -> Seq<FieldWrite> {
    let op = seq![field_write("redis.operation_context"@, FieldData::Str(operation))];
    match key_info {
        Some(key) => op.push(field_write("redis.key_pattern"@, FieldData::Str(key))),
        None => op,
    }
}

fn str_value(s: &str) -> (r: FieldValue)
    ensures
        r@ == FieldData::Str(s@),
{
    FieldValue::Str(String::from_str(s))
}

/// Records a failure of kind `kind` with the text `message` onto `span`.
pub fn record_failure(span: &mut InstrumentedSpan, kind: redis::ErrorKind, message: &str)
    ensures
        final(span)@ == old(span)@ + failure_writes(kind, message@),
{
    span.record("error", FieldValue::Bool(true));
    span.record("error.message", str_value(message));
    span.record("otel.status_code", str_value("ERROR"));
    span.record("otel.status_description", str_value(message));
    span.record("error.type", str_value(error_type_tag(kind)));
    assert(span@ =~= old(span)@ + failure_writes(kind, message@));
}

/// Records the error `err` onto `span`: `error`, `error.message`,
/// `otel.status_code`, `otel.status_description` and `error.type`, in that
/// order, where the type is the tag of the error's kind and the message is
/// the error's display text, which this library takes as given.
pub fn record_error_on_span(span: &mut InstrumentedSpan, err: &redis::RedisError)
    ensures
        exists|message: Seq<char>|
            final(span)@ == old(span)@ + failure_writes(kind_of(*err), message),
{
    let kind = err.kind();
    let message = display_text(err);
    record_failure(span, kind, message.as_str());
    assert(span@ == old(span)@ + failure_writes(kind_of(*err), message@));
}

/// Records the outcome of a command onto `span`: `otel.status_code = "OK"`
/// on success, the error's fields on failure.
pub fn record_command_result<T>(span: &mut InstrumentedSpan, result: &Result<T, redis::RedisError>)
    ensures
        result is Ok ==> final(span)@ == old(span)@ + success_writes(),
        result matches Err(e) ==> exists|message: Seq<char>|
            final(span)@ == old(span)@ + failure_writes(kind_of(*e), message),
{
    match result {
        Ok(_) => {
            span.record("otel.status_code", str_value("OK"));
            assert(span@ =~= old(span)@ + success_writes());
        },
        Err(err) => {
            record_error_on_span(span, err);
        },
    }
}

/// The view of an optional string.
pub open spec fn opt_text(s: Option<&str>) -> Option<Seq<char>> {
    match s {
        Some(t) => Some(t@),
        None => None,
    }
}

/// Records the outcome of a command as [`record_command_result`] does and,
/// on failure only, the caller's context: `redis.operation_context` and,
/// where given, `redis.key_pattern`.
pub fn record_command_result_with_context<T>(
    span: &mut InstrumentedSpan,
    result: &Result<T, redis::RedisError>,
    operation: &str,
    key_info: Option<&str>,
)
    ensures
        result is Ok ==> final(span)@ == old(span)@ + success_writes(),
        result matches Err(e) ==> exists|message: Seq<char>|
            final(span)@ == old(span)@ + failure_writes(kind_of(*e), message)
                + context_writes(operation@, opt_text(key_info)),
{
    record_command_result(span, result);
    if result.is_err() {
        let ghost mid = span@;
        span.record("redis.operation_context", str_value(operation));
        if let Some(key) = key_info {
            span.record("redis.key_pattern", str_value(key));
        }
        assert(span@ =~= mid + context_writes(operation@, opt_text(key_info)));
        if let Err(e) = result {
            let ghost message = choose|message: Seq<char>|
                mid == old(span)@ + failure_writes(kind_of(*e), message);
            assert(span@ == old(span)@ + failure_writes(kind_of(*e), message)
                + context_writes(operation@, opt_text(key_info)));
        }
    }
}

/// Recording a success shows `otel.status_code = "OK"` and writes no
/// `error` field.
pub proof fn lemma_success_shows_ok(log: Seq<FieldWrite>)
    ensures
        shown_value(log + success_writes(), "otel.status_code"@) == Some(FieldData::Str("OK"@)),
        shown_value(log + success_writes(), "error"@) == shown_value(log, "error"@),
        forall|i: int| 0 <= i < success_writes().len() ==> success_writes()[i].key != "error"@,
{
    reveal_strlit("otel.status_code");
    reveal_strlit("error");
    assert("otel.status_code"@.len() == 16 && "error"@.len() == 5);
    let w = field_write("otel.status_code"@, FieldData::Str("OK"@));
    assert(log + success_writes() =~= log.push(w));
    lemma_shown_value_push(log, w, "otel.status_code"@);
    lemma_shown_value_push(log, w, "error"@);
}

/// Recording a failure with a non-empty message shows `error = true`, the
/// message as `error.message`, `otel.status_code = "ERROR"`, and an
/// `error.type` from the fixed set of tags.
pub proof fn lemma_failure_shows_error(log: Seq<FieldWrite>, kind: redis::ErrorKind, message: Seq<char>)
    requires
        message.len() > 0,
    ensures
        shown_value(log + failure_writes(kind, message), "error"@) == Some(FieldData::Bool(true)),
        shown_value(log + failure_writes(kind, message), "error.message"@) == Some(FieldData::Str(message)),
        shown_value(log + failure_writes(kind, message), "otel.status_code"@) == Some(FieldData::Str("ERROR"@)),
        shown_value(log + failure_writes(kind, message), "error.type"@) == Some(FieldData::Str(tag_of(kind))),
        error_tags().contains(tag_of(kind)),
{
    reveal_strlit("error");
    reveal_strlit("error.message");
    reveal_strlit("otel.status_code");
    reveal_strlit("otel.status_description");
    reveal_strlit("error.type");
    let w = failure_writes(kind, message);
    let l1 = log.push(w[0]);
    let l2 = l1.push(w[1]);
    let l3 = l2.push(w[2]);
    let l4 = l3.push(w[3]);
    let l5 = l4.push(w[4]);
    assert(log + w =~= l5);
    assert("error"@.len() == 5 && "error.message"@.len() == 13);
    assert("otel.status_code"@.len() == 16 && "otel.status_description"@.len() == 23);
    assert("error.type"@.len() == 10);
    lemma_shown_value_push(l4, w[4], "error.type"@);
    lemma_shown_value_push(l4, w[4], "error"@);
    lemma_shown_value_push(l4, w[4], "error.message"@);
    lemma_shown_value_push(l4, w[4], "otel.status_code"@);
    lemma_shown_value_push(l3, w[3], "error"@);
    lemma_shown_value_push(l3, w[3], "error.message"@);
    lemma_shown_value_push(l3, w[3], "otel.status_code"@);
    lemma_shown_value_push(l2, w[2], "error"@);
    lemma_shown_value_push(l2, w[2], "error.message"@);
    lemma_shown_value_push(l2, w[2], "otel.status_code"@);
    lemma_shown_value_push(l1, w[1], "error"@);
    lemma_shown_value_push(l1, w[1], "error.message"@);
    lemma_shown_value_push(log, w[0], "error"@);
    lemma_tag_is_fixed(kind);
}

} // verus!
