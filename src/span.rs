//! A span that forwards field writes to a `tracing` span and keeps the
//! sequence of writes it made, so that what was recorded can be stated and
//! inspected.
use vstd::prelude::*;

verus! {

/// tracing::Span, carried as an opaque value.
#[verifier::external_type_specification]
#[verifier::external_body]
pub struct ExSpan(tracing::Span);

/// A value written into a span field.
#[derive(Clone, Debug, PartialEq)]
pub enum FieldValue {
    Str(String),
    I64(i64),
    Bool(bool),
}

/// The mathematical value of a [`FieldValue`].
pub enum FieldData {
    Str(Seq<char>),
    I64(i64),
    Bool(bool),
}

impl View for FieldValue {
    type V = FieldData;

    open spec fn view(&self) -> FieldData {
        match self {
            FieldValue::Str(s) => FieldData::Str(s@),
            FieldValue::I64(i) => FieldData::I64(*i),
            FieldValue::Bool(b) => FieldData::Bool(*b),
        }
    }
}

/// One write of a value into a named span field.
#[derive(Clone, Debug, PartialEq)]
pub struct SpanField {
    pub key: String,
    pub value: FieldValue,
}

/// The mathematical value of a [`SpanField`].
pub struct FieldWrite {
    pub key: Seq<char>,
    pub value: FieldData,
}

impl View for SpanField {
    type V = FieldWrite;

    open spec fn view(&self) -> FieldWrite {
        FieldWrite { key: self.key@, value: self.value@ }
    }
}

/// The write of `value` into the field `key`.
pub open spec fn field_write(key: Seq<char>, value: FieldData) -> FieldWrite {
    FieldWrite { key, value }
}

/// The writes of a list of fields, in order.
pub open spec fn writes_of(fields: Seq<SpanField>) -> Seq<FieldWrite> {
    fields.map_values(|f: SpanField| f@)
}

/// The value that a span shows for `key` after the writes `log`: the last
/// one written, since a later write of a field replaces an earlier one.
pub open spec fn shown_value(log: Seq<FieldWrite>, key: Seq<char>) -> Option<FieldData>
    decreases log.len(),
{
    if log.len() == 0 {
        None
    } else if log.last().key == key {
        Some(log.last().value)
    } else {
        shown_value(log.drop_last(), key)
    }
}

/// After one more write, a span shows that write's value for its key and
/// what it showed before for any other key.
pub proof fn lemma_shown_value_push(log: Seq<FieldWrite>, w: FieldWrite, key: Seq<char>)
    ensures
        shown_value(log.push(w), key) == if w.key == key {
            Some(w.value)
        } else {
            shown_value(log, key)
        },
{
    assert(log.push(w).drop_last() =~= log);
}

/// Relies on tracing::Span::record: writes a string into the field `key`
/// of the span, where the span declares that field.
#[verifier::external_body]
fn span_record_str(span: &tracing::Span, key: &str, value: &str) {
    span.record(key, value);
}

/// Relies on tracing::Span::record: writes a 64-bit integer into the field
/// `key` of the span, where the span declares that field.
#[verifier::external_body]
fn span_record_i64(span: &tracing::Span, key: &str, value: i64) {
    span.record(key, value);
}

/// Relies on tracing::Span::record: writes a boolean into the field `key`
/// of the span, where the span declares that field.
#[verifier::external_body]
fn span_record_bool(span: &tracing::Span, key: &str, value: bool) {
    span.record(key, value);
}

/// A `tracing` span together with the field writes made through it.
pub struct InstrumentedSpan {
    span: tracing::Span,
    fields: Vec<SpanField>,
}

impl View for InstrumentedSpan {
    type V = Seq<FieldWrite>;

    /// The writes made through this span, oldest first.
    closed spec fn view(&self) -> Seq<FieldWrite> {
        writes_of(self.fields@)
    }
}

impl InstrumentedSpan {
    /// Wraps a freshly created span; no field has been written through it yet.
    pub fn new(span: tracing::Span) -> (r: Self)
        ensures
            r@ == Seq::<FieldWrite>::empty(),
    {
        let r = InstrumentedSpan { span, fields: Vec::new() };
        proof {
            assert(r@ =~= Seq::<FieldWrite>::empty());
        }
        r
    }

    /// The underlying `tracing` span.
    pub fn inner(&self) -> &tracing::Span {
        &self.span
    }

    /// The fields written through this span, oldest first.
    pub fn recorded(&self) -> (r: &Vec<SpanField>)
        ensures
            writes_of(r@) == self@,
    {
        &self.fields
    }

    /// Writes `value` into the field `key`.
    pub fn record(&mut self, key: &str, value: FieldValue)
        ensures
            final(self)@ == old(self)@.push(field_write(key@, value@)),
    {
        match &value {
            FieldValue::Str(s) => span_record_str(&self.span, key, s.as_str()),
            FieldValue::I64(i) => span_record_i64(&self.span, key, *i),
            FieldValue::Bool(b) => span_record_bool(&self.span, key, *b),
        }
        let field = SpanField { key: String::from_str(key), value };
        self.fields.push(field);
        proof {
            assert(writes_of(self.fields@) =~= writes_of(old(self).fields@).push(field_write(key@, value@)));
        }
    }
}

} // verus!
