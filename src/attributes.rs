//! Telemetry attributes of a command, the span name, and the writing of
//! attributes onto a span.
use vstd::prelude::*;
use crate::command::{
    ascii_lower, ascii_upper, cmd_args, command_name, first_arg_undecodable, get_command_name,
    is_ascii_text, ArgData,
};
use crate::span::{field_write, FieldData, FieldValue, FieldWrite, InstrumentedSpan};

verus! {

/// The value of a telemetry attribute.
#[derive(Clone, Debug, PartialEq)]
pub enum AttributeValue {
    String(String),
    I64(i64),
    Bool(bool),
    /// A structured value, such as an array, that span fields cannot carry.
    Other,
}

/// The mathematical value of an [`AttributeValue`].
pub enum AttributeData {
    String(Seq<char>),
    I64(i64),
    Bool(bool),
    Other,
}

impl View for AttributeValue {
    type V = AttributeData;

    open spec fn view(&self) -> AttributeData {
        match self {
            AttributeValue::String(s) => AttributeData::String(s@),
            AttributeValue::I64(i) => AttributeData::I64(*i),
            AttributeValue::Bool(b) => AttributeData::Bool(*b),
            AttributeValue::Other => AttributeData::Other,
        }
    }
}

/// A typed key/value telemetry fact.
#[derive(Clone, Debug, PartialEq)]
pub struct Attribute {
    pub key: String,
    pub value: AttributeValue,
}

/// The mathematical value of an [`Attribute`].
pub struct AttributeView {
    pub key: Seq<char>,
    pub value: AttributeData,
}

impl View for Attribute {
    type V = AttributeView;

    open spec fn view(&self) -> AttributeView {
        AttributeView { key: self.key@, value: self.value@ }
    }
}

/// The views of a list of attributes.
pub open spec fn attribute_views(attrs: Seq<Attribute>) -> Seq<AttributeView> {
    attrs.map_values(|a: Attribute| a@)
}

/// The lower-case form of the text `s`.
pub uninterp spec fn lower_of(s: Seq<char>) -> Seq<char>;

/// Relies on str::to_lowercase: the result depends on the characters alone,
/// and an ASCII text is lowered character by character, `A` to `Z` becoming
/// `a` to `z`.
#[verifier::external_body]
fn lowercase(s: &str) -> (r: String)
    ensures
        r@ == lower_of(s@),
        is_ascii_text(s@) ==> r@ == s@.map_values(|c: char| ascii_lower(c)),
{
    s.to_lowercase()
}

/// Relies on opentelemetry_semantic_conventions::attribute::DB_SYSTEM_NAME,
/// which is the key `db.system.name`.
#[verifier::external_body]
fn db_system_name_key() -> (r: &'static str)
    ensures
        r@ == "db.system.name"@,
{
    opentelemetry_semantic_conventions::attribute::DB_SYSTEM_NAME
}

/// Relies on opentelemetry_semantic_conventions::attribute::DB_OPERATION_NAME,
/// which is the key `db.operation.name`.
#[verifier::external_body]
fn db_operation_name_key() -> (r: &'static str)
    ensures
        r@ == "db.operation.name"@,
{
    opentelemetry_semantic_conventions::attribute::DB_OPERATION_NAME
}

/// The attribute that names the database system: `db.system.name = "redis"`.
pub open spec fn system_attribute() -> AttributeView {
    AttributeView { key: "db.system.name"@, value: AttributeData::String("redis"@) }
}

/// The attribute that names the operation: `db.operation.name = name`.
pub open spec fn operation_attribute(name: Seq<char>) -> AttributeView {
    AttributeView { key: "db.operation.name"@, value: AttributeData::String(name) }
}

/// The attributes of a command whose name is `name`: the system, then the
/// operation where the name is known.
pub open spec fn command_attributes(name: Option<Seq<char>>) -> Seq<AttributeView> {
    match name {
        Some(n) => seq![system_attribute(), operation_attribute(n)],
        None => seq![system_attribute()],
    }
}

/// The operation shown for a command whose name is `name`: the name, or
/// `command` where it is unknown.
pub open spec fn display_operation(name: Option<Seq<char>>) -> Seq<char> {
    match name {
        Some(n) => n,
        None => "command"@,
    }
}

/// The name of the span of an operation: `redis ` and the operation in
/// lower case.
pub open spec fn span_name(operation: Seq<char>) -> Seq<char> {
    "redis "@ + lower_of(operation)
}

/// The attributes of a command whose name is `name`.
pub fn attributes_for_name(name: &Option<String>) -> (r: Vec<Attribute>)
    ensures
        attribute_views(r@) == command_attributes(name.deep_view()),
{
    let mut r: Vec<Attribute> = Vec::new();
    r.push(Attribute {
        key: String::from_str(db_system_name_key()),
        value: AttributeValue::String(String::from_str("redis")),
    });
    if let Some(n) = name {
        r.push(Attribute {
            key: String::from_str(db_operation_name_key()),
            value: AttributeValue::String(n.clone()),
        });
    }
    assert(attribute_views(r@) =~= command_attributes(name.deep_view()));
    r
}

/// The telemetry attributes of the command `cmd`: always
/// `db.system.name = "redis"`, then `db.operation.name` with the command's
/// name where it has one.
pub fn extract_command_attributes(cmd: &redis::Cmd) -> (r: Vec<Attribute>)
    ensures
        attribute_views(r@) == command_attributes(command_name(cmd_args(*cmd))),
{
    attributes_for_name(&get_command_name(cmd))
}

/// The span name of an operation: `redis ` followed by the operation in
/// lower case.
pub fn generate_span_name(operation: &str) -> (r: String)
    ensures
        r@ == span_name(operation@),
        is_ascii_text(operation@) ==> r@ == ascii_span_name(operation@),
{
    let lower = lowercase(operation);
    span_name_of_lowered(lower.as_str())
}

/// The span name for an operation already in lower case: `redis ` followed
/// by `lower`.
pub fn span_name_of_lowered(lower: &str) -> (r: String)
    ensures
        r@ == "redis "@ + lower@,
{
    let mut r = String::from_str("redis ");
    r.append(lower);
    r
}

/// What a command's span opens with: its display name and its operation,
/// and whether the command's first argument failed to decode as UTF-8, which
/// calls for a warning.
pub struct CommandSpan {
    pub name: String,
    pub operation: String,
    pub name_undecodable: bool,
}

/// The span of the command `cmd` and its attributes. The operation is the
/// command's name, or `command` where it has none; the span's name is
/// [`generate_span_name`] of that operation; the attributes are those of
/// [`extract_command_attributes`], to be applied to the span with
/// [`apply_span_attributes`] before the command runs.
pub fn create_command_span(cmd: &redis::Cmd) -> (r: (CommandSpan, Vec<Attribute>))
    ensures
        r.0.operation@ == display_operation(command_name(cmd_args(*cmd))),
        r.0.name@ == span_name(display_operation(command_name(cmd_args(*cmd)))),
        attribute_views(r.1@) == command_attributes(command_name(cmd_args(*cmd))),
        r.0.name_undecodable == (cmd_args(*cmd).len() > 0 && command_name(cmd_args(*cmd)) is None),
{
    let name_undecodable = first_arg_undecodable(cmd);
    let name = get_command_name(cmd);
    let attributes = attributes_for_name(&name);
    let operation = match name {
        Some(n) => n,
        None => String::from_str("command"),
    };
    let span_name = generate_span_name(operation.as_str());
    (CommandSpan { name: span_name, operation, name_undecodable }, attributes)
}

/// The span writes of one attribute: one write under its key for a string,
/// integer or boolean value, none for any other value.
pub open spec fn attribute_write(a: AttributeView) -> Seq<FieldWrite> {
    match a.value {
        AttributeData::String(s) => seq![field_write(a.key, FieldData::Str(s))],
        AttributeData::I64(i) => seq![field_write(a.key, FieldData::I64(i))],
        AttributeData::Bool(b) => seq![field_write(a.key, FieldData::Bool(b))],
        AttributeData::Other => seq![],
    }
}

/// The span writes of a list of attributes, in list order.
pub open spec fn attribute_writes(attrs: Seq<AttributeView>) -> Seq<FieldWrite>
    decreases attrs.len(),
{
    if attrs.len() == 0 {
        seq![]
    } else {
        attribute_writes(attrs.drop_last()) + attribute_write(attrs.last())
    }
}

/// Writes each attribute onto `span` under its key, in list order, as a
/// field of its value's type; attributes of any other value are skipped.
pub fn apply_span_attributes(span: &mut InstrumentedSpan, attributes: &[Attribute])
    ensures
        final(span)@ == old(span)@ + attribute_writes(attribute_views(attributes@)),
{
    let mut i: usize = 0;
    while i < attributes.len()
        invariant
            i <= attributes.len(),
            span@ == old(span)@ + attribute_writes(attribute_views(attributes@.take(i as int))),
        decreases attributes.len() - i,
    {
        let ghost before = span@;
        let a = &attributes[i];
        match &a.value {
            AttributeValue::String(s) => span.record(a.key.as_str(), FieldValue::Str(s.clone())),
            AttributeValue::I64(v) => span.record(a.key.as_str(), FieldValue::I64(*v)),
            AttributeValue::Bool(b) => span.record(a.key.as_str(), FieldValue::Bool(*b)),
            AttributeValue::Other => {},
        }
        proof {
            let seen = attribute_views(attributes@.take(i as int));
            let next = attribute_views(attributes@.take(i + 1));
            assert(next.drop_last() =~= seen);
            assert(next.last() == attributes@[i as int]@);
            assert(span@ =~= before + attribute_write(attributes@[i as int]@));
        }
        i += 1;
    }
    assert(attributes@.take(attributes.len() as int) =~= attributes@);
}

/// Every command has the system attribute first, whatever its arguments.
pub proof fn lemma_system_attribute_always_present(args: Seq<ArgData>)
    ensures
        command_attributes(command_name(args)).len() >= 1,
        command_attributes(command_name(args))[0] == system_attribute(),
{
}

/// An empty command has the system attribute and no operation attribute.
pub proof fn lemma_empty_command_attributes(args: Seq<ArgData>)
    requires
        args.len() == 0,
    ensures
        command_attributes(command_name(args)) == seq![system_attribute()],
        forall|i: int|
            0 <= i < command_attributes(command_name(args)).len()
                ==> command_attributes(command_name(args))[i].key != "db.operation.name"@,
{
    reveal_strlit("db.system.name");
    reveal_strlit("db.operation.name");
    assert("db.system.name"@.len() != "db.operation.name"@.len());
}

/// The span name of an operation depends on its lower-case form alone, so
/// operations that differ only in case share a span name.
pub proof fn lemma_span_name_ignores_case(a: Seq<char>, b: Seq<char>)
    requires
        lower_of(a) == lower_of(b),
    ensures
        span_name(a) == span_name(b),
{
}

/// The span name of an ASCII operation: `redis ` followed by the operation
/// lowered character by character.
pub open spec fn ascii_span_name(operation: Seq<char>) -> Seq<char> {
    "redis "@ + operation.map_values(|c: char| ascii_lower(c))
}

/// An ASCII operation, its ASCII upper case and its ASCII lower case are all
/// ASCII and share one span name.
pub proof fn lemma_span_name_ignores_ascii_case(op: Seq<char>)
    requires
        is_ascii_text(op),
    ensures
        is_ascii_text(op.map_values(|c: char| ascii_upper(c))),
        is_ascii_text(op.map_values(|c: char| ascii_lower(c))),
        ascii_span_name(op.map_values(|c: char| ascii_upper(c))) == ascii_span_name(op),
        ascii_span_name(op.map_values(|c: char| ascii_lower(c))) == ascii_span_name(op),
{
    let up = op.map_values(|c: char| ascii_upper(c));
    let low = op.map_values(|c: char| ascii_lower(c));
    assert(up.map_values(|c: char| ascii_lower(c)) =~= low);
    assert(low.map_values(|c: char| ascii_lower(c)) =~= low);
}

/// Applying attributes writes only fields for string, integer and boolean
/// values: each write is the write of one such attribute, under its key and
/// with its value.
pub proof fn lemma_writes_only_supported(attrs: Seq<AttributeView>)
    ensures
        forall|j: int| #![trigger attribute_writes(attrs)[j]]
            0 <= j < attribute_writes(attrs).len() ==> exists|i: int|
            0 <= i < attrs.len() && !(attrs[i].value is Other)
                && #[trigger] attribute_write(attrs[i]) == seq![attribute_writes(attrs)[j]],
    decreases attrs.len(),
{
    if attrs.len() > 0 {
        let rest = attrs.drop_last();
        lemma_writes_only_supported(rest);
        let prev = attribute_writes(rest);
        let w = attribute_writes(attrs);
        assert forall|j: int| #![trigger w[j]] 0 <= j < w.len() implies exists|i: int|
            0 <= i < attrs.len() && !(attrs[i].value is Other)
                && #[trigger] attribute_write(attrs[i]) == seq![w[j]] by {
            if j < prev.len() {
                assert(w[j] == prev[j]);
                let i = choose|i: int|
                    0 <= i < rest.len() && !(rest[i].value is Other)
                        && #[trigger] attribute_write(rest[i]) == seq![prev[j]];
                assert(attrs[i] == rest[i]);
            } else {
                let i = attrs.len() - 1;
                assert(attribute_write(attrs[i]) =~= seq![w[j]]);
            }
        }
    }
}

/// An attribute of a value that span fields cannot carry adds no write.
pub proof fn lemma_unsupported_attribute_skipped(attrs: Seq<AttributeView>, a: AttributeView)
    requires
        a.value is Other,
    ensures
        attribute_writes(attrs.push(a)) == attribute_writes(attrs),
{
    assert(attrs.push(a).drop_last() =~= attrs);
    assert(attribute_writes(attrs) + seq![] =~= attribute_writes(attrs));
}

} // verus!
