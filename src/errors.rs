//! Classification of Redis errors into stable telemetry tags.
use vstd::prelude::*;

verus! {

/// redis::ErrorKind, a field-less enum: its variants are read from the
/// redis crate's own definition, so that a kind can be matched on.
#[verifier::external_type_specification]
pub struct ExErrorKind(redis::ErrorKind);

/// redis::RedisError, carried as an opaque value.
#[verifier::external_type_specification]
#[verifier::external_body]
pub struct ExRedisError(redis::RedisError);

/// The category of the error `err`.
pub uninterp spec fn kind_of(err: redis::RedisError) -> redis::ErrorKind;

/// Relies on redis::RedisError::kind, which reports the category of an
/// error; the result depends on the error alone.
pub assume_specification[ redis::RedisError::kind ](err: &redis::RedisError) -> (r: redis::ErrorKind)
    ensures
        r == kind_of(*err),
;

/// Relies on the `Display` impl of redis::RedisError for the error's text.
/// Nothing is promised of the text: for an I/O error it comes from the
/// operating system and may depend on the locale.
#[verifier::external_body]
pub(crate) fn display_text(err: &redis::RedisError) -> String {
    err.to_string()
}

/// The tag recorded as `error.type` for an error of kind `k`.
pub open spec fn tag_of(k: redis::ErrorKind) -> Seq<char> {
    match k {
        redis::ErrorKind::ResponseError => "response_error"@,
        redis::ErrorKind::AuthenticationFailed => "authentication_failed"@,
        redis::ErrorKind::TypeError => "type_error"@,
        redis::ErrorKind::ExecAbortError => "exec_abort_error"@,
        redis::ErrorKind::BusyLoadingError => "busy_loading_error"@,
        redis::ErrorKind::NoScriptError => "no_script_error"@,
        redis::ErrorKind::InvalidClientConfig => "invalid_client_config"@,
        redis::ErrorKind::Moved => "moved"@,
        redis::ErrorKind::Ask => "ask"@,
        redis::ErrorKind::TryAgain => "try_again"@,
        redis::ErrorKind::ClusterDown => "cluster_down"@,
        redis::ErrorKind::CrossSlot => "cross_slot"@,
        redis::ErrorKind::MasterDown => "master_down"@,
        redis::ErrorKind::IoError => "io_error"@,
        redis::ErrorKind::ClientError => "client_error"@,
        redis::ErrorKind::ExtensionError => "extension_error"@,
        _ => "unknown"@,
    }
}

/// Maps an error kind to its `error.type` tag.
pub fn error_type_tag(kind: redis::ErrorKind) -> (r: &'static str)
    ensures
        r@ == tag_of(kind),
{
    match kind {
        redis::ErrorKind::ResponseError => "response_error",
        redis::ErrorKind::AuthenticationFailed => "authentication_failed",
        redis::ErrorKind::TypeError => "type_error",
        redis::ErrorKind::ExecAbortError => "exec_abort_error",
        redis::ErrorKind::BusyLoadingError => "busy_loading_error",
        redis::ErrorKind::NoScriptError => "no_script_error",
        redis::ErrorKind::InvalidClientConfig => "invalid_client_config",
        redis::ErrorKind::Moved => "moved",
        redis::ErrorKind::Ask => "ask",
        redis::ErrorKind::TryAgain => "try_again",
        redis::ErrorKind::ClusterDown => "cluster_down",
        redis::ErrorKind::CrossSlot => "cross_slot",
        redis::ErrorKind::MasterDown => "master_down",
        redis::ErrorKind::IoError => "io_error",
        redis::ErrorKind::ClientError => "client_error",
        redis::ErrorKind::ExtensionError => "extension_error",
        _ => "unknown",
    }
}

/// Whether `k` is one of the kinds that have a tag of their own.
pub open spec fn listed_kind(k: redis::ErrorKind) -> bool {
    match k {
        redis::ErrorKind::ResponseError | redis::ErrorKind::AuthenticationFailed
        | redis::ErrorKind::TypeError | redis::ErrorKind::ExecAbortError
        | redis::ErrorKind::BusyLoadingError | redis::ErrorKind::NoScriptError
        | redis::ErrorKind::InvalidClientConfig | redis::ErrorKind::Moved
        | redis::ErrorKind::Ask | redis::ErrorKind::TryAgain
        | redis::ErrorKind::ClusterDown | redis::ErrorKind::CrossSlot
        | redis::ErrorKind::MasterDown | redis::ErrorKind::IoError
        | redis::ErrorKind::ClientError | redis::ErrorKind::ExtensionError => true,
        _ => false,
    }
}

/// The tags that `error.type` can take.
pub open spec fn error_tags() -> Set<Seq<char>> {
    set![
        "response_error"@, "authentication_failed"@, "type_error"@, "exec_abort_error"@,
        "busy_loading_error"@, "no_script_error"@, "invalid_client_config"@, "moved"@,
        "ask"@, "try_again"@, "cluster_down"@, "cross_slot"@, "master_down"@, "io_error"@,
        "client_error"@, "extension_error"@, "unknown"@,
    ]
}

/// Every kind of error has its tag in the fixed set of tags, and every kind
/// without a tag of its own has the tag `unknown`.
pub proof fn lemma_tag_is_fixed(k: redis::ErrorKind)
    ensures
        error_tags().contains(tag_of(k)),
        !listed_kind(k) ==> tag_of(k) == "unknown"@,
{
}

/// Two different kinds that have tags of their own have different tags,
/// none of them `unknown`.
pub proof fn lemma_listed_tags_distinct(a: redis::ErrorKind, b: redis::ErrorKind)
    requires
        listed_kind(a),
        listed_kind(b),
        a != b,
    ensures
        tag_of(a) != tag_of(b),
        tag_of(a) != "unknown"@,
{
    reveal_strlit("response_error");
    reveal_strlit("authentication_failed");
    reveal_strlit("type_error");
    reveal_strlit("exec_abort_error");
    reveal_strlit("busy_loading_error");
    reveal_strlit("no_script_error");
    reveal_strlit("invalid_client_config");
    reveal_strlit("moved");
    reveal_strlit("ask");
    reveal_strlit("try_again");
    reveal_strlit("cluster_down");
    reveal_strlit("cross_slot");
    reveal_strlit("master_down");
    reveal_strlit("io_error");
    reveal_strlit("client_error");
    reveal_strlit("extension_error");
    reveal_strlit("unknown");
    let (ta, tb) = (tag_of(a), tag_of(b));
    assert(ta.len() != tb.len() || ta[0] != tb[0] || ta[2] != tb[2]);
    assert(ta.len() != "unknown"@.len());
}

} // verus!
