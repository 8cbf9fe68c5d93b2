//! The FROST CI/CD processors: configuration, metadata and the decisions they
//! take for each job or FlowFile. Connections to Redis, Kubernetes and
//! PostgreSQL are held and driven by the processors' runners.
pub mod attributes;
pub mod consume_frost_bus;
pub mod deploy_k8s;
pub mod lookup_build_config;
pub mod publish_frost_bus;
pub mod self_deploy_gate;
pub mod trigger_kaniko;

use crate::context::{lookup_text, ProcessContext, TransferTarget};
use crate::ext::{is_uuid_v4, new_uuid_v4, now_millis};
use crate::processor::{
    error_text, ProcessorError, PropertyDescriptor, PropertyValue, Relationship,
};
use vstd::prelude::*;

verus! {

/// A frost-bus job.
///
/// Ids are the 128-bit values of the job's UUIDs; `payload` is the JSON text
/// of the job's payload.
pub struct FrostJob {
    pub id: u128,
    pub job_type: String,
    pub payload: Vec<u8>,
    pub session_id: Option<u128>,
    pub user_sub: Option<String>,
    pub workspace_id: Option<u128>,
    pub project_id: Option<u128>,
    pub status: String,
    pub created_at: i64,
}

impl FrostJob {
    /// A queued job of type `job_type` with a fresh random version-4 UUID as
    /// id, created now, with no session, user, workspace or project.
    pub fn new(job_type: &str, payload: Vec<u8>) -> (r: Self)
        ensures
            r.job_type@ == job_type@,
            r.payload@ == payload@,
            r.session_id is None,
            r.user_sub is None,
            r.workspace_id is None,
            r.project_id is None,
            r.status@ == "queued"@,
            is_uuid_v4(r.id),
    {
        FrostJob {
            id: new_uuid_v4(),
            job_type: job_type.to_owned(),
            payload,
            session_id: None,
            user_sub: None,
            workspace_id: None,
            project_id: None,
            status: "queued".to_owned(),
            created_at: now_millis(),
        }
    }
}

/// `d` describes property `name` with this display name, description and
/// flags, and supports no expression language.
pub open spec fn descriptor_is(
    d: PropertyDescriptor,
    name: Seq<char>,
    display: Seq<char>,
    description: Seq<char>,
    required: bool,
    sensitive: bool,
) -> bool {
    &&& d.name@ == name
    &&& d.display_name@ == display
    &&& d.description@ == description
    &&& d.required == required
    &&& d.sensitive == sensitive
    &&& !d.expression_language_supported
}

/// One transfer was appended to `before`, giving `after`.
pub open spec fn appended_one(before: Seq<TransferTarget>, after: Seq<TransferTarget>) -> bool {
    after.len() == before.len() + 1 && after.drop_last() == before
}

/// `after` is the attribute map `before` with `key` set to the message of
/// the error `e` (its text as it displays; for an I/O error, std's text).
pub open spec fn error_noted(
    before: Map<Seq<char>, Seq<char>>,
    after: Map<Seq<char>, Seq<char>>,
    key: Seq<char>,
    e: ProcessorError,
) -> bool {
    &&& after.contains_key(key)
    &&& after == before.insert(key, after[key])
    &&& !(e is Io) ==> after[key] == error_text(e)
}

/// A string property value holding `s`.
pub open spec fn text_value(v: Option<PropertyValue>, s: Seq<char>) -> bool {
    v matches Some(PropertyValue::String(t)) && t@ == s
}

/// `r` is the relationship with this name and description, not
/// auto-terminated.
pub open spec fn relationship_is(r: Relationship, name: Seq<char>, description: Seq<char>) -> bool {
    r.name@ == name && r.description@ == description && !r.auto_terminate
}

/// The UUID value an optional attribute holds, when it parses as one.
pub open spec fn uuid_attr(v: Option<Seq<char>>) -> Option<u128> {
    match v {
        Some(t) => crate::ext::uuid_parse_spec(t),
        None => None,
    }
}

/// A string property value.
pub(crate) fn text(s: &str) -> (r: PropertyValue)
    ensures
        r matches PropertyValue::String(t) && t@ == s@,
{
    PropertyValue::String(s.to_owned())
}

/// The text of property `name`, which is required: its absence is an
/// invalid configuration reported with `missing`.
pub fn require_property(ctx: &ProcessContext, name: &str, missing: &str) -> (r: Result<
    String,
    ProcessorError,
>)
    ensures
        match lookup_text(ctx.props(), name@) {
            Some(t) => r matches Ok(s) && s@ == t,
            None => r matches Err(ProcessorError::InvalidConfig(m)) && m@ == missing@,
        },
{
    match ctx.get_property_string(name) {
        Some(s) => Ok(s.to_owned()),
        None => Err(ProcessorError::InvalidConfig(missing.to_owned())),
    }
}

} // verus!
