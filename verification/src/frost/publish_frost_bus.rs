//! PublishFrostBus: publishes FlowFiles as jobs to frost-bus (Valkey/Redis).
use super::attributes::{FROST_JOB_ID, FROST_JOB_TYPE, FROST_PROJECT_ID, FROST_WORKSPACE_ID};
use super::{
    appended_one, descriptor_is, relationship_is, require_property, text, text_value, uuid_attr,
    FrostJob,
};
use crate::context::{lookup_text, ProcessContext, ProcessSession};
use crate::ext::{
    bytes_to_vec, json_normalize, json_normalized_spec, json_object_of, json_object_spec,
    utf8_lossy, utf8_lossy_spec, uuid_parse, uuid_text, uuid_to_string,
};
use crate::flowfile::FlowFile;
use crate::processor::{ProcessorError, PropertyDescriptor, Relationship};
use vstd::prelude::*;

verus! {

/// The JSON text of an empty object, `{}`.
pub open spec fn empty_object() -> Seq<u8> {
    seq![123u8, 125u8]
}

/// The payload published for a FlowFile with this content: the content
/// itself as JSON when it is JSON, an object `{"raw": text}` with the
/// content's text otherwise, and `{}` when there is no content.
pub open spec fn payload_for(content: Option<Seq<u8>>) -> Seq<u8> {
    match content {
        None => empty_object(),
        Some(c) => match json_normalized_spec(c) {
            Some(v) => v,
            None => json_object_spec("raw"@, utf8_lossy_spec(c)),
        },
    }
}

/// Processor that publishes jobs to frost-bus.
pub struct PublishFrostBus {
    /// Queue name.
    pub queue_name: String,
    /// Job type to publish as, unless the FlowFile names one.
    pub job_type: String,
}

impl Default for PublishFrostBus {
    fn default() -> (r: Self)
        ensures
            r.queue_name@ == "frost:jobs"@,
            r.job_type@ == "generic"@,
    {
        PublishFrostBus { queue_name: "frost:jobs".to_owned(), job_type: "generic".to_owned() }
    }
}

impl PublishFrostBus {
    pub fn get_type(&self) -> (r: &'static str)
        ensures
            r@ == "org.apache.nifi.frost.PublishFrostBus"@,
    {
        "org.apache.nifi.frost.PublishFrostBus"
    }

    pub fn get_description(&self) -> (r: &'static str)
        ensures
            r@ == "Publishes FlowFiles as jobs to frost-bus (Valkey/Redis)"@,
    {
        "Publishes FlowFiles as jobs to frost-bus (Valkey/Redis)"
    }

    pub fn get_property_descriptors(&self) -> (r: Vec<PropertyDescriptor>)
        ensures
            r@.len() == 3,
            descriptor_is(r@[0], "redis.url"@, "Redis URL"@,
                "Redis/Valkey connection URL (e.g., redis://localhost:6379)"@, true, false),
            r@[0].default_value is None,
            descriptor_is(r@[1], "queue.name"@, "Queue Name"@,
                "Name of the frost-bus queue to publish to"@, true, false),
            text_value(r@[1].default_value, "frost:jobs"@),
            descriptor_is(r@[2], "job.type"@, "Job Type"@,
                "Job type to publish as (or use attribute frost.job.type)"@, false, false),
            text_value(r@[2].default_value, "generic"@),
            forall|i: int| 0 <= i < 3 ==> (#[trigger] r@[i]).allowable_values is None,
    {
        vec![
            PropertyDescriptor::new("redis.url")
                .display_name("Redis URL")
                .description("Redis/Valkey connection URL (e.g., redis://localhost:6379)")
                .required(true)
                .build(),
            PropertyDescriptor::new("queue.name")
                .display_name("Queue Name")
                .description("Name of the frost-bus queue to publish to")
                .required(true)
                .default_value(text("frost:jobs"))
                .build(),
            PropertyDescriptor::new("job.type")
                .display_name("Job Type")
                .description("Job type to publish as (or use attribute frost.job.type)")
                .required(false)
                .default_value(text("generic"))
                .build(),
        ]
    }

    pub fn get_relationships(&self) -> (r: Vec<Relationship>)
        ensures
            r@.len() == 2,
            relationship_is(r@[0], "success"@, "FlowFiles that were processed successfully"@),
            relationship_is(r@[1], "failure"@, "FlowFiles that failed processing"@),
    {
        vec![Relationship::success(), Relationship::failure()]
    }

    /// The Redis URL, which must be configured.
    pub fn redis_url(&self, ctx: &ProcessContext) -> (r: Result<String, ProcessorError>)
        ensures
            match lookup_text(ctx.props(), "redis.url"@) {
                Some(t) => r matches Ok(s) && s@ == t,
                None => r matches Err(ProcessorError::InvalidConfig(m)) && m@
                    == "redis.url is required"@,
            },
    {
        require_property(ctx, "redis.url", "redis.url is required")
    }

    /// Takes the queue name and job type from the configured properties;
    /// what is not configured keeps its value.
    pub fn apply_properties(&mut self, ctx: &ProcessContext)
        ensures
            match lookup_text(ctx.props(), "queue.name"@) {
                Some(t) => final(self).queue_name@ == t,
                None => final(self).queue_name == old(self).queue_name,
            },
            match lookup_text(ctx.props(), "job.type"@) {
                Some(t) => final(self).job_type@ == t,
                None => final(self).job_type == old(self).job_type,
            },
    {
        if let Some(queue) = ctx.get_property_string("queue.name") {
            self.queue_name = queue.to_owned();
        }
        if let Some(job_type) = ctx.get_property_string("job.type") {
            self.job_type = job_type.to_owned();
        }
    }

    /// The job type for `flowfile`: its `frost.job.type` attribute, or the
    /// configured job type.
    pub fn job_type_for(&self, flowfile: &FlowFile) -> (r: String)
        ensures
            r@ == (match flowfile.attr("frost.job.type"@) {
                Some(t) => t,
                None => self.job_type@,
            }),
    {
        match flowfile.get_attribute(FROST_JOB_TYPE) {
            Some(t) => t.to_owned(),
            None => self.job_type.clone(),
        }
    }

    /// The JSON payload published for `flowfile`.
    pub fn payload(&self, flowfile: &FlowFile) -> (r: Vec<u8>)
        ensures
            r@ == payload_for(flowfile.content_bytes()),
    {
        match flowfile.content() {
            None => vec![123u8, 125u8],
            Some(b) => {
                let c = bytes_to_vec(b);
                match json_normalize(c.as_slice()) {
                    Some(v) => v,
                    None => {
                        let t = utf8_lossy(c.as_slice());
                        json_object_of("raw", t.as_str())
                    },
                }
            },
        }
    }

    /// The job published for `flowfile`: a new job of its job type with its
    /// payload, and the workspace and project ids its attributes hold.
    pub fn prepare_job(&self, flowfile: &FlowFile) -> (r: FrostJob)
        ensures
            r.job_type@ == (match flowfile.attr("frost.job.type"@) {
                Some(t) => t,
                None => self.job_type@,
            }),
            r.payload@ == payload_for(flowfile.content_bytes()),
            r.workspace_id == uuid_attr(flowfile.attr("frost.workspace.id"@)),
            r.project_id == uuid_attr(flowfile.attr("frost.project.id"@)),
            r.session_id is None,
            r.user_sub is None,
            r.status@ == "queued"@,
    {
        let job_type = self.job_type_for(flowfile);
        let payload = self.payload(flowfile);
        let mut job = FrostJob::new(job_type.as_str(), payload);
        if let Some(ws) = flowfile.get_attribute(FROST_WORKSPACE_ID) {
            if let Some(id) = uuid_parse(ws) {
                job.workspace_id = Some(id);
            }
        }
        if let Some(proj) = flowfile.get_attribute(FROST_PROJECT_ID) {
            if let Some(id) = uuid_parse(proj) {
                job.project_id = Some(id);
            }
        }
        job
    }

    /// Routes `flowfile` once the publish of job `job_id` is done: to success
    /// with the job's id as its `frost.job.id` attribute when it was
    /// published, to failure unchanged otherwise.
    pub fn record_publish(
        &self,
        session: &mut ProcessSession,
        flowfile: FlowFile,
        job_id: u128,
        published: bool,
    )
        ensures
            appended_one(old(session).transfers(), final(session).transfers()),
            published ==> final(session).transfers().last().flowfile.attrs() == flowfile.attrs().insert(
                "frost.job.id"@,
                uuid_text(job_id),
            ),
            published ==> relationship_is(final(session).transfers().last().relationship,
                "success"@, "FlowFiles that were processed successfully"@),
            !published ==> final(session).transfers().last().flowfile == flowfile,
            !published ==> relationship_is(final(session).transfers().last().relationship,
                "failure"@, "FlowFiles that failed processing"@),
            final(session).transfers().last().flowfile.content_bytes() == flowfile.content_bytes(),
            final(session).transfers().last().flowfile.id == flowfile.id,
            final(session).inputs() == old(session).inputs(),
            final(session).removals() == old(session).removals(),
    {
        let ghost t0 = session.transfers();
        let mut flowfile = flowfile;
        if published {
            let id = uuid_to_string(job_id);
            flowfile.put_attribute(FROST_JOB_ID, id.as_str());
            session.transfer(flowfile, Relationship::success());
        } else {
            session.transfer(flowfile, Relationship::failure());
        }
        assert(session.transfers().drop_last() =~= t0);
    }
}

} // verus!
