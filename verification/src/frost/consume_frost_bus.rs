//! ConsumeFrostBus: consumes jobs from frost-bus (Valkey/Redis) and turns
//! each into a FlowFile.
use super::attributes::{FROST_JOB_ID, FROST_JOB_TYPE, FROST_PROJECT_ID, FROST_WORKSPACE_ID};
use super::{appended_one, descriptor_is, relationship_is, require_property, text, text_value, FrostJob};
use crate::context::{lookup_int, lookup_text, ProcessContext, ProcessSession};
use crate::ext::{bytes_from_vec, uuid_text, uuid_to_string};
use crate::processor::{ProcessorError, PropertyDescriptor, PropertyValue, Relationship};
use crate::text::{
    chars_of, concat, lemma_split_concat, lemma_split_single, split_chars, split_on, string_from_chars,
    trim, trim_str,
};
use vstd::prelude::*;

verus! {

broadcast use vstd::seq_lib::group_seq_properties;

/// The job types a comma-separated list names: its pieces, trimmed, empty
/// ones left out.
pub open spec fn job_type_list(s: Seq<char>) -> Seq<Seq<char>> {
    split_on(s, ',').map_values(|p: Seq<char>| trim(p)).filter(|p: Seq<char>| p.len() > 0)
}

/// Parses a comma-separated list of job types.
pub fn parse_job_types(types: &str) -> (r: Vec<String>)
    ensures
        r@.map_values(|s: String| s@) == job_type_list(types@),
{
    let cs = chars_of(types);
    let pieces = split_chars(cs.as_slice(), ',');
    let ghost spec_pieces = split_on(types@, ',');
    let ghost keep = |p: Seq<char>| p.len() > 0;
    let ghost trimmed = spec_pieces.map_values(|p: Seq<char>| trim(p));
    let mut out: Vec<String> = Vec::new();
    let mut i: usize = 0;
    assert(trimmed.take(0).filter(keep) =~= Seq::<Seq<char>>::empty());
    while i < pieces.len()
        invariant
            i <= pieces@.len(),
            pieces@.len() == spec_pieces.len(),
            forall|j: int| 0 <= j < pieces@.len() ==> #[trigger] pieces@[j]@ == spec_pieces[j],
            trimmed == spec_pieces.map_values(|p: Seq<char>| trim(p)),
            keep == (|p: Seq<char>| p.len() > 0),
            out@.map_values(|s: String| s@) == trimmed.take(i as int).filter(keep),
        decreases pieces.len() - i,
    {
        let t = trim_str_of(pieces[i].as_slice());
        let ghost before = out@.map_values(|s: String| s@);
        proof {
            assert(trimmed.take(i + 1) =~= trimmed.take(i as int).push(trimmed[i as int]));
            trimmed.take(i as int).lemma_filter_push(trimmed[i as int], keep);
            assert(trimmed[i as int] == trim(spec_pieces[i as int]));
        }
        if t.unicode_len() > 0 {
            out.push(t);
            assert(out@.map_values(|s: String| s@) =~= before.push(trimmed[i as int]));
        }
        i += 1;
    }
    assert(trimmed.take(pieces@.len() as int) =~= trimmed);
    out
}

fn trim_str_of(cs: &[char]) -> (r: String)
    ensures
        r@ == trim(cs@),
{
    let s = string_from_chars(cs);
    trim_str(s.as_str())
}

/// The attributes a consumed job's FlowFile carries: the job's id and type,
/// and its workspace and project ids when it has them.
pub open spec fn job_attributes(job: FrostJob) -> Map<Seq<char>, Seq<char>> {
    let base = Map::<Seq<char>, Seq<char>>::empty().insert("frost.job.id"@, uuid_text(job.id)).insert(
        "frost.job.type"@,
        job.job_type@,
    );
    let with_ws = match job.workspace_id {
        Some(w) => base.insert("frost.workspace.id"@, uuid_text(w)),
        None => base,
    };
    match job.project_id {
        Some(p) => with_ws.insert("frost.project.id"@, uuid_text(p)),
        None => with_ws,
    }
}

/// Processor that consumes jobs from frost-bus.
pub struct ConsumeFrostBus {
    /// Queue name.
    pub queue_name: String,
    /// Job types to keep (empty: all).
    pub job_types: Vec<String>,
    /// Maximum number of jobs per trigger.
    pub batch_size: usize,
    /// How long to wait for a job, in milliseconds.
    pub block_timeout_ms: u64,
}

impl Default for ConsumeFrostBus {
    fn default() -> (r: Self)
        ensures
            r.queue_name@ == "frost:jobs"@,
            r.job_types@.len() == 0,
            r.batch_size == 10,
            r.block_timeout_ms == 1000,
    {
        ConsumeFrostBus {
            queue_name: "frost:jobs".to_owned(),
            job_types: Vec::new(),
            batch_size: 10,
            block_timeout_ms: 1000,
        }
    }
}

impl ConsumeFrostBus {
    pub fn get_type(&self) -> (r: &'static str)
        ensures
            r@ == "org.apache.nifi.frost.ConsumeFrostBus"@,
    {
        "org.apache.nifi.frost.ConsumeFrostBus"
    }

    pub fn get_description(&self) -> (r: &'static str)
        ensures
            r@ == "Consumes jobs from frost-bus (Valkey/Redis) and creates FlowFiles for each job"@,
    {
        "Consumes jobs from frost-bus (Valkey/Redis) and creates FlowFiles for each job"
    }

    pub fn get_property_descriptors(&self) -> (r: Vec<PropertyDescriptor>)
        ensures
            r@.len() == 5,
            descriptor_is(r@[0], "redis.url"@, "Redis URL"@,
                "Redis/Valkey connection URL (e.g., redis://localhost:6379)"@, true, false),
            r@[0].default_value is None,
            descriptor_is(r@[1], "queue.name"@, "Queue Name"@,
                "Name of the frost-bus queue to consume from"@, true, false),
            text_value(r@[1].default_value, "frost:jobs"@),
            descriptor_is(r@[2], "job.types"@, "Job Types"@,
                "Comma-separated list of job types to consume (empty = all)"@, false, false),
            r@[2].default_value is None,
            descriptor_is(r@[3], "batch.size"@, "Batch Size"@,
                "Maximum number of jobs to consume per trigger"@, false, false),
            r@[3].default_value == Some(PropertyValue::Integer(10)),
            descriptor_is(r@[4], "block.timeout.ms"@, "Block Timeout (ms)"@,
                "How long to wait for new jobs (milliseconds)"@, false, false),
            r@[4].default_value == Some(PropertyValue::Integer(1000)),
            forall|i: int| 0 <= i < 5 ==> (#[trigger] r@[i]).allowable_values is None,
    {
        vec![
            PropertyDescriptor::new("redis.url")
                .display_name("Redis URL")
                .description("Redis/Valkey connection URL (e.g., redis://localhost:6379)")
                .required(true)
                .build(),
            PropertyDescriptor::new("queue.name")
                .display_name("Queue Name")
                .description("Name of the frost-bus queue to consume from")
                .required(true)
                .default_value(text("frost:jobs"))
                .build(),
            PropertyDescriptor::new("job.types")
                .display_name("Job Types")
                .description("Comma-separated list of job types to consume (empty = all)")
                .required(false)
                .build(),
            PropertyDescriptor::new("batch.size")
                .display_name("Batch Size")
                .description("Maximum number of jobs to consume per trigger")
                .required(false)
                .default_value(PropertyValue::Integer(10))
                .build(),
            PropertyDescriptor::new("block.timeout.ms")
                .display_name("Block Timeout (ms)")
                .description("How long to wait for new jobs (milliseconds)")
                .required(false)
                .default_value(PropertyValue::Integer(1000))
                .build(),
        ]
    }

    pub fn get_relationships(&self) -> (r: Vec<Relationship>)
        ensures
            r@.len() == 1,
            relationship_is(r@[0], "success"@, "FlowFiles that were processed successfully"@),
    {
        vec![Relationship::success()]
    }

    /// The Redis URL, which must be configured.
    pub fn redis_url(&self, ctx: &ProcessContext) -> (r: Result<String, ProcessorError>)
        ensures
            match lookup_text(ctx.props(), "redis.url"@) {
                Some(t) => r matches Ok(s) && s@ == t,
                None => r matches Err(ProcessorError::InvalidConfig(m)) && m@
                    == "redis.url is required"@,
            },
    {
        require_property(ctx, "redis.url", "redis.url is required")
    }

    /// Takes the queue name, job types, batch size and block timeout from the
    /// configured properties; what is not configured keeps its value.
    pub fn apply_properties(&mut self, ctx: &ProcessContext)
        ensures
            match lookup_text(ctx.props(), "queue.name"@) {
                Some(t) => final(self).queue_name@ == t,
                None => final(self).queue_name == old(self).queue_name,
            },
            match lookup_text(ctx.props(), "job.types"@) {
                Some(t) => final(self).job_types@.map_values(|s: String| s@) == job_type_list(t),
                None => final(self).job_types == old(self).job_types,
            },
            match lookup_int(ctx.props(), "batch.size"@) {
                Some(b) => final(self).batch_size == b as usize,
                None => final(self).batch_size == old(self).batch_size,
            },
            match lookup_int(ctx.props(), "block.timeout.ms"@) {
                Some(t) => final(self).block_timeout_ms == t as u64,
                None => final(self).block_timeout_ms == old(self).block_timeout_ms,
            },
    {
        if let Some(queue) = ctx.get_property_string("queue.name") {
            self.queue_name = queue.to_owned();
        }
        if let Some(types) = ctx.get_property_string("job.types") {
            self.job_types = parse_job_types(types);
        }
        if let Some(batch) = ctx.get_property_int("batch.size") {
            self.batch_size = batch as usize;
        }
        if let Some(timeout) = ctx.get_property_int("block.timeout.ms") {
            self.block_timeout_ms = timeout as u64;
        }
    }

    /// Whether jobs of type `job_type` are consumed: all are when no job
    /// types are configured.
    pub fn accepts(&self, job_type: &str) -> (r: bool)
        ensures
            r == (self.job_types@.len() == 0 || exists|i: int|
                0 <= i < self.job_types@.len() && #[trigger] self.job_types@[i]@ == job_type@),
    {
        if self.job_types.len() == 0 {
            return true;
        }
        let target = job_type.to_owned();
        let mut i: usize = 0;
        while i < self.job_types.len()
            invariant
                i <= self.job_types@.len(),
                target@ == job_type@,
                forall|j: int| 0 <= j < i ==> #[trigger] self.job_types@[j]@ != job_type@,
            decreases self.job_types.len() - i,
        {
            if self.job_types[i] == target {
                return true;
            }
            i += 1;
        }
        false
    }

    /// What to do with the result of one pop from the queue: stop when the
    /// queue gave nothing, put a job back when its type is not consumed,
    /// emit it otherwise.
    pub fn decide(&self, popped: Option<&FrostJob>) -> (r: ConsumeAction)
        ensures
            match popped {
                None => r is Stop,
                Some(job) => if self.job_types@.len() == 0 || exists|i: int|
                    0 <= i < self.job_types@.len() && #[trigger] self.job_types@[i]@ == job.job_type@ {
                    r is Emit
                } else {
                    r is Requeue
                },
            },
    {
        match popped {
            None => ConsumeAction::Stop,
            Some(job) => if self.accepts(job.job_type.as_str()) {
                ConsumeAction::Emit
            } else {
                ConsumeAction::Requeue
            },
        }
    }

    /// Creates a FlowFile for `job`, with the job's attributes and its
    /// payload as content, and transfers it to success.
    pub fn emit_job(&self, session: &mut ProcessSession, job: &FrostJob)
        requires
            old(session).pending() < usize::MAX,
        ensures
            appended_one(old(session).transfers(), final(session).transfers()),
            final(session).transfers().last().flowfile.attrs() == job_attributes(*job),
            final(session).transfers().last().flowfile.content_bytes() == Some(job.payload@),
            final(session).transfers().last().flowfile.size == job.payload@.len(),
            relationship_is(final(session).transfers().last().relationship, "success"@,
                "FlowFiles that were processed successfully"@),
            final(session).inputs() == old(session).inputs(),
            final(session).removals() == old(session).removals(),
            final(session).pending() == old(session).pending(),
    {
        let ghost t0 = session.transfers();
        let mut flowfile = session.create();
        let job_id = uuid_to_string(job.id);
        flowfile.put_attribute(FROST_JOB_ID, job_id.as_str());
        flowfile.put_attribute(FROST_JOB_TYPE, job.job_type.as_str());
        if let Some(ws_id) = job.workspace_id {
            let ws = uuid_to_string(ws_id);
            flowfile.put_attribute(FROST_WORKSPACE_ID, ws.as_str());
        }
        if let Some(proj_id) = job.project_id {
            let p = uuid_to_string(proj_id);
            flowfile.put_attribute(FROST_PROJECT_ID, p.as_str());
        }
        let content = bytes_from_vec(job.payload.clone());
        session.write_content(&mut flowfile, content);
        assert(flowfile.attrs() =~= job_attributes(*job));
        session.transfer(flowfile, Relationship::success());
        assert(session.transfers().drop_last() =~= t0);
    }

    /// The error for a queue entry that is not a job.
    pub fn job_parse_error(&self, message: &str) -> (r: ProcessorError)
        ensures
            r matches ProcessorError::Serialization(m) && m@ == "Failed to parse job: "@ + message@,
    {
        ProcessorError::Serialization(concat("Failed to parse job: ", message))
    }
}

/// What ConsumeFrostBus does with one pop from the queue.
pub enum ConsumeAction {
    /// Nothing came: stop this trigger.
    Stop,
    /// The job's type is not consumed: push it back onto the queue.
    Requeue,
    /// Turn the job into a FlowFile.
    Emit,
}

/// The job types of two lists joined by a comma are those of the first list
/// followed by those of the second: every name of each is kept, in order.
pub proof fn law_job_types_join(a: Seq<char>, b: Seq<char>)
    ensures
        job_type_list(a + seq![','] + b) == job_type_list(a) + job_type_list(b),
{
    lemma_split_concat(a, b, ',');
    let f = |p: Seq<char>| trim(p);
    let keep = |p: Seq<char>| p.len() > 0;
    let pa = split_on(a, ',');
    let pb = split_on(b, ',');
    assert((pa + pb).map_values(f) =~= pa.map_values(f) + pb.map_values(f));
    Seq::filter_distributes_over_add(pa.map_values(f), pb.map_values(f), keep);
}

/// A list without a comma names one job type, itself trimmed, unless that
/// is empty.
pub proof fn law_job_types_single(s: Seq<char>)
    requires
        !s.contains(','),
    ensures
        job_type_list(s) == (if trim(s).len() > 0 {
            seq![trim(s)]
        } else {
            Seq::<Seq<char>>::empty()
        }),
{
    broadcast use vstd::seq_lib::group_filter_ensures;

    lemma_split_single(s, ',');
    let f = |p: Seq<char>| trim(p);
    let keep = |p: Seq<char>| p.len() > 0;
    assert(seq![s].map_values(f) =~= seq![trim(s)]);
    reveal_with_fuel(Seq::filter, 2);
    assert(seq![trim(s)].drop_last() =~= Seq::<Seq<char>>::empty());
    if trim(s).len() > 0 {
        assert(seq![trim(s)].filter(keep) =~= seq![trim(s)]);
    } else {
        assert(seq![trim(s)].filter(keep) =~= Seq::<Seq<char>>::empty());
    }
}

/// A consumed job's FlowFile carries exactly these attributes: the job's id
/// and type; its workspace id, as UUID text, exactly when it has one; and
/// its project id, as UUID text, exactly when it has one.
pub proof fn law_job_attributes(job: FrostJob)
    ensures
        job_attributes(job).contains_key("frost.job.id"@),
        job_attributes(job)["frost.job.id"@] == uuid_text(job.id),
        job_attributes(job).contains_key("frost.job.type"@),
        job_attributes(job)["frost.job.type"@] == job.job_type@,
        job_attributes(job).contains_key("frost.workspace.id"@) <==> job.workspace_id is Some,
        job.workspace_id matches Some(w) ==> job_attributes(job)["frost.workspace.id"@] == uuid_text(
            w,
        ),
        job_attributes(job).contains_key("frost.project.id"@) <==> job.project_id is Some,
        job.project_id matches Some(p) ==> job_attributes(job)["frost.project.id"@] == uuid_text(p),
        forall|k: Seq<char>|
            #[trigger] job_attributes(job).contains_key(k) ==> k == "frost.job.id"@ || k
                == "frost.job.type"@ || k == "frost.workspace.id"@ || k == "frost.project.id"@,
{
    reveal_strlit("frost.job.id");
    reveal_strlit("frost.job.type");
    reveal_strlit("frost.workspace.id");
    reveal_strlit("frost.project.id");
    assert("frost.job.id"@ != "frost.job.type"@) by {
        assert("frost.job.id"@.len() != "frost.job.type"@.len());
    }
    assert("frost.workspace.id"@ != "frost.project.id"@) by {
        assert("frost.workspace.id"@[6] != "frost.project.id"@[6]);
    }
    assert("frost.workspace.id"@ != "frost.job.id"@) by {
        assert("frost.workspace.id"@.len() != "frost.job.id"@.len());
    }
    assert("frost.workspace.id"@ != "frost.job.type"@) by {
        assert("frost.workspace.id"@.len() != "frost.job.type"@.len());
    }
    assert("frost.project.id"@ != "frost.job.id"@) by {
        assert("frost.project.id"@.len() != "frost.job.id"@.len());
    }
    assert("frost.project.id"@ != "frost.job.type"@) by {
        assert("frost.project.id"@[6] != "frost.job.type"@[6]);
    }
}

/// A job type list never holds an empty name.
pub proof fn law_job_types_trimmed_nonempty(s: Seq<char>)
    ensures
        forall|i: int| 0 <= i < job_type_list(s).len() ==> (#[trigger] job_type_list(s)[i]).len() > 0,
{
    broadcast use vstd::seq_lib::group_filter_ensures;

    let keep = |p: Seq<char>| p.len() > 0;
    let t = split_on(s, ',').map_values(|p: Seq<char>| trim(p));
    assert forall|i: int| 0 <= i < t.filter(keep).len() implies (#[trigger] t.filter(keep)[i]).len()
        > 0 by {
        assert(keep(t.filter(keep)[i]));
    }
}

} // verus!
