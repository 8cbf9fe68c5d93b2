//! SelfDeployGate: a safety gate for self-deployments (NiFi deploying
//! updates to itself). A deployment of the gated target goes through only
//! after the frost-bus queues have stayed empty for a quiesce period.
use super::{
    appended_one, descriptor_is, error_noted, relationship_is, require_property, text, text_value,
};
use crate::context::{lookup_text, ProcessContext, ProcessSession};
use crate::flowfile::FlowFile;
use crate::processor::{error_view, other_error, ProcessorError, PropertyDescriptor, Relationship};
use crate::text::{concat, decimal, parse_u64, parse_u64_spec, str_eq, u128_to_string};
use vstd::prelude::*;

verus! {

/// The sum of a list of counts.
pub open spec fn total(counts: Seq<i64>) -> int
    decreases counts.len(),
{
    if counts.len() == 0 {
        0
    } else {
        total(counts.drop_last()) + counts.last()
    }
}

/// The total of no counts is 0; appending a count adds it to the total; the
/// total of two lists joined is the sum of their totals.
pub proof fn law_total_sums(s: Seq<i64>, t: Seq<i64>, c: i64)
    ensures
        total(Seq::<i64>::empty()) == 0,
        total(s.push(c)) == total(s) + c,
        total(seq![c]) == c,
        total(s + t) == total(s) + total(t),
    decreases t.len(),
{
    assert(s.push(c).drop_last() =~= s);
    assert(seq![c].drop_last() =~= Seq::<i64>::empty());
    if t.len() == 0 {
        assert(s + t =~= s);
    } else {
        law_total_sums(s, t.drop_last(), c);
        assert((s + t).drop_last() =~= s + t.drop_last());
    }
}

/// Counts that none is negative total 0 exactly when every count is 0.
pub proof fn law_total_zero_iff_all_zero(counts: Seq<i64>)
    requires
        forall|i: int| 0 <= i < counts.len() ==> counts[i] >= 0,
    ensures
        total(counts) >= 0,
        total(counts) == 0 <==> forall|i: int| 0 <= i < counts.len() ==> counts[i] == 0,
    decreases counts.len(),
{
    if counts.len() > 0 {
        let pre = counts.drop_last();
        assert forall|i: int| 0 <= i < pre.len() implies pre[i] >= 0 by {
            assert(pre[i] == counts[i]);
        }
        law_total_zero_iff_all_zero(pre);
        if total(counts) == 0 {
            assert forall|i: int| 0 <= i < counts.len() implies counts[i] == 0 by {
                if i < counts.len() - 1 {
                    assert(pre[i] == counts[i]);
                }
            }
        }
        if forall|i: int| 0 <= i < counts.len() ==> counts[i] == 0 {
            assert forall|i: int| 0 <= i < pre.len() implies pre[i] == 0 by {
                assert(pre[i] == counts[i]);
            }
        }
    }
}

/// Every running total of `counts` fits in an `i64`.
pub open spec fn totals_fit(counts: Seq<i64>) -> bool {
    forall|k: int| 0 <= k <= counts.len() ==> i64::MIN <= #[trigger] total(counts.take(k)) <= i64::MAX
}

/// What happens to the quiesce timer after a gate decision.
pub enum TimerUpdate {
    /// Leave it as it is.
    Keep,
    /// Forget when the queues were last seen empty.
    Clear,
    /// Record that the queues were seen empty now.
    Start,
}

/// Processor that gates self-deployments by checking frost-bus queue status.
pub struct SelfDeployGate {
    /// Deployment name to gate (e.g. "nifi-rs").
    pub gate_deployment: String,
    /// Seconds the queues must stay empty before a deploy may go through.
    pub quiesce_seconds: u64,
}

impl Default for SelfDeployGate {
    fn default() -> (r: Self)
        ensures
            r.gate_deployment@ == "nifi-rs"@,
            r.quiesce_seconds == 30,
    {
        SelfDeployGate { gate_deployment: "nifi-rs".to_owned(), quiesce_seconds: 30 }
    }
}

impl SelfDeployGate {
    pub fn get_type(&self) -> (r: &'static str)
        ensures
            r@ == "org.apache.nifi.frost.SelfDeployGate"@,
    {
        "org.apache.nifi.frost.SelfDeployGate"
    }

    pub fn get_description(&self) -> (r: &'static str)
        ensures
            r@
                == "Safety gate for self-deployments - ensures frost-bus queues are empty before deploying updates to NiFi itself"@,
    {
        "Safety gate for self-deployments - ensures frost-bus queues are empty before deploying updates to NiFi itself"
    }

    pub fn get_property_descriptors(&self) -> (r: Vec<PropertyDescriptor>)
        ensures
            r@.len() == 3,
            descriptor_is(r@[0], "frost.bus.url"@, "frost-bus URL"@,
                "Redis/Valkey URL for frost-bus queue checks"@, true, true),
            r@[0].default_value is None,
            descriptor_is(r@[1], "gate.deployment"@, "Gate Deployment"@,
                "Deployment name to apply safety gate (e.g., 'nifi-rs')"@, true, false),
            text_value(r@[1].default_value, "nifi-rs"@),
            descriptor_is(r@[2], "quiesce.seconds"@, "Quiesce Period"@,
                "Seconds to wait with empty queues before allowing deploy"@, false, false),
            text_value(r@[2].default_value, "30"@),
            forall|i: int| 0 <= i < 3 ==> (#[trigger] r@[i]).allowable_values is None,
    {
        vec![
            PropertyDescriptor::new("frost.bus.url")
                .display_name("frost-bus URL")
                .description("Redis/Valkey URL for frost-bus queue checks")
                .required(true)
                .sensitive(true)
                .build(),
            PropertyDescriptor::new("gate.deployment")
                .display_name("Gate Deployment")
                .description("Deployment name to apply safety gate (e.g., 'nifi-rs')")
                .required(true)
                .default_value(text("nifi-rs"))
                .build(),
            PropertyDescriptor::new("quiesce.seconds")
                .display_name("Quiesce Period")
                .description("Seconds to wait with empty queues before allowing deploy")
                .required(false)
                .default_value(text("30"))
                .build(),
        ]
    }

    /// The relationship for FlowFiles to retry later.
    pub fn wait() -> (r: Relationship)
        ensures
            relationship_is(r, "wait"@,
                "FlowFiles sent here when queues are not empty - should be retried later"@),
    {
        Relationship::new(
            "wait",
            "FlowFiles sent here when queues are not empty - should be retried later",
        )
    }

    pub fn get_relationships(&self) -> (r: Vec<Relationship>)
        ensures
            r@.len() == 3,
            relationship_is(r@[0], "success"@, "FlowFiles that were processed successfully"@),
            relationship_is(r@[1], "wait"@,
                "FlowFiles sent here when queues are not empty - should be retried later"@),
            relationship_is(r@[2], "failure"@, "FlowFiles that failed processing"@),
    {
        vec![Relationship::success(), Self::wait(), Relationship::failure()]
    }

    /// The frost-bus URL, which must be configured.
    pub fn bus_url(&self, ctx: &ProcessContext) -> (r: Result<String, ProcessorError>)
        ensures
            match lookup_text(ctx.props(), "frost.bus.url"@) {
                Some(t) => r matches Ok(s) && s@ == t,
                None => r matches Err(ProcessorError::InvalidConfig(m)) && m@
                    == "frost.bus.url is required"@,
            },
    {
        require_property(ctx, "frost.bus.url", "frost.bus.url is required")
    }

    /// Takes the gated deployment and the quiesce period from the configured
    /// properties; a quiesce period that is not a number counts as 30.
    pub fn apply_properties(&mut self, ctx: &ProcessContext)
        ensures
            match lookup_text(ctx.props(), "gate.deployment"@) {
                Some(t) => final(self).gate_deployment@ == t,
                None => final(self).gate_deployment == old(self).gate_deployment,
            },
            match lookup_text(ctx.props(), "quiesce.seconds"@) {
                Some(t) => final(self).quiesce_seconds == (match parse_u64_spec(t) {
                    Some(n) => n,
                    None => 30,
                }),
                None => final(self).quiesce_seconds == old(self).quiesce_seconds,
            },
    {
        if let Some(deployment) = ctx.get_property_string("gate.deployment") {
            self.gate_deployment = deployment.to_owned();
        }
        if let Some(seconds) = ctx.get_property_string("quiesce.seconds") {
            self.quiesce_seconds = match parse_u64(seconds) {
                Some(n) => n,
                None => 30,
            };
        }
    }

    /// Whether `flowfile` deploys the gated deployment (its
    /// `frost.deploy.target` attribute names it).
    pub fn is_self_deploy(&self, flowfile: &FlowFile) -> (r: bool)
        ensures
            r == (flowfile.attr("frost.deploy.target"@) == Some(self.gate_deployment@)),
    {
        match flowfile.get_attribute("frost.deploy.target") {
            Some(t) => str_eq(t, self.gate_deployment.as_str()),
            None => false,
        }
    }

    /// Lets a FlowFile that does not deploy the gated target through.
    pub fn pass_through(&self, session: &mut ProcessSession, flowfile: FlowFile)
        ensures
            appended_one(old(session).transfers(), final(session).transfers()),
            final(session).transfers().last().flowfile == flowfile,
            relationship_is(final(session).transfers().last().relationship, "success"@,
                "FlowFiles that were processed successfully"@),
            final(session).inputs() == old(session).inputs(),
            final(session).removals() == old(session).removals(),
    {
        let ghost t0 = session.transfers();
        session.transfer(flowfile, Relationship::success());
        assert(session.transfers().drop_last() =~= t0);
    }

    /// Whether the frost-bus queues are empty: nothing processing, nothing
    /// pending, nothing in any job type's pending queue.
    pub fn queues_are_empty(&self, processing: i64, pending: i64, key_counts: &[i64]) -> (r: bool)
        requires
            totals_fit(key_counts@),
        ensures
            r == (processing == 0 && pending == 0 && total(key_counts@) == 0),
            (forall|i: int| 0 <= i < key_counts@.len() ==> key_counts@[i] >= 0) ==> (r == (
            processing == 0 && pending == 0 && forall|i: int|
                0 <= i < key_counts@.len() ==> key_counts@[i] == 0)),
    {
        proof {
            if forall|i: int| 0 <= i < key_counts@.len() ==> key_counts@[i] >= 0 {
                law_total_zero_iff_all_zero(key_counts@);
            }
        }
        let mut total_pending: i64 = 0;
        let mut i: usize = 0;
        assert(key_counts@.take(0) =~= Seq::<i64>::empty());
        while i < key_counts.len()
            invariant
                i <= key_counts@.len(),
                totals_fit(key_counts@),
                total_pending == total(key_counts@.take(i as int)),
            decreases key_counts.len() - i,
        {
            assert(key_counts@.take(i + 1).drop_last() =~= key_counts@.take(i as int));
            assert(i64::MIN <= total(key_counts@.take(i + 1)) <= i64::MAX);
            total_pending = total_pending + key_counts[i];
            i += 1;
        }
        assert(key_counts@.take(key_counts@.len() as int) =~= key_counts@);
        processing == 0 && pending == 0 && total_pending == 0
    }

    /// The error for a failed connection to frost-bus.
    pub fn connection_failure(&self, message: &str) -> (r: ProcessorError)
        ensures
            error_view(r) == other_error("Redis connection failed: "@ + message@),
    {
        ProcessorError::Other(concat("Redis connection failed: ", message))
    }

    /// Decides a FlowFile that deploys the gated target, given what the queue
    /// check gave and how many seconds ago the queues were last seen empty
    /// (`None` when no quiesce period is running).
    ///
    /// It goes to success only when the queues are empty and the quiesce
    /// period has run out; it waits while the period runs (starting it when
    /// none runs) or while the queues are busy; it fails when the check
    /// failed.
    pub fn gate(
        &self,
        session: &mut ProcessSession,
        flowfile: FlowFile,
        queues_empty: Result<bool, ProcessorError>,
        elapsed: Option<u64>,
    ) -> (r: TimerUpdate)
        ensures
            appended_one(old(session).transfers(), final(session).transfers()),
            final(session).transfers().last().flowfile.id == flowfile.id,
            final(session).transfers().last().flowfile.content_bytes() == flowfile.content_bytes(),
            final(session).inputs() == old(session).inputs(),
            final(session).removals() == old(session).removals(),
            final(session).transfers().last().relationship.name@ == "success"@ ==> (queues_empty
                matches Ok(true) && elapsed matches Some(e) && e >= self.quiesce_seconds),
            ({
                let t = final(session).transfers().last();
                match queues_empty {
                    Ok(true) => match elapsed {
                        Some(e) => if e >= self.quiesce_seconds {
                            &&& r is Clear
                            &&& t.flowfile.attrs() == flowfile.attrs()
                            &&& relationship_is(t.relationship, "success"@,
                                "FlowFiles that were processed successfully"@)
                        } else {
                            &&& r is Keep
                            &&& t.flowfile.attrs() == flowfile.attrs().insert(
                                "frost.gate.reason"@,
                                "quiesce_period"@,
                            ).insert(
                                "frost.gate.remaining_seconds"@,
                                decimal((self.quiesce_seconds - e) as nat),
                            )
                            &&& relationship_is(t.relationship, "wait"@,
                                "FlowFiles sent here when queues are not empty - should be retried later"@)
                        },
                        None => {
                            &&& r is Start
                            &&& t.flowfile.attrs() == flowfile.attrs().insert(
                                "frost.gate.reason"@,
                                "starting_quiesce"@,
                            )
                            &&& relationship_is(t.relationship, "wait"@,
                                "FlowFiles sent here when queues are not empty - should be retried later"@)
                        },
                    },
                    Ok(false) => {
                        &&& r is Clear
                        &&& t.flowfile.attrs() == flowfile.attrs().insert(
                            "frost.gate.reason"@,
                            "queues_not_empty"@,
                        )
                        &&& relationship_is(t.relationship, "wait"@,
                            "FlowFiles sent here when queues are not empty - should be retried later"@)
                    },
                    Err(e) => {
                        &&& r is Keep
                        &&& error_noted(flowfile.attrs(), t.flowfile.attrs(), "frost.gate.error"@, e)
                        &&& relationship_is(t.relationship, "failure"@,
                            "FlowFiles that failed processing"@)
                    },
                }
            }),
    {
        let ghost t0 = session.transfers();
        proof {
            reveal_strlit("success");
            reveal_strlit("wait");
            reveal_strlit("failure");
            assert("wait"@.len() != "success"@.len());
            assert("failure"@[0] != "success"@[0]);
        }
        let mut flowfile = flowfile;
        let r = match queues_empty {
            Ok(true) => match elapsed {
                Some(e) => if e >= self.quiesce_seconds {
                    session.transfer(flowfile, Relationship::success());
                    TimerUpdate::Clear
                } else {
                    let remaining = self.quiesce_seconds - e;
                    flowfile.put_attribute("frost.gate.reason", "quiesce_period");
                    let text = u128_to_string(remaining as u128);
                    flowfile.put_attribute("frost.gate.remaining_seconds", text.as_str());
                    session.transfer(flowfile, Self::wait());
                    TimerUpdate::Keep
                },
                None => {
                    flowfile.put_attribute("frost.gate.reason", "starting_quiesce");
                    session.transfer(flowfile, Self::wait());
                    TimerUpdate::Start
                },
            },
            Ok(false) => {
                flowfile.put_attribute("frost.gate.reason", "queues_not_empty");
                session.transfer(flowfile, Self::wait());
                TimerUpdate::Clear
            },
            Err(e) => {
                let m = e.message();
                flowfile.put_attribute("frost.gate.error", m.as_str());
                session.transfer(flowfile, Relationship::failure());
                TimerUpdate::Keep
            },
        };
        assert(session.transfers().drop_last() =~= t0);
        r
    }
}

} // verus!
