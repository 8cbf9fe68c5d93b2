//! The messages a processor runtime exchanges with the NiFi framework, as
//! plain values, and their conversion to and from the library's types.
use crate::context::{lookup, ProcessContext, ProcessSession, TransferTarget};
use crate::ext::{
    bytes_from_vec, bytes_seq, bytes_to_vec, duration_from_millis, duration_millis,
    duration_millis_spec, is_uuid_v4, uuid_parse, uuid_parse_spec, uuid_text, uuid_to_string,
};
use crate::flowfile::{text_map, FlowFile};
use crate::processor::{ProcessorError, PropertyDescriptor, PropertyValue, Relationship};
use crate::str_map::StrMap;
use crate::text::{decimal, i64_to_string, signed_decimal, u128_to_string};
use vstd::prelude::*;

verus! {

/// A property descriptor as the framework receives it.
pub struct PropertyDescriptorMessage {
    pub name: String,
    pub display_name: String,
    pub description: String,
    pub required: bool,
    pub default_value: String,
    pub sensitive: bool,
    pub expression_language_supported: bool,
    pub allowable_values: Vec<String>,
}

/// A relationship as the framework receives it.
pub struct RelationshipMessage {
    pub name: String,
    pub description: String,
    pub auto_terminate: bool,
}

/// A FlowFile as the framework sends and receives it; `id` is the UUID's
/// text and empty content stands for no content.
pub struct FlowFileMessage {
    pub id: String,
    pub attributes: StrMap<String>,
    pub content: Vec<u8>,
    pub size: u64,
    pub entry_date: i64,
    pub lineage_start_date: i64,
}

/// The value of a property the framework configures.
pub enum PropertyValueKind {
    StringValue(String),
    IntValue(i64),
    BoolValue(bool),
    DurationMillis(i64),
}

/// A configured property: its name and, when set, its value.
pub struct PropertyValueMessage {
    pub name: String,
    pub value: Option<PropertyValueKind>,
}

/// A FlowFile transferred to the relationship named `relationship`.
pub struct TransferTargetMessage {
    pub flowfile: Option<FlowFileMessage>,
    pub relationship: String,
}

/// The outcome of one trigger.
pub struct TriggerResponseMessage {
    pub success: bool,
    pub error_message: String,
    pub transferred: Vec<TransferTargetMessage>,
    pub removed_ids: Vec<String>,
}

/// The outcome of scheduling or stopping a processor.
pub struct LifecycleResponseMessage {
    pub success: bool,
    pub error_message: String,
}

/// A processor type: its name, description, properties and relationships.
pub struct ProcessorTypeInfoMessage {
    pub processor_type: String,
    pub description: String,
    pub properties: Vec<PropertyDescriptorMessage>,
    pub relationships: Vec<RelationshipMessage>,
}

/// The text a property's default value is sent as: a string as it is,
/// numbers in decimal (a duration in milliseconds), booleans as `true` or
/// `false`, and no default as the empty text.
pub open spec fn default_text(v: Option<PropertyValue>) -> Seq<char> {
    match v {
        None => Seq::empty(),
        Some(PropertyValue::String(s)) => s@,
        Some(PropertyValue::Integer(i)) => signed_decimal(i as int),
        Some(PropertyValue::Boolean(b)) => if b {
            "true"@
        } else {
            "false"@
        },
        Some(PropertyValue::Duration(d)) => decimal(duration_millis_spec(d) as nat),
    }
}

/// `v` is the value a message's `k` stands for (a duration given in
/// milliseconds, read as an unsigned count).
pub open spec fn same_value(v: PropertyValue, k: PropertyValueKind) -> bool {
    match (v, k) {
        (PropertyValue::String(s), PropertyValueKind::StringValue(t)) => s@ == t@,
        (PropertyValue::Integer(i), PropertyValueKind::IntValue(j)) => i == j,
        (PropertyValue::Boolean(a), PropertyValueKind::BoolValue(b)) => a == b,
        (PropertyValue::Duration(d), PropertyValueKind::DurationMillis(m)) => duration_millis_spec(d)
            == m as u64,
        _ => false,
    }
}

/// The value the last message for `name` in `ps` sets, if one sets it.
pub open spec fn last_set(ps: Seq<PropertyValueMessage>, name: Seq<char>) -> Option<
    PropertyValueKind,
>
    decreases ps.len(),
{
    if ps.len() == 0 {
        None
    } else if ps.last().name@ == name && ps.last().value is Some {
        ps.last().value
    } else {
        last_set(ps.drop_last(), name)
    }
}

/// `m` is how the descriptor `prop` is sent to the framework: every field as
/// it is, the default value as its text, and no allowable values as an empty
/// list.
pub open spec fn property_sent_as(prop: PropertyDescriptor, m: PropertyDescriptorMessage) -> bool {
    &&& m.name@ == prop.name@
    &&& m.display_name@ == prop.display_name@
    &&& m.description@ == prop.description@
    &&& m.required == prop.required
    &&& m.default_value@ == default_text(prop.default_value)
    &&& m.sensitive == prop.sensitive
    &&& m.expression_language_supported == prop.expression_language_supported
    &&& m.allowable_values@.map_values(|s: String| s@) == (match prop.allowable_values {
        Some(v) => v@.map_values(|s: &'static str| s@),
        None => Seq::empty(),
    })
}

/// `m` is how the relationship `rel` is sent to the framework.
pub open spec fn relationship_sent_as(rel: Relationship, m: RelationshipMessage) -> bool {
    &&& m.name@ == rel.name@
    &&& m.description@ == rel.description@
    &&& m.auto_terminate == rel.auto_terminate
}

/// Converts a property descriptor for the framework.
pub fn property_to_proto(prop: &PropertyDescriptor) -> (r: PropertyDescriptorMessage)
    ensures
        property_sent_as(*prop, r),
{
    let default_value = match &prop.default_value {
        None => String::new(),
        Some(PropertyValue::String(s)) => s.clone(),
        Some(PropertyValue::Integer(i)) => i64_to_string(*i),
        Some(PropertyValue::Boolean(b)) => if *b {
            "true".to_owned()
        } else {
            "false".to_owned()
        },
        Some(PropertyValue::Duration(d)) => u128_to_string(duration_millis(*d)),
    };
    let mut allowable_values: Vec<String> = Vec::new();
    if let Some(v) = &prop.allowable_values {
        let mut i: usize = 0;
        while i < v.len()
            invariant
                i <= v@.len(),
                allowable_values@.map_values(|s: String| s@) == v@.take(i as int).map_values(
                    |s: &'static str| s@,
                ),
            decreases v.len() - i,
        {
            allowable_values.push(v[i].to_owned());
            assert(v@.take(i + 1).map_values(|s: &'static str| s@) =~= v@.take(i as int).map_values(
                |s: &'static str| s@,
            ).push(v@[i as int]@));
            i += 1;
        }
        assert(v@.take(v@.len() as int) =~= v@);
    }
    assert(allowable_values@.map_values(|s: String| s@) =~= (match prop.allowable_values {
        Some(v) => v@.map_values(|s: &'static str| s@),
        None => Seq::empty(),
    }));
    PropertyDescriptorMessage {
        name: prop.name.to_owned(),
        display_name: prop.display_name.to_owned(),
        description: prop.description.to_owned(),
        required: prop.required,
        default_value,
        sensitive: prop.sensitive,
        expression_language_supported: prop.expression_language_supported,
        allowable_values,
    }
}

/// Converts a relationship for the framework.
pub fn relationship_to_proto(rel: &Relationship) -> (r: RelationshipMessage)
    ensures
        relationship_sent_as(*rel, r),
{
    RelationshipMessage {
        name: rel.name.to_owned(),
        description: rel.description.to_owned(),
        auto_terminate: rel.auto_terminate,
    }
}

/// `ff` is what the framework's `msg` makes: the message's id when it is a
/// UUID, its attributes, its content when it carries any, its size and dates.
pub open spec fn received_as(msg: FlowFileMessage, ff: FlowFile) -> bool {
    &&& (uuid_parse_spec(msg.id@) matches Some(v) ==> ff.id == v)
    &&& ff.attrs() == text_map(msg.attributes@)
    &&& ff.content_bytes() == (if msg.content@.len() > 0 {
        Some(msg.content@)
    } else {
        None::<Seq<u8>>
    })
    &&& ff.size == msg.size
    &&& ff.entry_date == msg.entry_date
    &&& ff.lineage_start_date == msg.lineage_start_date
}

/// `msg` is how `ff` is sent to the framework: its id as UUID text (which
/// reads back as the id), its attributes, its content (empty when it has
/// none), size and dates.
pub open spec fn sent_as(ff: FlowFile, msg: FlowFileMessage) -> bool {
    &&& msg.id@ == uuid_text(ff.id)
    &&& uuid_parse_spec(msg.id@) == Some(ff.id)
    &&& text_map(msg.attributes@) == ff.attrs()
    &&& msg.content@ == (match ff.content_bytes() {
        Some(b) => b,
        None => Seq::<u8>::empty(),
    })
    &&& msg.size == ff.size
    &&& msg.entry_date == ff.entry_date
    &&& msg.lineage_start_date == ff.lineage_start_date
}

/// A FlowFile from the framework: its id when the message's id is a UUID
/// (a fresh random version-4 UUID otherwise), its attributes, its content
/// when the message carries any, and the message's size and dates.
pub fn flowfile_from_proto(msg: FlowFileMessage) -> (r: FlowFile)
    ensures
        received_as(msg, r),
        uuid_parse_spec(msg.id@) is None ==> is_uuid_v4(r.id),
{
    let mut ff = FlowFile::new();
    if let Some(id) = uuid_parse(msg.id.as_str()) {
        ff.id = id;
    }
    ff.set_attributes(msg.attributes);
    if msg.content.len() > 0 {
        ff.set_content(bytes_from_vec(msg.content));
    }
    ff.size = msg.size;
    ff.entry_date = msg.entry_date;
    ff.lineage_start_date = msg.lineage_start_date;
    ff
}

/// A FlowFile for the framework.
pub fn flowfile_to_proto(ff: &FlowFile) -> (r: FlowFileMessage)
    ensures
        sent_as(*ff, r),
{
    let attributes = ff.attribute_map().clone_map();
    assert(text_map(attributes@) =~= ff.attrs());
    let content = match ff.content() {
        Some(b) => bytes_to_vec(b),
        None => Vec::new(),
    };
    FlowFileMessage {
        id: uuid_to_string(ff.id),
        attributes,
        content,
        size: ff.size,
        entry_date: ff.entry_date,
        lineage_start_date: ff.lineage_start_date,
    }
}

/// A FlowFile sent to the framework and received back keeps its id,
/// attributes, size and dates, and its content, unless that is empty.
pub proof fn law_flowfile_message_round_trip(ff: FlowFile, msg: FlowFileMessage, back: FlowFile)
    requires
        sent_as(ff, msg),
        received_as(msg, back),
    ensures
        back.id == ff.id,
        back.attrs() == ff.attrs(),
        back.size == ff.size,
        back.entry_date == ff.entry_date,
        back.lineage_start_date == ff.lineage_start_date,
        ff.content_bytes() matches Some(b) && b.len() > 0 ==> back.content_bytes() == ff.content_bytes(),
        (ff.content_bytes() is None || ff.content_bytes() == Some(Seq::<u8>::empty()))
            ==> back.content_bytes() is None,
{
}

/// The property a message configures: its name and value, when it has one.
pub fn property_from_proto(pv: &PropertyValueMessage) -> (r: Option<(String, PropertyValue)>)
    ensures
        match pv.value {
            None => r is None,
            Some(k) => r matches Some((n, v)) && n@ == pv.name@ && same_value(v, k),
        },
{
    let value = match &pv.value {
        None => {
            return None;
        },
        Some(PropertyValueKind::StringValue(s)) => PropertyValue::String(s.clone()),
        Some(PropertyValueKind::IntValue(i)) => PropertyValue::Integer(*i),
        Some(PropertyValueKind::BoolValue(b)) => PropertyValue::Boolean(*b),
        Some(PropertyValueKind::DurationMillis(d)) => PropertyValue::Duration(
            duration_from_millis(*d as u64),
        ),
    };
    Some((pv.name.clone(), value))
}

/// Schedules a processor's context: its concurrency and period (as the
/// framework sends them, cast to the context's types), scheduled, and each
/// configured property set in turn, a later one for the same name winning.
pub fn apply_schedule(
    ctx: &mut ProcessContext,
    max_concurrent_tasks: i32,
    scheduling_period_millis: i64,
    properties: &[PropertyValueMessage],
)
    ensures
        final(ctx).max_concurrent_tasks == max_concurrent_tasks as u32,
        final(ctx).scheduling_period_millis == scheduling_period_millis as u64,
        final(ctx).is_scheduled,
        final(ctx).processor_id == old(ctx).processor_id,
        final(ctx).processor_name == old(ctx).processor_name,
        forall|name: Seq<char>| #[trigger]
            last_set(properties@, name) matches Some(k) ==> final(ctx).props().contains_key(name)
                && same_value(final(ctx).props()[name], k),
        forall|name: Seq<char>| #[trigger]
            last_set(properties@, name) is None ==> lookup(final(ctx).props(), name) == lookup(
                old(ctx).props(),
                name,
            ),
{
    ctx.max_concurrent_tasks = max_concurrent_tasks as u32;
    ctx.scheduling_period_millis = scheduling_period_millis as u64;
    ctx.is_scheduled = true;
    let ghost m0 = ctx.props();
    let mut i: usize = 0;
    assert(properties@.take(0) =~= Seq::<PropertyValueMessage>::empty());
    while i < properties.len()
        invariant
            i <= properties@.len(),
            ctx.max_concurrent_tasks == max_concurrent_tasks as u32,
            ctx.scheduling_period_millis == scheduling_period_millis as u64,
            ctx.is_scheduled,
            ctx.processor_id == old(ctx).processor_id,
            ctx.processor_name == old(ctx).processor_name,
            m0 == old(ctx).props(),
            forall|name: Seq<char>| #[trigger]
                last_set(properties@.take(i as int), name) matches Some(k) ==> ctx.props().contains_key(
                    name,
                ) && same_value(ctx.props()[name], k),
            forall|name: Seq<char>| #[trigger]
                last_set(properties@.take(i as int), name) is None ==> lookup(ctx.props(), name)
                    == lookup(m0, name),
        decreases properties.len() - i,
    {
        let ghost before = ctx.props();
        let ghost pre = properties@.take(i as int);
        let ghost post = properties@.take(i + 1);
        assert(post.drop_last() =~= pre);
        assert(post.last() == properties@[i as int]);
        let ghost p = properties@[i as int];
        assert forall|name: Seq<char>| #[trigger] last_set(post, name) == (if p.name@ == name
            && p.value is Some {
            p.value
        } else {
            last_set(pre, name)
        }) by {}
        if let Some((name, value)) = property_from_proto(&properties[i]) {
            ctx.set_property(name.as_str(), value);
            assert(ctx.props() == before.insert(p.name@, value));
        } else {
            assert(p.value is None);
        }
        assert forall|name: Seq<char>| #[trigger]
            last_set(post, name) is Some implies ctx.props().contains_key(name)
            && same_value(ctx.props()[name], last_set(post, name)->0) by {
            if !(p.name@ == name && p.value is Some) {
                assert(last_set(post, name) == last_set(pre, name));
            }
        }
        assert forall|name: Seq<char>| #[trigger] last_set(post, name) is None implies lookup(
            ctx.props(),
            name,
        ) == lookup(m0, name) by {
            assert(last_set(post, name) == last_set(pre, name));
        }
        i += 1;
    }
    assert(properties@.take(properties@.len() as int) =~= properties@);
}

/// The response to a successful trigger: every transfer made, in order, with
/// its FlowFile as `flowfile_to_proto` sends it and its relationship's name,
/// and the ids of the FlowFiles removed, both taken from the session.
pub fn trigger_response(session: &mut ProcessSession) -> (r: TriggerResponseMessage)
    ensures
        r.success,
        r.error_message@ == Seq::<char>::empty(),
        r.transferred@.len() == old(session).transfers().len(),
        forall|i: int| 0 <= i < r.transferred@.len() ==> {
            let m = #[trigger] r.transferred@[i];
            let t = old(session).transfers()[i];
            &&& m.relationship@ == t.relationship.name@
            &&& m.flowfile matches Some(f) && sent_as(t.flowfile, f)
        },
        r.removed_ids@.map_values(|s: String| s@) == old(session).removals().map_values(
            |f: FlowFile| uuid_text(f.id),
        ),
        final(session).transfers() == Seq::<TransferTarget>::empty(),
        final(session).removals() == Seq::<FlowFile>::empty(),
        final(session).inputs() == old(session).inputs(),
{
    let transfers = session.take_transferred();
    let removals = session.take_removed();
    let mut transferred: Vec<TransferTargetMessage> = Vec::new();
    let mut i: usize = 0;
    while i < transfers.len()
        invariant
            i <= transfers@.len(),
            transferred@.len() == i,
            forall|j: int| 0 <= j < i ==> {
                let m = #[trigger] transferred@[j];
                let t = transfers@[j];
                &&& m.relationship@ == t.relationship.name@
                &&& m.flowfile matches Some(f) && sent_as(t.flowfile, f)
            },
        decreases transfers.len() - i,
    {
        let t = &transfers[i];
        let f = flowfile_to_proto(&t.flowfile);
        transferred.push(
            TransferTargetMessage { flowfile: Some(f), relationship: t.relationship.name.to_owned() },
        );
        i += 1;
    }
    let mut removed_ids: Vec<String> = Vec::new();
    let mut k: usize = 0;
    while k < removals.len()
        invariant
            k <= removals@.len(),
            removed_ids@.map_values(|s: String| s@) == removals@.take(k as int).map_values(
                |f: FlowFile| uuid_text(f.id),
            ),
        decreases removals.len() - k,
    {
        let id = uuid_to_string(removals[k].id);
        removed_ids.push(id);
        assert(removals@.take(k + 1).map_values(|f: FlowFile| uuid_text(f.id)) =~= removals@.take(
            k as int,
        ).map_values(|f: FlowFile| uuid_text(f.id)).push(uuid_text(removals@[k as int].id)));
        k += 1;
    }
    assert(removals@.take(removals@.len() as int) =~= removals@);
    TriggerResponseMessage { success: true, error_message: String::new(), transferred, removed_ids }
}

/// The response to a failed trigger: the error's message, nothing
/// transferred or removed.
pub fn trigger_failure(message: String) -> (r: TriggerResponseMessage)
    ensures
        !r.success,
        r.error_message == message,
        r.transferred@.len() == 0,
        r.removed_ids@.len() == 0,
{
    TriggerResponseMessage {
        success: false,
        error_message: message,
        transferred: Vec::new(),
        removed_ids: Vec::new(),
    }
}

/// The message for a processor id that names no processor.
pub fn processor_not_found(processor_id: &str) -> (r: String)
    ensures
        r@ == "Processor not found: "@ + processor_id@,
{
    crate::text::concat("Processor not found: ", processor_id)
}

/// The message for a processor type that is not registered.
pub fn processor_type_not_found(processor_type: &str) -> (r: String)
    ensures
        r@ == "Processor type not found: "@ + processor_type@,
{
    crate::text::concat("Processor type not found: ", processor_type)
}

/// The response to scheduling or stopping a processor: success, or the
/// error's message.
pub fn lifecycle_response(outcome: &Result<(), ProcessorError>) -> (r: LifecycleResponseMessage)
    ensures
        r.success == outcome is Ok,
        outcome is Ok ==> r.error_message@ == Seq::<char>::empty(),
        outcome matches Err(e) ==> (!(*e is Io) ==> r.error_message@ == crate::processor::error_text(
            *e,
        )),
{
    match outcome {
        Ok(()) => LifecycleResponseMessage { success: true, error_message: String::new() },
        Err(e) => LifecycleResponseMessage { success: false, error_message: e.message() },
    }
}

/// A processor type's description for the framework: its name and
/// description, and each property descriptor and relationship as
/// `property_to_proto` and `relationship_to_proto` send them, in order.
pub fn processor_type_info(
    processor_type: &str,
    description: &str,
    properties: &[PropertyDescriptor],
    relationships: &[Relationship],
) -> (r: ProcessorTypeInfoMessage)
    ensures
        r.processor_type@ == processor_type@,
        r.description@ == description@,
        r.properties@.len() == properties@.len(),
        forall|i: int|
            0 <= i < properties@.len() ==> property_sent_as(
                properties@[i],
                #[trigger] r.properties@[i],
            ),
        r.relationships@.len() == relationships@.len(),
        forall|i: int|
            0 <= i < relationships@.len() ==> relationship_sent_as(
                relationships@[i],
                #[trigger] r.relationships@[i],
            ),
{
    let mut props: Vec<PropertyDescriptorMessage> = Vec::new();
    let mut i: usize = 0;
    while i < properties.len()
        invariant
            i <= properties@.len(),
            props@.len() == i,
            forall|j: int| 0 <= j < i ==> property_sent_as(properties@[j], #[trigger] props@[j]),
        decreases properties.len() - i,
    {
        props.push(property_to_proto(&properties[i]));
        i += 1;
    }
    let mut rels: Vec<RelationshipMessage> = Vec::new();
    let mut k: usize = 0;
    while k < relationships.len()
        invariant
            k <= relationships@.len(),
            rels@.len() == k,
            forall|j: int| 0 <= j < k ==> relationship_sent_as(relationships@[j], #[trigger] rels@[j]),
        decreases relationships.len() - k,
    {
        rels.push(relationship_to_proto(&relationships[k]));
        k += 1;
    }
    ProcessorTypeInfoMessage {
        processor_type: processor_type.to_owned(),
        description: description.to_owned(),
        properties: props,
        relationships: rels,
    }
}

} // verus!
