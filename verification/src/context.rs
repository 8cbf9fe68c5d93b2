//! `ProcessContext` (a processor's configuration) and `ProcessSession` (the
//! FlowFiles handled during one trigger).
use crate::ext::{bytes_seq, is_uuid_v4};
use crate::flowfile::FlowFile;
use crate::processor::{value_bool, value_int, value_text, PropertyValue, Relationship};
use crate::str_map::StrMap;
use crate::text::{concat, decimal, push_decimal};
use bytes::Bytes;
use vstd::prelude::*;

verus! {

/// The value configured for `name`, if any.
pub open spec fn lookup(props: Map<Seq<char>, PropertyValue>, name: Seq<char>) -> Option<
    PropertyValue,
> {
    if props.contains_key(name) {
        Some(props[name])
    } else {
        None
    }
}

/// The text configured for `name`, if it is set to a string.
pub open spec fn lookup_text(props: Map<Seq<char>, PropertyValue>, name: Seq<char>) -> Option<
    Seq<char>,
> {
    match lookup(props, name) {
        Some(v) => value_text(v),
        None => None,
    }
}

/// The integer configured for `name`, if it is set to an integer.
pub open spec fn lookup_int(props: Map<Seq<char>, PropertyValue>, name: Seq<char>) -> Option<i64> {
    match lookup(props, name) {
        Some(v) => value_int(v),
        None => None,
    }
}

/// The boolean configured for `name`, if it is set to a boolean.
pub open spec fn lookup_bool(props: Map<Seq<char>, PropertyValue>, name: Seq<char>) -> Option<
    bool,
> {
    match lookup(props, name) {
        Some(v) => value_bool(v),
        None => None,
    }
}

/// Access to a processor's configuration: its identity, configured
/// properties and scheduling settings.
pub struct ProcessContext {
    pub processor_id: String,
    pub processor_name: String,
    pub properties: StrMap<PropertyValue>,
    pub max_concurrent_tasks: u32,
    pub scheduling_period_millis: u64,
    pub is_scheduled: bool,
}

impl ProcessContext {
    /// The configured properties.
    pub open spec fn props(&self) -> Map<Seq<char>, PropertyValue> {
        self.properties@
    }

    /// A context with no properties, one concurrent task, a scheduling
    /// period of 0 and not scheduled.
    pub fn new(processor_id: &str, processor_name: &str) -> (r: Self)
        ensures
            r.processor_id@ == processor_id@,
            r.processor_name@ == processor_name@,
            r.props() == Map::<Seq<char>, PropertyValue>::empty(),
            r.max_concurrent_tasks == 1,
            r.scheduling_period_millis == 0,
            !r.is_scheduled,
    {
        ProcessContext {
            processor_id: processor_id.to_owned(),
            processor_name: processor_name.to_owned(),
            properties: StrMap::new(),
            max_concurrent_tasks: 1,
            scheduling_period_millis: 0,
            is_scheduled: false,
        }
    }

    /// The value of property `name`.
    pub fn get_property(&self, name: &str) -> (r: Option<&PropertyValue>)
        ensures
            match r {
                Some(v) => lookup(self.props(), name@) == Some(*v),
                None => lookup(self.props(), name@) is None,
            },
    {
        self.properties.get(name)
    }

    /// The value of property `name`, when it is a string.
    pub fn get_property_string(&self, name: &str) -> (r: Option<&str>)
        ensures
            match r {
                Some(s) => lookup_text(self.props(), name@) == Some(s@),
                None => lookup_text(self.props(), name@) is None,
            },
    {
        match self.properties.get(name) {
            Some(v) => v.as_str(),
            None => None,
        }
    }

    /// The value of property `name`, when it is an integer.
    pub fn get_property_int(&self, name: &str) -> (r: Option<i64>)
        ensures
            r == lookup_int(self.props(), name@),
    {
        match self.properties.get(name) {
            Some(v) => v.as_i64(),
            None => None,
        }
    }

    /// The value of property `name`, when it is a boolean.
    pub fn get_property_bool(&self, name: &str) -> (r: Option<bool>)
        ensures
            r == lookup_bool(self.props(), name@),
    {
        match self.properties.get(name) {
            Some(v) => v.as_bool(),
            None => None,
        }
    }

    /// Sets property `name` to `value`.
    pub fn set_property(&mut self, name: &str, value: PropertyValue)
        ensures
            final(self).props() == old(self).props().insert(name@, value),
            final(self).processor_id == old(self).processor_id,
            final(self).processor_name == old(self).processor_name,
            final(self).max_concurrent_tasks == old(self).max_concurrent_tasks,
            final(self).scheduling_period_millis == old(self).scheduling_period_millis,
            final(self).is_scheduled == old(self).is_scheduled,
    {
        self.properties.insert(name.to_owned(), value);
    }

    /// Whether property `name` is set.
    pub fn has_property(&self, name: &str) -> (r: bool)
        ensures
            r == self.props().contains_key(name@),
    {
        self.properties.contains_key(name)
    }

    /// The names of all set properties, each once.
    pub fn property_names(&self) -> (r: Vec<String>)
        ensures
            lists_names(self.props(), r@),
    {
        self.properties.keys()
    }
}

impl Default for ProcessContext {
    fn default() -> (r: Self)
        ensures
            r.processor_id@ == Seq::<char>::empty(),
            r.processor_name@ == Seq::<char>::empty(),
            r.props() == Map::<Seq<char>, PropertyValue>::empty(),
            r.max_concurrent_tasks == 1,
            r.scheduling_period_millis == 0,
            !r.is_scheduled,
    {
        proof {
            reveal_strlit("");
        }
        ProcessContext::new("", "")
    }
}

impl Clone for ProcessContext {
    fn clone(&self) -> (r: Self)
        ensures
            r.processor_id == self.processor_id,
            r.processor_name == self.processor_name,
            r.props() == self.props(),
            r.max_concurrent_tasks == self.max_concurrent_tasks,
            r.scheduling_period_millis == self.scheduling_period_millis,
            r.is_scheduled == self.is_scheduled,
    {
        let properties = self.properties.clone_map();
        assert(properties@ =~= self.properties@);
        ProcessContext {
            processor_id: self.processor_id.clone(),
            processor_name: self.processor_name.clone(),
            properties,
            max_concurrent_tasks: self.max_concurrent_tasks,
            scheduling_period_millis: self.scheduling_period_millis,
            is_scheduled: self.is_scheduled,
        }
    }
}

/// `names` lists the names set in `props`, each once, in some order.
pub open spec fn lists_names(props: Map<Seq<char>, PropertyValue>, names: Seq<String>) -> bool {
    &&& names.len() == props.dom().len()
    &&& forall|i: int| 0 <= i < names.len() ==> props.contains_key(#[trigger] names[i]@)
    &&& forall|k: Seq<char>| #[trigger]
        props.contains_key(k) ==> exists|i: int| 0 <= i < names.len() && names[i]@ == k
    &&& forall|i: int, j: int|
        0 <= i < names.len() && 0 <= j < names.len() && i != j ==> #[trigger] names[i]@
            != #[trigger] names[j]@
}

/// `cs` is a context without properties followed by one context for each
/// write of `values[i]` to the property `names[i]`, in order.
pub open spec fn written_in_turn(
    cs: Seq<ProcessContext>,
    names: Seq<Seq<char>>,
    values: Seq<PropertyValue>,
) -> bool {
    &&& cs.len() == names.len() + 1
    &&& values.len() == names.len()
    &&& cs[0].props() == Map::<Seq<char>, PropertyValue>::empty()
    &&& forall|i: int|
        #![trigger names[i]]
        0 <= i < names.len() ==> cs[i + 1].props() == cs[i].props().insert(names[i], values[i])
}

proof fn lemma_written_names(
    cs: Seq<ProcessContext>,
    names: Seq<Seq<char>>,
    values: Seq<PropertyValue>,
    n: int,
)
    requires
        written_in_turn(cs, names, values),
        0 <= n <= names.len(),
    ensures
        forall|k: Seq<char>| #[trigger]
            cs[n].props().contains_key(k) <==> names.take(n).contains(k),
    decreases n,
{
    if n > 0 {
        lemma_written_names(cs, names, values, n - 1);
        assert(cs[n].props() == cs[n - 1].props().insert(names[n - 1], values[n - 1]));
        assert(names.take(n) =~= names.take(n - 1).push(names[n - 1]));
        assert forall|k: Seq<char>| #[trigger]
            cs[n].props().contains_key(k) <==> names.take(n).contains(k) by {
            assert(cs[n - 1].props().contains_key(k) <==> names.take(n - 1).contains(k));
            if k == names[n - 1] {
                assert(names.take(n)[n - 1] == k);
            }
            if names.take(n).contains(k) && k != names[n - 1] {
                let j = choose|j: int| 0 <= j < n && #[trigger] names.take(n)[j] == k;
                assert(j != n - 1);
                assert(names.take(n - 1)[j] == k);
            }
            if names.take(n - 1).contains(k) {
                let j = choose|j: int| 0 <= j < n - 1 && #[trigger] names.take(n - 1)[j] == k;
                assert(names.take(n)[j] == k);
            }
        }
    } else {
        assert(names.take(0) =~= Seq::<Seq<char>>::empty());
    }
}

/// After a run of writes to a context without properties, the property
/// names it lists are the distinct names written, each once, and no other.
pub proof fn law_property_names_after_writes(
    cs: Seq<ProcessContext>,
    names: Seq<Seq<char>>,
    values: Seq<PropertyValue>,
    listed: Seq<String>,
)
    requires
        written_in_turn(cs, names, values),
        lists_names(cs.last().props(), listed),
    ensures
        forall|k: Seq<char>|
            names.contains(k) <==> exists|i: int| 0 <= i < listed.len() && #[trigger] listed[i]@ == k,
        forall|i: int, j: int|
            0 <= i < listed.len() && 0 <= j < listed.len() && i != j ==> #[trigger] listed[i]@
                != #[trigger] listed[j]@,
{
    lemma_written_names(cs, names, values, names.len() as int);
    assert(names.take(names.len() as int) =~= names);
    assert(cs.last() == cs[names.len() as int]);
    assert forall|k: Seq<char>|
        names.contains(k) <==> exists|i: int| 0 <= i < listed.len() && #[trigger] listed[i]@ == k by {
        if names.contains(k) {
            assert(cs.last().props().contains_key(k));
        }
        if exists|i: int| 0 <= i < listed.len() && #[trigger] listed[i]@ == k {
            let i = choose|i: int| 0 <= i < listed.len() && #[trigger] listed[i]@ == k;
            assert(cs.last().props().contains_key(listed[i]@));
        }
    }
}

/// Reading a property gives back the value last set for it, as whatever
/// kind of value it is.
pub proof fn law_property_read_after_write(
    before: ProcessContext,
    after: ProcessContext,
    name: Seq<char>,
    value: PropertyValue,
)
    requires
        after.props() == before.props().insert(name, value),
    ensures
        lookup(after.props(), name) == Some(value),
        lookup_text(after.props(), name) == value_text(value),
        lookup_int(after.props(), name) == value_int(value),
        lookup_bool(after.props(), name) == value_bool(value),
{
}

/// Setting one property leaves every other property as it was.
pub proof fn law_property_write_keeps_others(
    before: ProcessContext,
    after: ProcessContext,
    name: Seq<char>,
    value: PropertyValue,
    other: Seq<char>,
)
    requires
        after.props() == before.props().insert(name, value),
        other != name,
    ensures
        lookup(after.props(), other) == lookup(before.props(), other),
        lookup_text(after.props(), other) == lookup_text(before.props(), other),
        lookup_int(after.props(), other) == lookup_int(before.props(), other),
        lookup_bool(after.props(), other) == lookup_bool(before.props(), other),
{
}

/// A property holds one kind of value: read as another kind it gives
/// nothing.
pub proof fn law_property_kinds_exclusive(ctx: ProcessContext, name: Seq<char>)
    ensures
        lookup_int(ctx.props(), name) is Some ==> lookup_text(ctx.props(), name) is None
            && lookup_bool(ctx.props(), name) is None,
        lookup_text(ctx.props(), name) is Some ==> lookup_bool(ctx.props(), name) is None,
{
}

/// A FlowFile transferred to a relationship.
pub struct TransferTarget {
    pub flowfile: FlowFile,
    pub relationship: Relationship,
}

impl Clone for TransferTarget {
    fn clone(&self) -> (r: Self)
        ensures
            r.flowfile.id == self.flowfile.id,
            r.flowfile.attrs() == self.flowfile.attrs(),
            r.flowfile.content_bytes() == self.flowfile.content_bytes(),
            r.flowfile.size == self.flowfile.size,
            r.relationship == self.relationship,
    {
        TransferTarget { flowfile: self.flowfile.duplicate(), relationship: self.relationship }
    }
}

/// Session statistics.
#[derive(Debug, Clone, Copy, Default)]
pub struct SessionStats {
    pub input_count: usize,
    pub transferred_count: usize,
    pub removed_count: usize,
    pub pending_count: usize,
}

/// Session errors.
#[derive(Debug)]
pub enum SessionError {
    PendingFlowFiles(usize),
    FlowFileNotFound(String),
    InvalidOperation(String),
}

impl SessionError {
    /// The error's message, as it displays.
    pub fn message(&self) -> (r: String)
        ensures
            match self {
                SessionError::PendingFlowFiles(n) => r@ == "Session has "@ + decimal(*n as nat)
                    + " pending FlowFiles that were not transferred or removed"@,
                SessionError::FlowFileNotFound(s) => r@ == "FlowFile not found: "@ + s@,
                SessionError::InvalidOperation(s) => r@ == "Invalid operation: "@ + s@,
            },
    {
        match self {
            SessionError::PendingFlowFiles(n) => {
                let mut s = "Session has ".to_owned();
                push_decimal(&mut s, *n as u128);
                s.append(" pending FlowFiles that were not transferred or removed");
                s
            },
            SessionError::FlowFileNotFound(s) => concat("FlowFile not found: ", s.as_str()),
            SessionError::InvalidOperation(s) => concat("Invalid operation: ", s.as_str()),
        }
    }
}

/// Manages the FlowFiles of a single execution of a processor's trigger:
/// the input queue, the FlowFiles transferred to relationships, the ones
/// removed, and a count of FlowFiles still to be transferred or removed.
pub struct ProcessSession {
    input_queue: Vec<FlowFile>,
    transferred: Vec<TransferTarget>,
    removed: Vec<FlowFile>,
    pending_count: usize,
}

/// The FlowFiles of a list of transfers, in order.
pub open spec fn transferred_flowfiles(t: Seq<TransferTarget>) -> Seq<FlowFile> {
    t.map_values(|x: TransferTarget| x.flowfile)
}

/// One fewer pending, never fewer than none.
pub open spec fn one_fewer(p: nat) -> nat {
    if p > 0 {
        (p - 1) as nat
    } else {
        0
    }
}

/// `after` is `before` with the next FlowFile taken from its input queue.
pub open spec fn took_input(before: ProcessSession, after: ProcessSession) -> bool {
    &&& before.inputs().len() > 0
    &&& after.inputs() == before.inputs().drop_last()
    &&& after.transfers() == before.transfers()
    &&& after.removals() == before.removals()
    &&& after.pending() == before.pending()
}

/// `after` is `before` with one more FlowFile transferred or removed, and
/// one fewer pending.
pub open spec fn resolved_one(before: ProcessSession, after: ProcessSession) -> bool {
    &&& after.inputs() == before.inputs()
    &&& after.pending() == one_fewer(before.pending())
    &&& {
        ||| after.transfers().len() == before.transfers().len() + 1
            && after.transfers().drop_last() == before.transfers() && after.removals()
            == before.removals()
        ||| after.removals().len() == before.removals().len() + 1 && after.removals().drop_last()
            == before.removals() && after.transfers() == before.transfers()
    }
}

/// `after` is `before` with one more FlowFile created (or cloned), and one
/// more pending.
pub open spec fn created_one(before: ProcessSession, after: ProcessSession) -> bool {
    &&& after.inputs() == before.inputs()
    &&& after.transfers() == before.transfers()
    &&& after.removals() == before.removals()
    &&& after.pending() == before.pending() + 1
}

/// `after` is `before` after one call on the session: an input taken, a
/// FlowFile created, one transferred or removed, or nothing changed (as by
/// `write_content`, `put_attribute` or `remove_attribute`).
pub open spec fn session_step(before: ProcessSession, after: ProcessSession) -> bool {
    ||| took_input(before, after)
    ||| created_one(before, after)
    ||| resolved_one(before, after)
    ||| after == before
}

/// `after` is `before` rolled back: the transferred FlowFiles, then the
/// removed ones, back at the end of the input queue, in order.
pub open spec fn rolled_back(before: ProcessSession, after: ProcessSession) -> bool {
    &&& after.inputs() == before.inputs() + transferred_flowfiles(before.transfers())
        + before.removals()
    &&& after.transfers() == Seq::<TransferTarget>::empty()
    &&& after.removals() == Seq::<FlowFile>::empty()
    &&& after.pending() == before.pending()
}

impl ProcessSession {
    /// The FlowFiles waiting in the input queue; the last is handed out first.
    pub closed spec fn inputs(&self) -> Seq<FlowFile> {
        self.input_queue@
    }

    /// The transfers made, in order.
    pub closed spec fn transfers(&self) -> Seq<TransferTarget> {
        self.transferred@
    }

    /// The FlowFiles removed, in order.
    pub closed spec fn removals(&self) -> Seq<FlowFile> {
        self.removed@
    }

    /// The number of FlowFiles not yet transferred or removed.
    pub closed spec fn pending(&self) -> nat {
        self.pending_count as nat
    }

    /// The number of FlowFiles the session accounts for: waiting, transferred
    /// or removed.
    pub open spec fn held(&self) -> nat {
        self.inputs().len() + self.transfers().len() + self.removals().len()
    }

    /// An empty session.
    pub fn new() -> (r: Self)
        ensures
            r.inputs() == Seq::<FlowFile>::empty(),
            r.transfers() == Seq::<TransferTarget>::empty(),
            r.removals() == Seq::<FlowFile>::empty(),
            r.pending() == 0,
    {
        ProcessSession {
            input_queue: Vec::new(),
            transferred: Vec::new(),
            removed: Vec::new(),
            pending_count: 0,
        }
    }

    /// A session whose input queue holds `flowfiles`, each of them pending.
    pub fn with_input(flowfiles: Vec<FlowFile>) -> (r: Self)
        ensures
            r.inputs() == flowfiles@,
            r.transfers() == Seq::<TransferTarget>::empty(),
            r.removals() == Seq::<FlowFile>::empty(),
            r.pending() == flowfiles@.len(),
    {
        let count = flowfiles.len();
        ProcessSession {
            input_queue: flowfiles,
            transferred: Vec::new(),
            removed: Vec::new(),
            pending_count: count,
        }
    }

    /// Takes the next FlowFile from the input queue (the last one).
    pub fn get(&mut self) -> (r: Option<FlowFile>)
        ensures
            old(self).inputs().len() == 0 ==> r is None && final(self).inputs() == old(self).inputs(),
            old(self).inputs().len() > 0 ==> r == Some(old(self).inputs().last()) && took_input(
                *old(self),
                *final(self),
            ),
            final(self).transfers() == old(self).transfers(),
            final(self).removals() == old(self).removals(),
            final(self).pending() == old(self).pending(),
    {
        self.input_queue.pop()
    }

    /// The next FlowFile, left in the queue.
    pub fn peek(&self) -> (r: Option<&FlowFile>)
        ensures
            self.inputs().len() == 0 ==> r is None,
            self.inputs().len() > 0 ==> r == Some(&self.inputs().last()),
    {
        if self.input_queue.len() == 0 {
            None
        } else {
            Some(&self.input_queue[self.input_queue.len() - 1])
        }
    }

    /// Whether FlowFiles are waiting in the input queue.
    pub fn has_input(&self) -> (r: bool)
        ensures
            r == (self.inputs().len() > 0),
    {
        self.input_queue.len() > 0
    }

    /// The number of FlowFiles waiting in the input queue.
    pub fn input_count(&self) -> (r: usize)
        ensures
            r == self.inputs().len(),
    {
        self.input_queue.len()
    }

    /// A new empty FlowFile, counted as pending.
    pub fn create(&mut self) -> (r: FlowFile)
        requires
            old(self).pending() < usize::MAX,
        ensures
            final(self).pending() == old(self).pending() + 1,
            created_one(*old(self), *final(self)),
            final(self).inputs() == old(self).inputs(),
            final(self).transfers() == old(self).transfers(),
            final(self).removals() == old(self).removals(),
            r.attrs() == Map::<Seq<char>, Seq<char>>::empty(),
            r.content_bytes() is None,
            r.size == 0,
    {
        self.pending_count = self.pending_count + 1;
        FlowFile::new()
    }

    /// A new FlowFile holding `content`, counted as pending.
    pub fn create_with_content(&mut self, content: Bytes) -> (r: FlowFile)
        requires
            old(self).pending() < usize::MAX,
        ensures
            final(self).pending() == old(self).pending() + 1,
            created_one(*old(self), *final(self)),
            final(self).inputs() == old(self).inputs(),
            final(self).transfers() == old(self).transfers(),
            final(self).removals() == old(self).removals(),
            r.attrs() == Map::<Seq<char>, Seq<char>>::empty(),
            r.content_bytes() == Some(bytes_seq(content)),
            r.size == bytes_seq(content).len(),
    {
        self.pending_count = self.pending_count + 1;
        FlowFile::with_content(content)
    }

    /// A copy of `source` with a fresh random version-4 UUID as id, counted
    /// as pending.
    pub fn clone_flowfile(&mut self, source: &FlowFile) -> (r: FlowFile)
        requires
            old(self).pending() < usize::MAX,
        ensures
            final(self).pending() == old(self).pending() + 1,
            created_one(*old(self), *final(self)),
            final(self).inputs() == old(self).inputs(),
            final(self).transfers() == old(self).transfers(),
            final(self).removals() == old(self).removals(),
            r.attrs() == source.attrs(),
            r.content_bytes() == source.content_bytes(),
            r.size == source.size,
            r.lineage_start_date == source.lineage_start_date,
            is_uuid_v4(r.id),
    {
        self.pending_count = self.pending_count + 1;
        source.clone_with_new_id()
    }

    /// Replaces the content of `flowfile`.
    pub fn write_content(&mut self, flowfile: &mut FlowFile, content: Bytes)
        ensures
            *final(self) == *old(self),
            final(flowfile).content_bytes() == Some(bytes_seq(content)),
            final(flowfile).size == bytes_seq(content).len(),
            final(flowfile).attrs() == old(flowfile).attrs(),
            final(flowfile).id == old(flowfile).id,
            final(flowfile).entry_date == old(flowfile).entry_date,
            final(flowfile).lineage_start_date == old(flowfile).lineage_start_date,
    {
        flowfile.set_content(content);
    }

    /// A handle on the content of `flowfile`.
    pub fn read_content(&self, flowfile: &FlowFile) -> (r: Option<Bytes>)
        ensures
            match r {
                Some(b) => flowfile.content_bytes() == Some(bytes_seq(b)),
                None => flowfile.content_bytes() is None,
            },
    {
        match flowfile.content() {
            Some(b) => Some(crate::ext::bytes_clone(b)),
            None => None,
        }
    }

    /// Sets attribute `name` of `flowfile` to `value`.
    pub fn put_attribute(&mut self, flowfile: &mut FlowFile, name: &str, value: &str)
        ensures
            *final(self) == *old(self),
            final(flowfile).attrs() == old(flowfile).attrs().insert(name@, value@),
            final(flowfile).id == old(flowfile).id,
            final(flowfile).content_bytes() == old(flowfile).content_bytes(),
            final(flowfile).size == old(flowfile).size,
    {
        flowfile.put_attribute(name, value);
    }

    /// Removes attribute `name` of `flowfile`, giving back its value.
    pub fn remove_attribute(&mut self, flowfile: &mut FlowFile, name: &str) -> (r: Option<String>)
        ensures
            *final(self) == *old(self),
            final(flowfile).attrs() == old(flowfile).attrs().remove(name@),
            match r {
                Some(v) => old(flowfile).attr(name@) == Some(v@),
                None => old(flowfile).attr(name@) is None,
            },
            final(flowfile).id == old(flowfile).id,
            final(flowfile).content_bytes() == old(flowfile).content_bytes(),
    {
        flowfile.remove_attribute(name)
    }

    /// Transfers `flowfile` to `relationship`; one FlowFile fewer is pending
    /// (never fewer than none).
    pub fn transfer(&mut self, flowfile: FlowFile, relationship: Relationship)
        ensures
            final(self).transfers() == old(self).transfers().push(
                TransferTarget { flowfile, relationship },
            ),
            resolved_one(*old(self), *final(self)),
    {
        self.pending_count = self.pending_count.saturating_sub(1);
        self.transferred.push(TransferTarget { flowfile, relationship });
        assert(self.transferred@.drop_last() =~= old(self).transferred@);
    }

    /// Removes `flowfile` without transferring it; one FlowFile fewer is
    /// pending (never fewer than none).
    pub fn remove(&mut self, flowfile: FlowFile)
        ensures
            final(self).removals() == old(self).removals().push(flowfile),
            resolved_one(*old(self), *final(self)),
            final(self).transfers() == old(self).transfers(),
    {
        self.pending_count = self.pending_count.saturating_sub(1);
        self.removed.push(flowfile);
        assert(self.removed@.drop_last() =~= old(self).removed@);
    }

    /// The transfers made.
    pub fn get_transferred(&self) -> (r: &[TransferTarget])
        ensures
            r@ == self.transfers(),
    {
        self.transferred.as_slice()
    }

    /// The FlowFiles removed.
    pub fn get_removed(&self) -> (r: &[FlowFile])
        ensures
            r@ == self.removals(),
    {
        self.removed.as_slice()
    }

    /// Takes the transfers made, leaving none.
    pub fn take_transferred(&mut self) -> (r: Vec<TransferTarget>)
        ensures
            r@ == old(self).transfers(),
            final(self).transfers() == Seq::<TransferTarget>::empty(),
            final(self).inputs() == old(self).inputs(),
            final(self).removals() == old(self).removals(),
            final(self).pending() == old(self).pending(),
    {
        let mut r: Vec<TransferTarget> = Vec::new();
        std::mem::swap(&mut r, &mut self.transferred);
        r
    }

    /// Takes the FlowFiles removed, leaving none.
    pub fn take_removed(&mut self) -> (r: Vec<FlowFile>)
        ensures
            r@ == old(self).removals(),
            final(self).removals() == Seq::<FlowFile>::empty(),
            final(self).inputs() == old(self).inputs(),
            final(self).transfers() == old(self).transfers(),
            final(self).pending() == old(self).pending(),
    {
        let mut r: Vec<FlowFile> = Vec::new();
        std::mem::swap(&mut r, &mut self.removed);
        r
    }

    /// Whether some FlowFile was created or received and not yet
    /// transferred or removed.
    pub fn has_pending(&self) -> (r: bool)
        ensures
            r == (self.pending() > 0),
    {
        self.pending_count > 0
    }

    /// Commits the session, checking that every FlowFile was transferred or
    /// removed: it fails when FlowFiles are still pending (reporting how
    /// many), or else when inputs are still waiting in the queue (reporting
    /// how many).
    pub fn commit(&mut self) -> (r: Result<(), SessionError>)
        ensures
            *final(self) == *old(self),
            r is Ok <==> old(self).pending() == 0 && old(self).inputs().len() == 0,
            r matches Err(SessionError::PendingFlowFiles(n)) ==> n == (if old(self).pending() > 0 {
                old(self).pending()
            } else {
                old(self).inputs().len()
            }),
            r matches Err(e) ==> e is PendingFlowFiles,
    {
        if self.pending_count > 0 {
            return Err(SessionError::PendingFlowFiles(self.pending_count));
        }
        if self.input_queue.len() > 0 {
            return Err(SessionError::PendingFlowFiles(self.input_queue.len()));
        }
        Ok(())
    }

    /// Rolls the session back: the transferred FlowFiles, then the removed
    /// ones, go back to the input queue, in order.
    pub fn rollback(&mut self)
        ensures
            rolled_back(*old(self), *final(self)),
    {
        let mut transferred: Vec<TransferTarget> = Vec::new();
        std::mem::swap(&mut transferred, &mut self.transferred);
        let mut removed: Vec<FlowFile> = Vec::new();
        std::mem::swap(&mut removed, &mut self.removed);
        let ghost in0 = self.input_queue@;
        let ghost t0 = transferred@;
        let ghost r0 = removed@;
        let mut rest = transferred;
        while rest.len() > 0
            invariant
                rest@.len() <= t0.len(),
                self.transferred@ == Seq::<TransferTarget>::empty(),
                self.removed@ == Seq::<FlowFile>::empty(),
                self.pending_count == old(self).pending_count,
                rest@ == t0.skip(t0.len() - rest@.len()),
                self.input_queue@ == in0 + transferred_flowfiles(t0.take(t0.len() - rest@.len())),
            decreases rest.len(),
        {
            let ghost k = t0.len() - rest@.len();
            let target = rest.remove(0);
            assert(target == t0[k]);
            assert(rest@ =~= t0.skip(k + 1));
            self.input_queue.push(target.flowfile);
            assert(t0.take(k + 1) =~= t0.take(k).push(t0[k]));
            assert(transferred_flowfiles(t0.take(k + 1)) =~= transferred_flowfiles(t0.take(k)).push(
                t0[k].flowfile,
            ));
        }
        assert(t0.take(t0.len() as int) =~= t0);
        self.input_queue.append(&mut removed);
    }

    /// The session's counts.
    pub fn stats(&self) -> (r: SessionStats)
        ensures
            r.input_count == self.inputs().len(),
            r.transferred_count == self.transfers().len(),
            r.removed_count == self.removals().len(),
            r.pending_count == self.pending(),
    {
        SessionStats {
            input_count: self.input_queue.len(),
            transferred_count: self.transferred.len(),
            removed_count: self.removed.len(),
            pending_count: self.pending_count,
        }
    }
}

impl Default for ProcessSession {
    fn default() -> (r: Self)
        ensures
            r.inputs() == Seq::<FlowFile>::empty(),
            r.transfers() == Seq::<TransferTarget>::empty(),
            r.removals() == Seq::<FlowFile>::empty(),
            r.pending() == 0,
    {
        ProcessSession::new()
    }
}

/// Taking a FlowFile from the input queue and then transferring or removing
/// it keeps the number of FlowFiles the session holds, and leaves one fewer
/// pending.
pub proof fn law_get_then_resolve_keeps_count(
    s0: ProcessSession,
    s1: ProcessSession,
    s2: ProcessSession,
)
    requires
        took_input(s0, s1),
        resolved_one(s1, s2),
    ensures
        s2.held() == s0.held(),
        s2.pending() == one_fewer(s0.pending()),
{
}

/// A rollback returns every transferred and removed FlowFile to the input
/// queue: afterwards the queue holds all the session held, and nothing is
/// transferred or removed.
pub proof fn law_rollback_restores_all(s0: ProcessSession, s1: ProcessSession)
    requires
        rolled_back(s0, s1),
    ensures
        s1.held() == s0.held(),
        s1.inputs().len() == s0.held(),
        forall|i: int| 0 <= i < s0.inputs().len() ==> s1.inputs().contains(
            #[trigger] s0.inputs()[i],
        ),
        forall|i: int| 0 <= i < s0.transfers().len() ==> s1.inputs().contains(
            #[trigger] s0.transfers()[i].flowfile,
        ),
        forall|i: int| 0 <= i < s0.removals().len() ==> s1.inputs().contains(
            #[trigger] s0.removals()[i],
        ),
{
    let ins = s0.inputs();
    let ts = transferred_flowfiles(s0.transfers());
    let all = s1.inputs();
    assert forall|i: int| 0 <= i < ins.len() implies all.contains(#[trigger] ins[i]) by {
        assert(all[i] == ins[i]);
    }
    assert forall|i: int| 0 <= i < s0.transfers().len() implies all.contains(
        #[trigger] s0.transfers()[i].flowfile,
    ) by {
        assert(all[ins.len() + i] == ts[i]);
    }
    assert forall|i: int| 0 <= i < s0.removals().len() implies all.contains(
        #[trigger] s0.removals()[i],
    ) by {
        assert(all[ins.len() + ts.len() + i] == s0.removals()[i]);
    }
}

/// The number of steps of `ss` that transfer or remove a FlowFile.
pub open spec fn resolutions(ss: Seq<ProcessSession>) -> nat
    decreases ss.len(),
{
    if ss.len() < 2 {
        0
    } else {
        resolutions(ss.drop_last()) + if resolved_one(ss[ss.len() - 2], ss.last()) {
            1nat
        } else {
            0nat
        }
    }
}

/// The number of steps of `ss` that take an input.
pub open spec fn gets(ss: Seq<ProcessSession>) -> nat
    decreases ss.len(),
{
    if ss.len() < 2 {
        0
    } else {
        gets(ss.drop_last()) + if took_input(ss[ss.len() - 2], ss.last()) {
            1nat
        } else {
            0nat
        }
    }
}

/// The number of steps of `ss` that create (or clone) a FlowFile.
pub open spec fn creates(ss: Seq<ProcessSession>) -> nat
    decreases ss.len(),
{
    if ss.len() < 2 {
        0
    } else {
        creates(ss.drop_last()) + if created_one(ss[ss.len() - 2], ss.last()) {
            1nat
        } else {
            0nat
        }
    }
}

/// `ss` is a run of calls on a session that starts with each of its inputs
/// pending and nothing transferred or removed.
pub open spec fn fresh_run(ss: Seq<ProcessSession>) -> bool {
    &&& ss.len() > 0
    &&& ss[0].pending() == ss[0].inputs().len()
    &&& ss[0].transfers().len() == 0
    &&& ss[0].removals().len() == 0
    &&& forall|i: int| 0 <= i < ss.len() - 1 ==> session_step(#[trigger] ss[i], ss[i + 1])
}

/// No prefix of `ss` transfers or removes more FlowFiles than it has taken
/// from the input queue or created.
pub open spec fn disposes_only_what_it_has(ss: Seq<ProcessSession>) -> bool {
    forall|k: int|
        1 <= k <= ss.len() ==> resolutions(#[trigger] ss.take(k)) <= gets(ss.take(k)) + creates(
            ss.take(k),
        )
}

/// Along a run of calls on a session that starts with each input pending,
/// and that transfers or removes only FlowFiles it took or created, each
/// once: the pending count is the number of inputs at the start plus the
/// FlowFiles created, less those transferred or removed; the inputs still
/// queued are those not yet taken. So the session commits exactly when
/// every input has been taken and every input and created FlowFile has
/// been transferred or removed.
pub proof fn law_pending_counts_created(ss: Seq<ProcessSession>)
    requires
        fresh_run(ss),
        disposes_only_what_it_has(ss),
    ensures
        ss.last().pending() + ss.last().transfers().len() + ss.last().removals().len()
            == ss[0].inputs().len() + creates(ss),
        ss.last().transfers().len() + ss.last().removals().len() == resolutions(ss),
        ss.last().inputs().len() + gets(ss) == ss[0].inputs().len(),
    decreases ss.len(),
{
    if ss.len() >= 2 {
        let pre = ss.drop_last();
        assert forall|i: int| 0 <= i < pre.len() - 1 implies session_step(#[trigger] pre[i], pre[i + 1]) by {
            assert(pre[i] == ss[i] && pre[i + 1] == ss[i + 1]);
            assert(session_step(ss[i], ss[i + 1]));
        }
        assert forall|k: int| 1 <= k <= pre.len() implies resolutions(#[trigger] pre.take(k)) <= gets(
            pre.take(k),
        ) + creates(pre.take(k)) by {
            assert(pre.take(k) =~= ss.take(k));
            assert(resolutions(ss.take(k)) <= gets(ss.take(k)) + creates(ss.take(k)));
        }
        law_pending_counts_created(pre);
        let a = ss[ss.len() - 2];
        let b = ss.last();
        assert(pre.last() == a);
        assert(session_step(ss[ss.len() - 2], ss[ss.len() - 1]));
        assert(ss.take(ss.len() as int) =~= ss);
        assert(resolutions(ss.take(ss.len() as int)) <= gets(ss.take(ss.len() as int)) + creates(
            ss.take(ss.len() as int),
        ));
    }
}

/// The FlowFile a step that transfers or removes one hands back.
pub open spec fn resolved_flowfile(before: ProcessSession, after: ProcessSession) -> FlowFile {
    if after.transfers().len() == before.transfers().len() + 1 {
        after.transfers().last().flowfile
    } else {
        after.removals().last()
    }
}

/// The FlowFiles the steps of `ss` take from the input queue.
pub open spec fn taken(ss: Seq<ProcessSession>) -> vstd::multiset::Multiset<FlowFile>
    decreases ss.len(),
{
    if ss.len() < 2 {
        vstd::multiset::Multiset::empty()
    } else if took_input(ss[ss.len() - 2], ss.last()) {
        taken(ss.drop_last()).insert(ss[ss.len() - 2].inputs().last())
    } else {
        taken(ss.drop_last())
    }
}

/// The FlowFiles the steps of `ss` transfer or remove.
pub open spec fn handed_back(ss: Seq<ProcessSession>) -> vstd::multiset::Multiset<FlowFile>
    decreases ss.len(),
{
    if ss.len() < 2 {
        vstd::multiset::Multiset::empty()
    } else if resolved_one(ss[ss.len() - 2], ss.last()) {
        handed_back(ss.drop_last()).insert(resolved_flowfile(ss[ss.len() - 2], ss.last()))
    } else {
        handed_back(ss.drop_last())
    }
}

/// The FlowFiles a session holds: waiting, transferred or removed.
pub open spec fn held_flowfiles(s: ProcessSession) -> vstd::multiset::Multiset<FlowFile> {
    (s.inputs() + transferred_flowfiles(s.transfers()) + s.removals()).to_multiset()
}

proof fn lemma_held_split(s: ProcessSession)
    ensures
        held_flowfiles(s) == s.inputs().to_multiset().add(
            transferred_flowfiles(s.transfers()).to_multiset(),
        ).add(s.removals().to_multiset()),
{
    let ins = s.inputs();
    let ts = transferred_flowfiles(s.transfers());
    vstd::seq_lib::lemma_multiset_commutative(ins + ts, s.removals());
    vstd::seq_lib::lemma_multiset_commutative(ins, ts);
}

proof fn lemma_held_take(a: ProcessSession, b: ProcessSession)
    requires
        took_input(a, b),
    ensures
        held_flowfiles(a) =~= held_flowfiles(b).insert(a.inputs().last()),
{
    broadcast use vstd::multiset::group_multiset_axioms;

    lemma_held_split(a);
    lemma_held_split(b);
    let x = a.inputs().last();
    assert(a.inputs() =~= b.inputs().push(x));
    vstd::seq_lib::to_multiset_build(b.inputs(), x);
}

proof fn lemma_held_resolve(a: ProcessSession, b: ProcessSession)
    requires
        resolved_one(a, b),
    ensures
        held_flowfiles(b) =~= held_flowfiles(a).insert(resolved_flowfile(a, b)),
{
    broadcast use vstd::multiset::group_multiset_axioms;

    lemma_held_split(a);
    lemma_held_split(b);
    let f = resolved_flowfile(a, b);
    if b.transfers().len() == a.transfers().len() + 1 {
        assert(b.transfers() =~= a.transfers().push(b.transfers().last()));
        let ta = transferred_flowfiles(a.transfers());
        assert(transferred_flowfiles(b.transfers()) =~= ta.push(f));
        vstd::seq_lib::to_multiset_build(ta, f);
    } else {
        assert(b.removals() =~= a.removals().push(f));
        vstd::seq_lib::to_multiset_build(a.removals(), f);
    }
}

proof fn lemma_held_along_run(ss: Seq<ProcessSession>)
    requires
        ss.len() > 0,
        forall|i: int|
            0 <= i < ss.len() - 1 ==> took_input(#[trigger] ss[i], ss[i + 1]) || resolved_one(
                ss[i],
                ss[i + 1],
            ) || ss[i + 1] == ss[i],
    ensures
        held_flowfiles(ss.last()).add(taken(ss)) =~= held_flowfiles(ss[0]).add(handed_back(ss)),
    decreases ss.len(),
{
    broadcast use vstd::multiset::group_multiset_axioms;

    if ss.len() >= 2 {
        let pre = ss.drop_last();
        assert forall|i: int| 0 <= i < pre.len() - 1 implies took_input(#[trigger] pre[i], pre[i + 1])
            || resolved_one(pre[i], pre[i + 1]) || pre[i + 1] == pre[i] by {
            assert(pre[i] == ss[i] && pre[i + 1] == ss[i + 1]);
            assert(took_input(ss[i], ss[i + 1]) || resolved_one(ss[i], ss[i + 1]) || ss[i + 1]
                == ss[i]);
        }
        lemma_held_along_run(pre);
        let a = ss[ss.len() - 2];
        let b = ss.last();
        assert(pre.last() == a);
        assert(pre[0] == ss[0]);
        assert(took_input(ss[ss.len() - 2], ss[ss.len() - 1]) || resolved_one(
            ss[ss.len() - 2],
            ss[ss.len() - 1],
        ) || ss[ss.len() - 1] == ss[ss.len() - 2]);
        let lhs = held_flowfiles(b).add(taken(ss));
        let rhs = held_flowfiles(ss[0]).add(handed_back(ss));
        if took_input(a, b) {
            lemma_held_take(a, b);
            assert(!resolved_one(a, b));
            let x = a.inputs().last();
            assert(taken(ss) == taken(pre).insert(x));
            assert(handed_back(ss) == handed_back(pre));
            assert forall|y: FlowFile| lhs.count(y) == rhs.count(y) by {
                assert(held_flowfiles(a).count(y) == held_flowfiles(b).insert(x).count(y));
                assert(held_flowfiles(a).add(taken(pre)).count(y) == held_flowfiles(ss[0]).add(
                    handed_back(pre),
                ).count(y));
            }
        } else if resolved_one(a, b) {
            lemma_held_resolve(a, b);
            assert(!took_input(a, b));
            let f = resolved_flowfile(a, b);
            assert(taken(ss) == taken(pre));
            assert(handed_back(ss) == handed_back(pre).insert(f));
            assert forall|y: FlowFile| lhs.count(y) == rhs.count(y) by {
                assert(held_flowfiles(b).count(y) == held_flowfiles(a).insert(f).count(y));
                assert(held_flowfiles(a).add(taken(pre)).count(y) == held_flowfiles(ss[0]).add(
                    handed_back(pre),
                ).count(y));
            }
        } else {
            assert(b == a);
            assert(!took_input(a, b));
            assert(!resolved_one(a, b));
            assert(taken(ss) == taken(pre));
            assert(handed_back(ss) == handed_back(pre));
        }
        assert(lhs =~= rhs);
    }
}

/// Along a run of a session in which each step takes an input, transfers or
/// removes a FlowFile, or leaves the session as it is: when the FlowFiles
/// transferred or removed are exactly those taken (each taken FlowFile
/// handed back once), a rollback at the end puts back in the input queue
/// exactly the FlowFiles the session held at the start (for a session that
/// had transferred and removed nothing, exactly its inputs), leaves nothing
/// transferred or removed, and leaves the pending count as it was.
pub proof fn law_rollback_after_run(ss: Seq<ProcessSession>, after: ProcessSession)
    requires
        ss.len() > 0,
        forall|i: int|
            0 <= i < ss.len() - 1 ==> took_input(#[trigger] ss[i], ss[i + 1]) || resolved_one(
                ss[i],
                ss[i + 1],
            ) || ss[i + 1] == ss[i],
        taken(ss) == handed_back(ss),
        rolled_back(ss.last(), after),
    ensures
        after.inputs().to_multiset() == held_flowfiles(ss[0]),
        after.inputs().len() == ss[0].held(),
        ss[0].transfers().len() == 0 && ss[0].removals().len() == 0 ==> after.inputs().to_multiset()
            == ss[0].inputs().to_multiset(),
        after.transfers().len() == 0,
        after.removals().len() == 0,
        after.pending() == ss.last().pending(),
{
    broadcast use vstd::seq_lib::group_to_multiset_ensures;
    broadcast use vstd::multiset::group_multiset_axioms;

    lemma_held_along_run(ss);
    let h = held_flowfiles(ss.last());
    let h0 = held_flowfiles(ss[0]);
    let t = taken(ss);
    assert(after.inputs().to_multiset() =~= h);
    assert(h =~= h0) by {
        assert forall|x: FlowFile| h.count(x) == h0.count(x) by {
            assert(h.add(t).count(x) == h0.add(t).count(x));
        }
    }
    let s0 = ss[0];
    assert(h0.len() == (s0.inputs() + transferred_flowfiles(s0.transfers()) + s0.removals()).len());
    if s0.transfers().len() == 0 && s0.removals().len() == 0 {
        assert(s0.inputs() + transferred_flowfiles(s0.transfers()) + s0.removals() =~= s0.inputs());
    }
}

/// Along a run of a session in which each step takes a FlowFile from the
/// input queue or transfers or removes one, each transfer or removal leaves
/// one fewer pending; once there have been as many as were pending at the
/// start, none is pending, and the session commits as soon as its input
/// queue is empty.
pub proof fn law_all_resolved_commits(ss: Seq<ProcessSession>)
    requires
        ss.len() > 0,
        forall|i: int| 0 <= i < ss.len() - 1 ==> took_input(#[trigger] ss[i], ss[i + 1])
            || resolved_one(ss[i], ss[i + 1]),
    ensures
        ss.last().pending() == saturating_steps(ss[0].pending(), resolutions(ss)),
        resolutions(ss) >= ss[0].pending() ==> ss.last().pending() == 0,
    decreases ss.len(),
{
    if ss.len() >= 2 {
        let pre = ss.drop_last();
        assert forall|i: int| 0 <= i < pre.len() - 1 implies took_input(#[trigger] pre[i], pre[i + 1])
            || resolved_one(pre[i], pre[i + 1]) by {
            assert(pre[i] == ss[i] && pre[i + 1] == ss[i + 1]);
            assert(took_input(ss[i], ss[i + 1]) || resolved_one(ss[i], ss[i + 1]));
        }
        law_all_resolved_commits(pre);
        assert(pre.last() == ss[ss.len() - 2]);
        assert(took_input(ss[ss.len() - 2], ss[ss.len() - 1]) || resolved_one(
            ss[ss.len() - 2],
            ss[ss.len() - 1],
        ));
    }
    lemma_saturating_steps(ss[0].pending(), resolutions(ss));
}

proof fn lemma_saturating_steps(p: nat, k: nat)
    ensures
        saturating_steps(p, k) == (if p >= k {
            (p - k) as nat
        } else {
            0
        }),
    decreases k,
{
    if k > 0 {
        lemma_saturating_steps(p, (k - 1) as nat);
    }
}

/// The pending count after `k` transfers or removals from `p` pending.
pub open spec fn saturating_steps(p: nat, k: nat) -> nat
    decreases k,
{
    if k == 0 {
        p
    } else {
        let q = saturating_steps(p, (k - 1) as nat);
        if q > 0 {
            (q - 1) as nat
        } else {
            0
        }
    }
}

} // verus!
