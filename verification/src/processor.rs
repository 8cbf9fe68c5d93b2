//! Processor errors, relationships, property values and property descriptors.
use crate::text::concat;
use vstd::prelude::*;
use vstd::std_specs::convert::FromSpecImpl;

verus! {

/// Error type for processor operations.
#[derive(Debug)]
pub enum ProcessorError {
    NotInitialized(String),
    InvalidConfig(String),
    Processing(String),
    Io(std::io::Error),
    Serialization(String),
    Other(String),
}

/// An error's kind (its variant, numbered in declaration order) and the
/// text it carries; an I/O error carries no text here.
pub open spec fn error_view(e: ProcessorError) -> (int, Seq<char>) {
    match e {
        ProcessorError::NotInitialized(s) => (0, s@),
        ProcessorError::InvalidConfig(s) => (1, s@),
        ProcessorError::Processing(s) => (2, s@),
        ProcessorError::Io(_) => (3, Seq::empty()),
        ProcessorError::Serialization(s) => (4, s@),
        ProcessorError::Other(s) => (5, s@),
    }
}

/// The message an error displays; for an I/O error, only the prefix that
/// precedes the I/O error's own message.
pub open spec fn error_text(e: ProcessorError) -> Seq<char> {
    match e {
        ProcessorError::NotInitialized(s) => "Not initialized: "@ + s@,
        ProcessorError::InvalidConfig(s) => "Invalid configuration: "@ + s@,
        ProcessorError::Processing(s) => "Processing failed: "@ + s@,
        ProcessorError::Io(_) => "IO error: "@,
        ProcessorError::Serialization(s) => "Serialization error: "@ + s@,
        ProcessorError::Other(s) => s@,
    }
}

/// The view of an invalid-configuration error with message `m`.
pub open spec fn invalid_config(m: Seq<char>) -> (int, Seq<char>) {
    (1, m)
}

/// The view of a serialization error with message `m`.
pub open spec fn serialization(m: Seq<char>) -> (int, Seq<char>) {
    (4, m)
}

/// The view of an other error with message `m`.
pub open spec fn other_error(m: Seq<char>) -> (int, Seq<char>) {
    (5, m)
}

/// The view of a result that carries a string or an error.
pub open spec fn text_outcome(r: Result<String, ProcessorError>) -> Result<Seq<char>, (int, Seq<char>)> {
    match r {
        Ok(s) => Ok(s@),
        Err(e) => Err(error_view(e)),
    }
}

impl ProcessorError {
    /// The error's message, as it displays.
    pub fn message(&self) -> (r: String)
        ensures
            !(*self is Io) ==> r@ == error_text(*self),
            match self {
                ProcessorError::NotInitialized(s) => r@ == "Not initialized: "@ + s@,
                ProcessorError::InvalidConfig(s) => r@ == "Invalid configuration: "@ + s@,
                ProcessorError::Processing(s) => r@ == "Processing failed: "@ + s@,
                ProcessorError::Io(_) => r@.len() >= "IO error: "@.len() && r@.subrange(
                    0,
                    "IO error: "@.len() as int,
                ) == "IO error: "@,
                ProcessorError::Serialization(s) => r@ == "Serialization error: "@ + s@,
                ProcessorError::Other(s) => r@ == s@,
            },
    {
        match self {
            ProcessorError::NotInitialized(s) => concat("Not initialized: ", s.as_str()),
            ProcessorError::InvalidConfig(s) => concat("Invalid configuration: ", s.as_str()),
            ProcessorError::Processing(s) => concat("Processing failed: ", s.as_str()),
            ProcessorError::Io(e) => {
                let m = crate::ext::io_error_message(e);
                let r = concat("IO error: ", m.as_str());
                assert(r@.subrange(0, "IO error: "@.len() as int) =~= "IO error: "@);
                r
            },
            ProcessorError::Serialization(s) => concat("Serialization error: ", s.as_str()),
            ProcessorError::Other(s) => s.clone(),
        }
    }
}

impl From<std::io::Error> for ProcessorError {
    fn from(e: std::io::Error) -> (r: Self) {
        ProcessorError::Io(e)
    }
}

impl FromSpecImpl<std::io::Error> for ProcessorError {
    open spec fn obeys_from_spec() -> bool {
        true
    }

    open spec fn from_spec(v: std::io::Error) -> ProcessorError {
        ProcessorError::Io(v)
    }
}

impl From<serde_json::Error> for ProcessorError {
    fn from(e: serde_json::Error) -> (r: Self)
        ensures
            r is Serialization,
    {
        ProcessorError::Serialization(crate::ext::json_error_message(&e))
    }
}

impl FromSpecImpl<serde_json::Error> for ProcessorError {
    open spec fn obeys_from_spec() -> bool {
        false
    }

    open spec fn from_spec(v: serde_json::Error) -> ProcessorError {
        vstd::pervasive::arbitrary()
    }
}

/// Describes a relationship that a processor may transfer FlowFiles to.
#[derive(Debug, Clone, Copy, PartialEq, Eq, Hash)]
pub struct Relationship {
    pub name: &'static str,
    pub description: &'static str,
    pub auto_terminate: bool,
}

impl Relationship {
    /// A relationship that is not auto-terminated.
    pub fn new(name: &'static str, description: &'static str) -> (r: Relationship)
        ensures
            r.name@ == name@,
            r.description@ == description@,
            !r.auto_terminate,
    {
        Relationship { name, description, auto_terminate: false }
    }

    /// Standard success relationship.
    pub fn success() -> (r: Relationship)
        ensures
            r.name@ == "success"@,
            r.description@ == "FlowFiles that were processed successfully"@,
            !r.auto_terminate,
    {
        Relationship::new("success", "FlowFiles that were processed successfully")
    }

    /// Standard failure relationship.
    pub fn failure() -> (r: Relationship)
        ensures
            r.name@ == "failure"@,
            r.description@ == "FlowFiles that failed processing"@,
            !r.auto_terminate,
    {
        Relationship::new("failure", "FlowFiles that failed processing")
    }

    /// Standard original relationship (for cloning processors).
    pub fn original() -> (r: Relationship)
        ensures
            r.name@ == "original"@,
            r.description@ == "Original FlowFile"@,
            !r.auto_terminate,
    {
        Relationship::new("original", "Original FlowFile")
    }
}

/// Value types for processor properties.
#[derive(Debug)]
pub enum PropertyValue {
    String(String),
    Integer(i64),
    Boolean(bool),
    Duration(std::time::Duration),
}

impl Clone for PropertyValue {
    fn clone(&self) -> (r: Self)
        ensures
            r == *self,
    {
        match self {
            PropertyValue::String(s) => PropertyValue::String(s.clone()),
            PropertyValue::Integer(i) => PropertyValue::Integer(*i),
            PropertyValue::Boolean(b) => PropertyValue::Boolean(*b),
            PropertyValue::Duration(d) => PropertyValue::Duration(*d),
        }
    }
}

/// The text of a string value.
pub open spec fn value_text(v: PropertyValue) -> Option<Seq<char>> {
    match v {
        PropertyValue::String(s) => Some(s@),
        _ => None,
    }
}

/// The number of an integer value.
pub open spec fn value_int(v: PropertyValue) -> Option<i64> {
    match v {
        PropertyValue::Integer(i) => Some(i),
        _ => None,
    }
}

/// The truth value of a boolean value.
pub open spec fn value_bool(v: PropertyValue) -> Option<bool> {
    match v {
        PropertyValue::Boolean(b) => Some(b),
        _ => None,
    }
}

impl PropertyValue {
    pub fn as_str(&self) -> (r: Option<&str>)
        ensures
            match r {
                Some(s) => value_text(*self) == Some(s@),
                None => value_text(*self) is None,
            },
    {
        match self {
            PropertyValue::String(s) => Some(s.as_str()),
            _ => None,
        }
    }

    pub fn as_i64(&self) -> (r: Option<i64>)
        ensures
            r == value_int(*self),
    {
        match self {
            PropertyValue::Integer(i) => Some(*i),
            _ => None,
        }
    }

    pub fn as_bool(&self) -> (r: Option<bool>)
        ensures
            r == value_bool(*self),
    {
        match self {
            PropertyValue::Boolean(b) => Some(*b),
            _ => None,
        }
    }

    pub fn as_duration(&self) -> (r: Option<std::time::Duration>)
        ensures
            r == (match *self {
                PropertyValue::Duration(d) => Some(d),
                _ => None,
            }),
    {
        match self {
            PropertyValue::Duration(d) => Some(*d),
            _ => None,
        }
    }
}

impl From<String> for PropertyValue {
    fn from(s: String) -> (r: Self) {
        PropertyValue::String(s)
    }
}

impl FromSpecImpl<String> for PropertyValue {
    open spec fn obeys_from_spec() -> bool {
        true
    }

    open spec fn from_spec(v: String) -> PropertyValue {
        PropertyValue::String(v)
    }
}

impl From<&str> for PropertyValue {
    fn from(s: &str) -> (r: Self)
        ensures
            r matches PropertyValue::String(t) && t@ == s@,
    {
        PropertyValue::String(s.to_owned())
    }
}

impl FromSpecImpl<&str> for PropertyValue {
    open spec fn obeys_from_spec() -> bool {
        false
    }

    open spec fn from_spec(v: &str) -> PropertyValue {
        vstd::pervasive::arbitrary()
    }
}

impl From<i64> for PropertyValue {
    fn from(i: i64) -> (r: Self) {
        PropertyValue::Integer(i)
    }
}

impl FromSpecImpl<i64> for PropertyValue {
    open spec fn obeys_from_spec() -> bool {
        true
    }

    open spec fn from_spec(v: i64) -> PropertyValue {
        PropertyValue::Integer(v)
    }
}

impl From<bool> for PropertyValue {
    fn from(b: bool) -> (r: Self) {
        PropertyValue::Boolean(b)
    }
}

impl FromSpecImpl<bool> for PropertyValue {
    open spec fn obeys_from_spec() -> bool {
        true
    }

    open spec fn from_spec(v: bool) -> PropertyValue {
        PropertyValue::Boolean(v)
    }
}

/// Describes a configurable property for a processor.
#[derive(Debug)]
pub struct PropertyDescriptor {
    pub name: &'static str,
    pub display_name: &'static str,
    pub description: &'static str,
    pub required: bool,
    pub default_value: Option<PropertyValue>,
    pub sensitive: bool,
    pub expression_language_supported: bool,
    pub allowable_values: Option<Vec<&'static str>>,
}

impl PropertyDescriptor {
    /// Starts a descriptor for the property `name`.
    pub fn new(name: &'static str) -> (r: PropertyDescriptorBuilder)
        ensures
            r == PropertyDescriptorBuilder::initial(name),
    {
        PropertyDescriptorBuilder::new(name)
    }
}

/// Builder for `PropertyDescriptor`.
pub struct PropertyDescriptorBuilder {
    pub name: &'static str,
    pub display_name: Option<&'static str>,
    pub description: &'static str,
    pub required: bool,
    pub default_value: Option<PropertyValue>,
    pub sensitive: bool,
    pub expression_language_supported: bool,
    pub allowable_values: Option<Vec<&'static str>>,
}

impl PropertyDescriptorBuilder {
    /// What `new(name)` starts from: only the name set, with an empty
    /// description and every flag off.
    pub open spec fn initial(name: &'static str) -> PropertyDescriptorBuilder {
        PropertyDescriptorBuilder {
            name,
            display_name: None,
            description: "",
            required: false,
            default_value: None,
            sensitive: false,
            expression_language_supported: false,
            allowable_values: None,
        }
    }

    pub fn new(name: &'static str) -> (r: Self)
        ensures
            r == Self::initial(name),
    {
        PropertyDescriptorBuilder {
            name,
            display_name: None,
            description: "",
            required: false,
            default_value: None,
            sensitive: false,
            expression_language_supported: false,
            allowable_values: None,
        }
    }

    pub fn display_name(self, display_name: &'static str) -> (r: Self)
        ensures
            r == (PropertyDescriptorBuilder { display_name: Some(display_name), ..self }),
            r == after_call(self, BuilderCall::DisplayName(display_name)),
    {
        PropertyDescriptorBuilder { display_name: Some(display_name), ..self }
    }

    pub fn description(self, description: &'static str) -> (r: Self)
        ensures
            r == (PropertyDescriptorBuilder { description, ..self }),
            r == after_call(self, BuilderCall::Description(description)),
    {
        PropertyDescriptorBuilder { description, ..self }
    }

    pub fn required(self, required: bool) -> (r: Self)
        ensures
            r == (PropertyDescriptorBuilder { required, ..self }),
            r == after_call(self, BuilderCall::Required(required)),
    {
        PropertyDescriptorBuilder { required, ..self }
    }

    pub fn default_value(self, value: PropertyValue) -> (r: Self)
        ensures
            r == (PropertyDescriptorBuilder { default_value: Some(value), ..self }),
            r == after_call(self, BuilderCall::DefaultValue(value)),
    {
        PropertyDescriptorBuilder { default_value: Some(value), ..self }
    }

    pub fn sensitive(self, sensitive: bool) -> (r: Self)
        ensures
            r == (PropertyDescriptorBuilder { sensitive, ..self }),
            r == after_call(self, BuilderCall::Sensitive(sensitive)),
    {
        PropertyDescriptorBuilder { sensitive, ..self }
    }

    pub fn expression_language_supported(self, supported: bool) -> (r: Self)
        ensures
            r == (PropertyDescriptorBuilder { expression_language_supported: supported, ..self }),
            r == after_call(self, BuilderCall::ExpressionLanguageSupported(supported)),
    {
        PropertyDescriptorBuilder { expression_language_supported: supported, ..self }
    }

    pub fn allowable_values(self, values: Vec<&'static str>) -> (r: Self)
        ensures
            r == (PropertyDescriptorBuilder { allowable_values: Some(values), ..self }),
            r == after_call(self, BuilderCall::AllowableValues(values)),
    {
        PropertyDescriptorBuilder { allowable_values: Some(values), ..self }
    }

    /// The descriptor this builder describes: the display name falls back to
    /// the property's name.
    pub open spec fn built(self) -> PropertyDescriptor {
        PropertyDescriptor {
            name: self.name,
            display_name: match self.display_name {
                Some(d) => d,
                None => self.name,
            },
            description: self.description,
            required: self.required,
            default_value: self.default_value,
            sensitive: self.sensitive,
            expression_language_supported: self.expression_language_supported,
            allowable_values: self.allowable_values,
        }
    }

    pub fn build(self) -> (r: PropertyDescriptor)
        ensures
            r == self.built(),
    {
        let display_name = match self.display_name {
            Some(d) => d,
            None => self.name,
        };
        PropertyDescriptor {
            name: self.name,
            display_name,
            description: self.description,
            required: self.required,
            default_value: self.default_value,
            sensitive: self.sensitive,
            expression_language_supported: self.expression_language_supported,
            allowable_values: self.allowable_values,
        }
    }
}

/// One call in a builder chain: the setter called and its argument.
pub enum BuilderCall {
    DisplayName(&'static str),
    Description(&'static str),
    Required(bool),
    DefaultValue(PropertyValue),
    Sensitive(bool),
    ExpressionLanguageSupported(bool),
    AllowableValues(Vec<&'static str>),
}

/// Which setter a call is, numbered in the order the variants are declared.
pub open spec fn call_kind(c: BuilderCall) -> int {
    match c {
        BuilderCall::DisplayName(_) => 0,
        BuilderCall::Description(_) => 1,
        BuilderCall::Required(_) => 2,
        BuilderCall::DefaultValue(_) => 3,
        BuilderCall::Sensitive(_) => 4,
        BuilderCall::ExpressionLanguageSupported(_) => 5,
        BuilderCall::AllowableValues(_) => 6,
    }
}

/// What the setter call `c` makes of `b`, as each setter's `ensures` states.
pub open spec fn after_call(b: PropertyDescriptorBuilder, c: BuilderCall) -> PropertyDescriptorBuilder {
    match c {
        BuilderCall::DisplayName(d) => PropertyDescriptorBuilder { display_name: Some(d), ..b },
        BuilderCall::Description(d) => PropertyDescriptorBuilder { description: d, ..b },
        BuilderCall::Required(v) => PropertyDescriptorBuilder { required: v, ..b },
        BuilderCall::DefaultValue(v) => PropertyDescriptorBuilder { default_value: Some(v), ..b },
        BuilderCall::Sensitive(v) => PropertyDescriptorBuilder { sensitive: v, ..b },
        BuilderCall::ExpressionLanguageSupported(v) => PropertyDescriptorBuilder {
            expression_language_supported: v,
            ..b
        },
        BuilderCall::AllowableValues(v) => PropertyDescriptorBuilder {
            allowable_values: Some(v),
            ..b
        },
    }
}

/// The builder after the chain of calls `cs`, made in order on `b`.
pub open spec fn after_calls(b: PropertyDescriptorBuilder, cs: Seq<BuilderCall>) -> PropertyDescriptorBuilder
    decreases cs.len(),
{
    if cs.len() == 0 {
        b
    } else {
        after_call(after_calls(b, cs.drop_last()), cs.last())
    }
}

/// The last call in `cs` to the setter numbered `kind`, if there is one.
pub open spec fn last_call(cs: Seq<BuilderCall>, kind: int) -> Option<BuilderCall>
    decreases cs.len(),
{
    if cs.len() == 0 {
        None
    } else if call_kind(cs.last()) == kind {
        Some(cs.last())
    } else {
        last_call(cs.drop_last(), kind)
    }
}

proof fn lemma_after_calls(b: PropertyDescriptorBuilder, cs: Seq<BuilderCall>)
    ensures
        after_calls(b, cs).name == b.name,
        after_calls(b, cs).display_name == (match last_call(cs, 0) {
            Some(BuilderCall::DisplayName(v)) => Some(v),
            _ => b.display_name,
        }),
        after_calls(b, cs).description == (match last_call(cs, 1) {
            Some(BuilderCall::Description(v)) => v,
            _ => b.description,
        }),
        after_calls(b, cs).required == (match last_call(cs, 2) {
            Some(BuilderCall::Required(v)) => v,
            _ => b.required,
        }),
        after_calls(b, cs).default_value == (match last_call(cs, 3) {
            Some(BuilderCall::DefaultValue(v)) => Some(v),
            _ => b.default_value,
        }),
        after_calls(b, cs).sensitive == (match last_call(cs, 4) {
            Some(BuilderCall::Sensitive(v)) => v,
            _ => b.sensitive,
        }),
        after_calls(b, cs).expression_language_supported == (match last_call(cs, 5) {
            Some(BuilderCall::ExpressionLanguageSupported(v)) => v,
            _ => b.expression_language_supported,
        }),
        after_calls(b, cs).allowable_values == (match last_call(cs, 6) {
            Some(BuilderCall::AllowableValues(v)) => Some(v),
            _ => b.allowable_values,
        }),
    decreases cs.len(),
{
    if cs.len() > 0 {
        lemma_after_calls(b, cs.drop_last());
    }
}

/// A descriptor built by any chain of setter calls on `new(name)` has the
/// name `name`; each other field is the argument of the last call to its
/// setter (the display name falling back to `name`), or, when that setter
/// was never called, its initial value: an empty description, every flag
/// off, no default value and no allowable values.
pub proof fn law_builder_chain(name: &'static str, cs: Seq<BuilderCall>)
    ensures
        ({
            let d = after_calls(PropertyDescriptorBuilder::initial(name), cs).built();
            &&& d.name == name
            &&& d.display_name == (match last_call(cs, 0) {
                Some(BuilderCall::DisplayName(v)) => v,
                _ => name,
            })
            &&& d.description == (match last_call(cs, 1) {
                Some(BuilderCall::Description(v)) => v,
                _ => "",
            })
            &&& d.required == (match last_call(cs, 2) {
                Some(BuilderCall::Required(v)) => v,
                _ => false,
            })
            &&& d.default_value == (match last_call(cs, 3) {
                Some(BuilderCall::DefaultValue(v)) => Some(v),
                _ => None,
            })
            &&& d.sensitive == (match last_call(cs, 4) {
                Some(BuilderCall::Sensitive(v)) => v,
                _ => false,
            })
            &&& d.expression_language_supported == (match last_call(cs, 5) {
                Some(BuilderCall::ExpressionLanguageSupported(v)) => v,
                _ => false,
            })
            &&& d.allowable_values == (match last_call(cs, 6) {
                Some(BuilderCall::AllowableValues(v)) => Some(v),
                _ => None,
            })
        }),
{
    lemma_after_calls(PropertyDescriptorBuilder::initial(name), cs);
}

/// A descriptor built without a display name shows its property's name.
pub proof fn law_display_name_defaults_to_name(b: PropertyDescriptorBuilder)
    requires
        b.display_name is None,
    ensures
        b.built().display_name == b.name,
{
}

/// A display name set on the builder is the one the descriptor shows.
pub proof fn law_display_name_kept(b: PropertyDescriptorBuilder, d: &'static str)
    ensures
        (PropertyDescriptorBuilder { display_name: Some(d), ..b }).built().display_name == d,
{
}

} // verus!
