//! The FlowFile: a piece of data flowing through a processor, made of content
//! (the bytes) and attributes (string metadata).
use crate::ext::{
    bytes_clone, bytes_len, bytes_seq, bytes_to_vec, is_uuid_v4, new_uuid_v4, now_millis,
};
use crate::str_map::StrMap;
use bytes::Bytes;
use vstd::prelude::*;

verus! {

/// A single piece of data in the flow: a unique id, attributes (key-value
/// metadata), optional content and its size, and two timestamps.
///
/// `id` is the 128-bit value of the FlowFile's UUID.
pub struct FlowFile {
    pub id: u128,
    pub attributes: StrMap<String>,
    pub content: Option<Bytes>,
    pub size: u64,
    pub entry_date: i64,
    pub lineage_start_date: i64,
}

/// The characters of each value of a string map.
pub open spec fn text_map(m: Map<Seq<char>, String>) -> Map<Seq<char>, Seq<char>> {
    m.map_values(|v: String| v@)
}

impl FlowFile {
    /// The attributes, as a map from names to values.
    pub open spec fn attrs(&self) -> Map<Seq<char>, Seq<char>> {
        text_map(self.attributes@)
    }

    /// The content's bytes, when there is content.
    pub open spec fn content_bytes(&self) -> Option<Seq<u8>> {
        match self.content {
            Some(b) => Some(bytes_seq(b)),
            None => None,
        }
    }

    /// The value of attribute `name`, when it is set.
    pub open spec fn attr(&self, name: Seq<char>) -> Option<Seq<char>> {
        if self.attrs().contains_key(name) {
            Some(self.attrs()[name])
        } else {
            None
        }
    }

    /// A new empty FlowFile: a fresh random version-4 UUID as id, no
    /// attributes, no content, and both dates set to the current time.
    pub fn new() -> (r: Self)
        ensures
            r.attrs() == Map::<Seq<char>, Seq<char>>::empty(),
            r.content_bytes() is None,
            r.size == 0,
            r.entry_date == r.lineage_start_date,
            is_uuid_v4(r.id),
    {
        let now = now_millis();
        let attributes = StrMap::new();
        assert(text_map(attributes@) =~= Map::<Seq<char>, Seq<char>>::empty());
        FlowFile {
            id: new_uuid_v4(),
            attributes,
            content: None,
            size: 0,
            entry_date: now,
            lineage_start_date: now,
        }
    }

    /// A new FlowFile holding `content`, whose size is the content's length,
    /// with a fresh random version-4 UUID as id.
    pub fn with_content(content: Bytes) -> (r: Self)
        ensures
            r.attrs() == Map::<Seq<char>, Seq<char>>::empty(),
            r.content_bytes() == Some(bytes_seq(content)),
            r.size == bytes_seq(content).len(),
            r.entry_date == r.lineage_start_date,
            is_uuid_v4(r.id),
    {
        let now = now_millis();
        let size = bytes_len(&content) as u64;
        let attributes = StrMap::new();
        assert(text_map(attributes@) =~= Map::<Seq<char>, Seq<char>>::empty());
        FlowFile {
            id: new_uuid_v4(),
            attributes,
            content: Some(content),
            size,
            entry_date: now,
            lineage_start_date: now,
        }
    }

    /// The value of attribute `name`.
    pub fn get_attribute(&self, name: &str) -> (r: Option<&str>)
        ensures
            match r {
                Some(v) => self.attr(name@) == Some(v@),
                None => self.attr(name@) is None,
            },
    {
        match self.attributes.get(name) {
            Some(v) => Some(v.as_str()),
            None => None,
        }
    }

    /// Sets attribute `name` to `value`.
    pub fn put_attribute(&mut self, name: &str, value: &str)
        ensures
            final(self).attrs() == old(self).attrs().insert(name@, value@),
            final(self).id == old(self).id,
            final(self).content_bytes() == old(self).content_bytes(),
            final(self).size == old(self).size,
            final(self).entry_date == old(self).entry_date,
            final(self).lineage_start_date == old(self).lineage_start_date,
    {
        let ghost before = self.attributes@;
        self.attributes.insert(name.to_owned(), value.to_owned());
        assert(text_map(self.attributes@) =~= text_map(before).insert(name@, value@));
    }

    /// Removes attribute `name`, giving back its value.
    pub fn remove_attribute(&mut self, name: &str) -> (r: Option<String>)
        ensures
            final(self).attrs() == old(self).attrs().remove(name@),
            match r {
                Some(v) => old(self).attr(name@) == Some(v@),
                None => old(self).attr(name@) is None,
            },
            final(self).id == old(self).id,
            final(self).content_bytes() == old(self).content_bytes(),
            final(self).size == old(self).size,
            final(self).entry_date == old(self).entry_date,
            final(self).lineage_start_date == old(self).lineage_start_date,
    {
        let ghost before = self.attributes@;
        let r = self.attributes.remove(name);
        assert(text_map(self.attributes@) =~= text_map(before).remove(name@));
        r
    }

    /// The content.
    pub fn content(&self) -> (r: Option<&Bytes>)
        ensures
            match r {
                Some(b) => self.content_bytes() == Some(bytes_seq(*b)),
                None => self.content_bytes() is None,
            },
    {
        match &self.content {
            Some(b) => Some(b),
            None => None,
        }
    }

    /// The content as text, when there is content and it is valid UTF-8.
    pub fn content_as_string(&self) -> (r: Option<String>)
        ensures
            match self.content_bytes() {
                Some(b) => if vstd::utf8::valid_utf8(b) {
                    r matches Some(s) && s@ == vstd::utf8::decode_utf8(b)
                } else {
                    r is None
                },
                None => r is None,
            },
    {
        match &self.content {
            Some(b) => crate::ext::utf8_to_string(bytes_to_vec(b)),
            None => None,
        }
    }

    /// Replaces the content; the size becomes its length.
    pub fn set_content(&mut self, content: Bytes)
        ensures
            final(self).content_bytes() == Some(bytes_seq(content)),
            final(self).size == bytes_seq(content).len(),
            final(self).attrs() == old(self).attrs(),
            final(self).id == old(self).id,
            final(self).entry_date == old(self).entry_date,
            final(self).lineage_start_date == old(self).lineage_start_date,
    {
        self.size = bytes_len(&content) as u64;
        self.content = Some(content);
    }

    /// Takes the content out; the size becomes 0.
    pub fn take_content(&mut self) -> (r: Option<Bytes>)
        ensures
            match r {
                Some(b) => old(self).content_bytes() == Some(bytes_seq(b)),
                None => old(self).content_bytes() is None,
            },
            final(self).content_bytes() is None,
            final(self).size == 0,
            final(self).attrs() == old(self).attrs(),
            final(self).id == old(self).id,
            final(self).entry_date == old(self).entry_date,
            final(self).lineage_start_date == old(self).lineage_start_date,
    {
        self.size = 0;
        let mut c: Option<Bytes> = None;
        std::mem::swap(&mut c, &mut self.content);
        c
    }

    /// Whether there is content.
    pub fn has_content(&self) -> (r: bool)
        ensures
            r == self.content_bytes() is Some,
    {
        self.content.is_some()
    }

    /// A copy of this FlowFile with a fresh random version-4 UUID as id and
    /// an entry date of now; attributes, content, size and lineage start
    /// date are kept.
    pub fn clone_with_new_id(&self) -> (r: Self)
        ensures
            r.attrs() == self.attrs(),
            r.content_bytes() == self.content_bytes(),
            r.size == self.size,
            r.lineage_start_date == self.lineage_start_date,
            is_uuid_v4(r.id),
    {
        let now = now_millis();
        let attributes = self.attributes.clone_map();
        let content = self.clone_content();
        assert(text_map(attributes@) =~= text_map(self.attributes@));
        FlowFile {
            id: new_uuid_v4(),
            attributes,
            content,
            size: self.size,
            entry_date: now,
            lineage_start_date: self.lineage_start_date,
        }
    }

    fn clone_content(&self) -> (r: Option<Bytes>)
        ensures
            match r {
                Some(b) => self.content_bytes() == Some(bytes_seq(b)),
                None => self.content_bytes() is None,
            },
    {
        match &self.content {
            Some(b) => Some(bytes_clone(b)),
            None => None,
        }
    }

    /// A copy of this FlowFile, id included.
    pub fn duplicate(&self) -> (r: Self)
        ensures
            r.id == self.id,
            r.attrs() == self.attrs(),
            r.content_bytes() == self.content_bytes(),
            r.size == self.size,
            r.entry_date == self.entry_date,
            r.lineage_start_date == self.lineage_start_date,
    {
        let attributes = self.attributes.clone_map();
        let content = self.clone_content();
        assert(text_map(attributes@) =~= text_map(self.attributes@));
        FlowFile {
            id: self.id,
            attributes,
            content,
            size: self.size,
            entry_date: self.entry_date,
            lineage_start_date: self.lineage_start_date,
        }
    }

    /// Replaces all attributes with `attributes`.
    pub fn set_attributes(&mut self, attributes: StrMap<String>)
        ensures
            final(self).attrs() == text_map(attributes@),
            final(self).id == old(self).id,
            final(self).content_bytes() == old(self).content_bytes(),
            final(self).size == old(self).size,
            final(self).entry_date == old(self).entry_date,
            final(self).lineage_start_date == old(self).lineage_start_date,
    {
        self.attributes = attributes;
    }

    /// The attributes.
    pub fn attribute_map(&self) -> (r: &StrMap<String>)
        ensures
            text_map(r@) == self.attrs(),
    {
        &self.attributes
    }

    /// The `filename` attribute.
    pub fn filename(&self) -> (r: Option<&str>)
        ensures
            match r {
                Some(v) => self.attr("filename"@) == Some(v@),
                None => self.attr("filename"@) is None,
            },
    {
        self.get_attribute("filename")
    }

    /// Sets the `filename` attribute.
    pub fn set_filename(&mut self, filename: &str)
        ensures
            final(self).attrs() == old(self).attrs().insert("filename"@, filename@),
            final(self).content_bytes() == old(self).content_bytes(),
            final(self).size == old(self).size,
    {
        self.put_attribute("filename", filename);
    }

    /// The `path` attribute.
    pub fn path(&self) -> (r: Option<&str>)
        ensures
            match r {
                Some(v) => self.attr("path"@) == Some(v@),
                None => self.attr("path"@) is None,
            },
    {
        self.get_attribute("path")
    }

    /// Sets the `path` attribute.
    pub fn set_path(&mut self, path: &str)
        ensures
            final(self).attrs() == old(self).attrs().insert("path"@, path@),
            final(self).content_bytes() == old(self).content_bytes(),
            final(self).size == old(self).size,
    {
        self.put_attribute("path", path);
    }

    /// The `mime.type` attribute.
    pub fn mime_type(&self) -> (r: Option<&str>)
        ensures
            match r {
                Some(v) => self.attr("mime.type"@) == Some(v@),
                None => self.attr("mime.type"@) is None,
            },
    {
        self.get_attribute("mime.type")
    }

    /// Sets the `mime.type` attribute.
    pub fn set_mime_type(&mut self, mime_type: &str)
        ensures
            final(self).attrs() == old(self).attrs().insert("mime.type"@, mime_type@),
            final(self).content_bytes() == old(self).content_bytes(),
            final(self).size == old(self).size,
    {
        self.put_attribute("mime.type", mime_type);
    }
}

impl Default for FlowFile {
    fn default() -> (r: Self)
        ensures
            r.attrs() == Map::<Seq<char>, Seq<char>>::empty(),
            r.content_bytes() is None,
            r.size == 0,
    {
        FlowFile::new()
    }
}

/// Reading an attribute gives back the value last written to it.
pub proof fn law_attribute_read_after_write(
    before: FlowFile,
    after: FlowFile,
    name: Seq<char>,
    value: Seq<char>,
)
    requires
        after.attrs() == before.attrs().insert(name, value),
    ensures
        after.attr(name) == Some(value),
{
}

/// Writing one attribute leaves every other attribute as it was.
pub proof fn law_attribute_write_keeps_others(
    before: FlowFile,
    after: FlowFile,
    name: Seq<char>,
    value: Seq<char>,
    other: Seq<char>,
)
    requires
        after.attrs() == before.attrs().insert(name, value),
        other != name,
    ensures
        after.attr(other) == before.attr(other),
{
}

/// After an attribute is removed, reading it gives nothing, and every other
/// attribute reads as before.
pub proof fn law_attribute_gone_after_remove(
    before: FlowFile,
    after: FlowFile,
    name: Seq<char>,
    other: Seq<char>,
)
    requires
        after.attrs() == before.attrs().remove(name),
    ensures
        after.attr(name) is None,
        other != name ==> after.attr(other) == before.attr(other),
{
}

/// FlowFile batch for bulk operations.
pub struct FlowFileBatch {
    pub flowfiles: Vec<FlowFile>,
}

impl FlowFileBatch {
    /// An empty batch.
    pub fn new() -> (r: Self)
        ensures
            r.flowfiles@ == Seq::<FlowFile>::empty(),
    {
        FlowFileBatch { flowfiles: Vec::new() }
    }

    /// Appends `flowfile`.
    pub fn add(&mut self, flowfile: FlowFile)
        ensures
            final(self).flowfiles@ == old(self).flowfiles@.push(flowfile),
    {
        self.flowfiles.push(flowfile);
    }

    pub fn len(&self) -> (r: usize)
        ensures
            r == self.flowfiles@.len(),
    {
        self.flowfiles.len()
    }

    pub fn is_empty(&self) -> (r: bool)
        ensures
            r == (self.flowfiles@.len() == 0),
    {
        self.flowfiles.len() == 0
    }

    /// The FlowFiles, in the order they were added.
    pub fn iter(&self) -> (r: &[FlowFile])
        ensures
            r@ == self.flowfiles@,
    {
        self.flowfiles.as_slice()
    }

    /// The FlowFiles, in the order they were added, to modify in place.
    pub fn iter_mut(&mut self) -> (r: &mut Vec<FlowFile>)
        ensures
            *r == old(self).flowfiles,
            final(self).flowfiles == *final(r),
    {
        &mut self.flowfiles
    }

    /// The FlowFiles, in the order they were added.
    pub fn into_flowfiles(self) -> (r: Vec<FlowFile>)
        ensures
            r@ == self.flowfiles@,
    {
        self.flowfiles
    }

    /// A batch of `flowfiles`, in their order.
    pub fn from_flowfiles(flowfiles: Vec<FlowFile>) -> (r: Self)
        ensures
            r.flowfiles@ == flowfiles@,
    {
        FlowFileBatch { flowfiles }
    }
}

impl IntoIterator for FlowFileBatch {
    type Item = FlowFile;

    type IntoIter = std::vec::IntoIter<FlowFile>;

    /// The batch's FlowFiles, yielded in their order.
    fn into_iter(self) -> (r: std::vec::IntoIter<FlowFile>)
        ensures
            vstd::std_specs::iter::IteratorSpec::remaining(&r) == self.flowfiles@,
    {
        proof {
            broadcast use vstd::std_specs::vec::axiom_spec_into_iter;

        }
        self.flowfiles.into_iter()
    }
}

impl Default for FlowFileBatch {
    fn default() -> (r: Self)
        ensures
            r.flowfiles@ == Seq::<FlowFile>::empty(),
    {
        FlowFileBatch::new()
    }
}

} // verus!
