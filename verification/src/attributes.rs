//! Standard FlowFile attribute names.
use vstd::prelude::*;

verus! {

/// The filename of the FlowFile.
pub const FILENAME: &'static str = "filename";

/// The path of the FlowFile.
pub const PATH: &'static str = "path";

/// The absolute path (path + filename).
pub const ABSOLUTE_PATH: &'static str = "absolute.path";

/// MIME type of the content.
pub const MIME_TYPE: &'static str = "mime.type";

/// UUID of the FlowFile.
pub const UUID: &'static str = "uuid";

/// Priority for processing order.
pub const PRIORITY: &'static str = "priority";

/// Entry date timestamp.
pub const ENTRY_DATE: &'static str = "entryDate";

/// Lineage start date timestamp.
pub const LINEAGE_START_DATE: &'static str = "lineageStartDate";

/// Fragment identifier for split FlowFiles.
pub const FRAGMENT_ID: &'static str = "fragment.identifier";

/// Fragment index for split FlowFiles.
pub const FRAGMENT_INDEX: &'static str = "fragment.index";

/// Total fragment count for split FlowFiles.
pub const FRAGMENT_COUNT: &'static str = "fragment.count";

/// Segment original filename.
pub const SEGMENT_ORIGINAL_FILENAME: &'static str = "segment.original.filename";

} // verus!
