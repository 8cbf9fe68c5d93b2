//! Building blocks for Rust NiFi processors: FlowFiles, process contexts and
//! sessions, property descriptors, the FROST CI/CD processors' decision logic,
//! and the plain messages exchanged with the NiFi framework.
pub mod attributes;
pub mod context;
pub mod ext;
pub mod flowfile;
pub mod frost;
pub mod processor;
pub mod str_map;
pub mod text;
pub mod wire;

use vstd::prelude::*;

verus! {

} // verus!
