//! A host that embeds sandboxed guest components: it builds an engine,
//! loads an artifact with its declared interface, creates an isolated
//! execution context, links the artifact's imports against registered
//! capability bindings, and checks calls into the artifact's exports before
//! and after they cross the boundary. The bootstrap can be split in two
//! phases whose hand-off moves the staged state to its next sole owner.
use vstd::prelude::*;

pub mod types;
pub mod binary;
pub mod names;
pub mod engine;
pub mod context;
pub mod linker;
pub mod instance;
pub mod capability;
pub mod coordinator;

verus! {

} // verus!
