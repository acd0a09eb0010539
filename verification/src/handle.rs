//! Generation-checked handles to registry entries.
//!
//! A handle pairs a slot index with the generation the slot had when the
//! entry was created.  Removing an entry bumps the slot's generation, so a
//! stale handle kept by another sequence can never alias onto an unrelated
//! entry that later reuses the slot: it simply resolves to "not found".

use vstd::prelude::*;

verus! {

/// An opaque reference to a registered sequence instance.
#[derive(Clone, Copy, Debug, Hash, PartialEq, Eq, Structural)]
pub struct InstanceHandle {
    pub index: usize,
    pub generation: u64,
}

} // verus!
