//! Dummy MMU lifecycle shim.
//!
//! Every architecture backend of the kernel exposes the same two-operation
//! MMU interface, so call sites in architecture-independent code stay
//! uniform. On a CPU family without address-translation hardware the
//! operations have nothing to do; this backend makes that explicit. Both
//! functions take no mutable state and return nothing, so under Verus's
//! semantics a call cannot change any observable state, cannot fail and is
//! idempotent in any interleaving.

use vstd::prelude::*;

verus! {

/// Prepares address translation for the core named by `_core`. Without
/// translation hardware there is nothing to set up: the call has no effect,
/// never fails and never blocks, for every core identifier.
pub fn initialize_mmu(_core: u32) {
}

/// Turns address translation off. Without translation hardware it was never
/// on: the call has no effect, never fails and never blocks.
pub fn disable_mmu() {
}

} // verus!
