//! The cell that holds the current read-topology generation.

use crate::read_topology::ShmReadTopologyGeneration;
use arc_swap::ArcSwap;
use std::sync::Arc;
use vstd::prelude::*;

verus! {

/// The `arc_swap::ArcSwap` that holds the current generation. It is opaque
/// here; [`current_generation`] names what it holds.
#[verifier::external_body]
pub struct GenerationSlot {
    cell: ArcSwap<ShmReadTopologyGeneration>,
}

/// The generation that a slot holds.
pub uninterp spec fn current_generation(slot: GenerationSlot) -> ShmReadTopologyGeneration;

/// Calls `arc_swap::ArcSwapAny::new`, which makes a slot that holds the given
/// generation.
#[verifier::external_body]
pub(crate) fn new_slot(initial: Arc<ShmReadTopologyGeneration>) -> (slot: GenerationSlot)
    ensures
        current_generation(slot) == *initial,
{
    GenerationSlot { cell: ArcSwap::new(initial) }
}

/// Calls `arc_swap::ArcSwapAny::load_full`, which returns the generation that
/// the slot holds and leaves it there. A slot is written through an exclusive
/// borrow only (see [`store_generation`]), so what it holds cannot change while
/// it is borrowed here.
#[verifier::external_body]
pub(crate) fn load_generation(slot: &GenerationSlot) -> (generation: Arc<ShmReadTopologyGeneration>)
    ensures
        *generation == current_generation(*slot),
{
    slot.cell.load_full()
}

/// Calls `arc_swap::ArcSwapAny::store`, after which the slot holds the given
/// generation in place of the one before.
#[verifier::external_body]
pub(crate) fn store_generation(
    slot: &mut GenerationSlot,
    generation: Arc<ShmReadTopologyGeneration>,
)
    ensures
        current_generation(*final(slot)) == *generation,
{
    slot.cell.store(generation);
}

} // verus!
