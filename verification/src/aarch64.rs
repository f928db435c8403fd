//! What the kernel knows of an aarch64 machine before any device is found.

use vstd::prelude::*;

verus! {

/// The interrupt number of the timer.
pub fn timer_interrupt_vector() -> (vector: usize)
    ensures
        vector == 30,
{
    30
}

/// The offset between the kernel's virtual addresses and the physical ones,
/// which the boot code saves once. Of several saves the first one stays.
pub struct SavedOffset {
    offset: Option<usize>,
}

impl SavedOffset {
    /// The offset that was saved, if any was.
    pub closed spec fn saved(&self) -> Option<usize> {
        self.offset
    }

    /// A place in which no offset is saved yet.
    pub fn new() -> (place: SavedOffset)
        ensures
            place.saved() is None,
    {
        SavedOffset { offset: None }
    }

    /// Whether an offset was saved.
    pub fn is_saved(&self) -> (saved: bool)
        ensures
            saved == self.saved().is_some(),
    {
        self.offset.is_some()
    }
}

/// Saves `offset`, unless an offset was saved before.
pub fn save_offset(place: &mut SavedOffset, offset: usize)
    ensures
        final(place).saved() == match old(place).saved() {
            Some(first) => Some(first),
            None => Some(offset),
        },
{
    if place.offset.is_none() {
        place.offset = Some(offset);
    }
}

/// The offset between the kernel's virtual addresses and the physical ones.
/// It has been saved before it is asked for.
pub fn phys_to_virt_offset(place: &SavedOffset) -> (offset: usize)
    requires
        place.saved() is Some,
    ensures
        place.saved() == Some(offset),
{
    match place.offset {
        Some(offset) => offset,
        None => 0,
    }
}

} // verus!
