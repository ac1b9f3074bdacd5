//! Typed slot markers: a zero-sized view of one slot of a host object,
//! tagged with the native type stored there and the slot's index.
//!
//! A generated record type can lay one marker per field next to its
//! handle; the marker carries no data of its own, so the record stays
//! physically nothing but the handle.

use vstd::prelude::*;

use core::marker::PhantomData;

verus! {

/// A type-level slot index: each field of a generated record gets its own
/// index type, implemented by the record's users.
pub trait SlotIndex {
    /// The slot index this type stands for.
    fn slot_index() -> u32;
}

/// A zero-sized, typed view of one slot: `T` is the native type stored
/// there, `I` the slot's index.
pub struct MagicSlot<T, I> {
    slot_type: PhantomData<T>,
    slot_index: PhantomData<I>,
}

impl<T, I> MagicSlot<T, I> {
    /// Construct a new `MagicSlot` marker; it carries no data.
    pub fn new() -> MagicSlot<T, I> {
        MagicSlot { slot_type: PhantomData, slot_index: PhantomData }
    }
}

} // verus!
