//! Per-native-type slot counts, as traits a storable type implements.
//!
//! [`NumSlots`] says how many consecutive slots a value of the type
//! occupies; [`InheritanceSlots`] how many slots the type reserves when it
//! is inherited from.  Scalars and strings take one slot; a dynamic array
//! spans the composite width, for its buffer, length and capacity cells.

use vstd::prelude::*;

use crate::catalog::COMPOSITE_WIDTH;

verus! {

/// Number of consecutive slots a value of the implementing type occupies.
pub trait NumSlots {
    /// The slot count, as a specification-level constant.
    spec fn spec_num_slots() -> u32;

    /// The slot count.
    fn num_slots() -> (n: u32)
        ensures
            n == Self::spec_num_slots(),
    ;
}

/// Number of slots the implementing type reserves for itself and its
/// children when it stands as a parent.
pub trait InheritanceSlots {
    /// The reserved count, as a specification-level constant.
    spec fn spec_inheritance_slots() -> u32;

    /// The reserved count.
    fn inheritance_slots() -> (n: u32)
        ensures
            n == Self::spec_inheritance_slots(),
    ;
}

impl NumSlots for bool {
    open spec fn spec_num_slots() -> u32 {
        1
    }

    fn num_slots() -> u32 {
        1
    }
}

impl InheritanceSlots for bool {
    open spec fn spec_inheritance_slots() -> u32 {
        1
    }

    fn inheritance_slots() -> u32 {
        1
    }
}

impl NumSlots for u8 {
    open spec fn spec_num_slots() -> u32 {
        1
    }

    fn num_slots() -> u32 {
        1
    }
}

impl InheritanceSlots for u8 {
    open spec fn spec_inheritance_slots() -> u32 {
        1
    }

    fn inheritance_slots() -> u32 {
        1
    }
}

impl NumSlots for i8 {
    open spec fn spec_num_slots() -> u32 {
        1
    }

    fn num_slots() -> u32 {
        1
    }
}

impl InheritanceSlots for i8 {
    open spec fn spec_inheritance_slots() -> u32 {
        1
    }

    fn inheritance_slots() -> u32 {
        1
    }
}

impl NumSlots for u16 {
    open spec fn spec_num_slots() -> u32 {
        1
    }

    fn num_slots() -> u32 {
        1
    }
}

impl InheritanceSlots for u16 {
    open spec fn spec_inheritance_slots() -> u32 {
        1
    }

    fn inheritance_slots() -> u32 {
        1
    }
}

impl NumSlots for i16 {
    open spec fn spec_num_slots() -> u32 {
        1
    }

    fn num_slots() -> u32 {
        1
    }
}

impl InheritanceSlots for i16 {
    open spec fn spec_inheritance_slots() -> u32 {
        1
    }

    fn inheritance_slots() -> u32 {
        1
    }
}

impl NumSlots for u32 {
    open spec fn spec_num_slots() -> u32 {
        1
    }

    fn num_slots() -> u32 {
        1
    }
}

impl InheritanceSlots for u32 {
    open spec fn spec_inheritance_slots() -> u32 {
        1
    }

    fn inheritance_slots() -> u32 {
        1
    }
}

impl NumSlots for i32 {
    open spec fn spec_num_slots() -> u32 {
        1
    }

    fn num_slots() -> u32 {
        1
    }
}

impl InheritanceSlots for i32 {
    open spec fn spec_inheritance_slots() -> u32 {
        1
    }

    fn inheritance_slots() -> u32 {
        1
    }
}

impl NumSlots for u64 {
    open spec fn spec_num_slots() -> u32 {
        1
    }

    fn num_slots() -> u32 {
        1
    }
}

impl InheritanceSlots for u64 {
    open spec fn spec_inheritance_slots() -> u32 {
        1
    }

    fn inheritance_slots() -> u32 {
        1
    }
}

impl NumSlots for i64 {
    open spec fn spec_num_slots() -> u32 {
        1
    }

    fn num_slots() -> u32 {
        1
    }
}

impl InheritanceSlots for i64 {
    open spec fn spec_inheritance_slots() -> u32 {
        1
    }

    fn inheritance_slots() -> u32 {
        1
    }
}

impl NumSlots for String {
    open spec fn spec_num_slots() -> u32 {
        1
    }

    fn num_slots() -> u32 {
        1
    }
}

impl InheritanceSlots for String {
    open spec fn spec_inheritance_slots() -> u32 {
        1
    }

    fn inheritance_slots() -> u32 {
        1
    }
}

impl<T> NumSlots for Vec<T> {
    open spec fn spec_num_slots() -> u32 {
        COMPOSITE_WIDTH
    }

    fn num_slots() -> u32 {
        COMPOSITE_WIDTH
    }
}

impl<T> InheritanceSlots for Vec<T> {
    open spec fn spec_inheritance_slots() -> u32 {
        COMPOSITE_WIDTH
    }

    fn inheritance_slots() -> u32 {
        COMPOSITE_WIDTH
    }
}

} // verus!
