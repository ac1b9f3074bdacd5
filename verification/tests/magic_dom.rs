use magicdom::dom::{dompoint_schema, dompointreadonly_schema};
use magicdom::layout::{num_fields, register, Registry};
use magicdom::magic::{MagicSlot, SlotIndex};

use std::mem;

// A record type generated for the DOMPoint schema is physically nothing
// but the instance handle: the typed slot markers are all zero-sized.
#[allow(dead_code)]
struct DOMPoint {
    object: usize,
    x: MagicSlot<f64, DOMPointSlotIndex0>,
    y: MagicSlot<f64, DOMPointSlotIndex1>,
    z: MagicSlot<f64, DOMPointSlotIndex2>,
    w: MagicSlot<f64, DOMPointSlotIndex3>,
}

enum DOMPointSlotIndex0 {}
impl SlotIndex for DOMPointSlotIndex0 {
    fn slot_index() -> u32 {
        0
    }
}

enum DOMPointSlotIndex1 {}
impl SlotIndex for DOMPointSlotIndex1 {
    fn slot_index() -> u32 {
        1
    }
}

enum DOMPointSlotIndex2 {}
impl SlotIndex for DOMPointSlotIndex2 {
    fn slot_index() -> u32 {
        2
    }
}

enum DOMPointSlotIndex3 {}
impl SlotIndex for DOMPointSlotIndex3 {
    fn slot_index() -> u32 {
        3
    }
}

#[allow(non_snake_case)]
#[test]
fn test_DOMPoint_magic_layout() {
    // The record is just the handle, and each marker sits at its slot.
    assert_eq!(mem::size_of::<DOMPoint>(), mem::size_of::<usize>());
    assert_eq!(mem::align_of::<DOMPoint>(), mem::align_of::<usize>());

    let mut reg = Registry::new();
    let readonly = register(&mut reg, dompointreadonly_schema()).unwrap();
    let point = register(&mut reg, dompoint_schema(readonly)).unwrap();

    let layout = &reg.classes[readonly].layout;
    assert_eq!(layout.offsets, vec![0, 1, 2, 3]);
    assert_eq!(layout.total_slots, 4);
    assert_eq!(layout.inheritance_width, 4);
    assert_eq!(DOMPointSlotIndex0::slot_index(), layout.offsets[0]);
    assert_eq!(DOMPointSlotIndex3::slot_index(), layout.offsets[3]);

    // The child view adds nothing of its own on top of the parent.
    assert_eq!(reg.classes[point].layout.base_offset, 4);
    assert_eq!(num_fields(&reg, point), 4);
    let _ = MagicSlot::<f64, DOMPointSlotIndex0>::new();
}

#[test]
fn it_compiles() {
    assert!(true);
}
