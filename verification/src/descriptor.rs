//! The class descriptor emitter: the static metadata the host object
//! system consumes when a generated class is registered.
//!
//! A descriptor carries the class name, the reserved-slot count (the
//! schema's inheritance width) and the class flags.  The flags word encodes
//! the reserved-slot count in a dedicated bit field, the way the host's
//! class-flag convention expects, plus marker bits: every generated class
//! carries private data, and classes whose derived name follows the
//! `DOM` naming convention are flagged as DOM-like.

use vstd::prelude::*;

verus! {

/// Bit position of the reserved-slot count inside the class flags word.
pub const RESERVED_SLOTS_SHIFT: u32 = 8;

/// Mask of the reserved-slot count field; also the widest layout the flags
/// word can describe, so no schema may reserve more slots than this.
pub const RESERVED_SLOTS_MASK: u32 = 255;

/// Flag bit: instances of the class carry private data.
pub const CLASS_HAS_PRIVATE: u32 = 1;

/// Flag bit: the class name follows the DOM naming convention.
pub const CLASS_IS_DOM_LIKE: u32 = 2;

/// The static class metadata registered with the host object system, once
/// per schema, immutable thereafter.
#[derive(Debug, PartialEq, Eq)]
pub struct ClassDescriptor {
    /// The class name, derived from the schema's declared name.
    pub name: String,
    /// How many slots the host must reserve per instance: the schema's
    /// inheritance width.
    pub reserved_slots: u32,
    /// The packed class flags word.
    pub flags: u32,
}

/// The class name is the declared schema name cut at its first underscore:
/// `n` is the cut point when everything before it is underscore-free and it
/// sits on an underscore or at the end.
pub open spec fn is_name_cut(s: Seq<char>, n: int) -> bool {
    &&& 0 <= n <= s.len()
    &&& forall|j: int| 0 <= j < n ==> s[j] != '_'
    &&& (n == s.len() || s[n] == '_')
}

/// A name follows the DOM naming convention when it starts with `DOM`.
pub open spec fn is_dom_like(name: Seq<char>) -> bool {
    name.len() >= 3 && name[0] == 'D' && name[1] == 'O' && name[2] == 'M'
}

/// The packed flags word for a class: the reserved-slot count in its bit
/// field, the private-data bit, and the DOM-like bit when the name says so.
pub open spec fn spec_class_flags(reserved: u32, dom_like: bool) -> u32 {
    ((reserved & RESERVED_SLOTS_MASK) << RESERVED_SLOTS_SHIFT) | CLASS_HAS_PRIVATE | (
    if dom_like {
        CLASS_IS_DOM_LIKE
    } else {
        0u32
    })
}

/// Derive the class name from the schema's declared name: everything up to
/// the first underscore (the whole name when there is none).
pub fn derive_class_name(spec_name: &str) -> (r: String)
    ensures
        is_name_cut(spec_name@, r@.len() as int),
        r@ == spec_name@.subrange(0, r@.len() as int),
{
    let len: usize = spec_name.unicode_len();
    let mut n: usize = 0;
    while n < len && spec_name.get_char(n) != '_'
        invariant
            n <= len,
            len == spec_name@.len(),
            forall|j: int| 0 <= j < n ==> spec_name@[j] != '_',
        decreases len - n,
    {
        n = n + 1;
    }
    let cut: &str = spec_name.substring_char(0, n);
    String::from_str(cut)
}

/// Decide [`is_dom_like`] on a derived class name.
pub fn check_dom_like(name: &str) -> (b: bool)
    ensures
        b == is_dom_like(name@),
{
    let len: usize = name.unicode_len();
    len >= 3 && name.get_char(0) == 'D' && name.get_char(1) == 'O' && name.get_char(2) == 'M'
}

/// Emit the class descriptor for a schema: the class name derived from the
/// declared name, the reserved-slot count, and the packed flags word.
pub fn make_descriptor(spec_name: &str, reserved_slots: u32) -> (d: ClassDescriptor)
    requires
        reserved_slots <= RESERVED_SLOTS_MASK,
    ensures
        is_name_cut(spec_name@, d.name@.len() as int),
        d.name@ == spec_name@.subrange(0, d.name@.len() as int),
        d.reserved_slots == reserved_slots,
        d.flags == spec_class_flags(reserved_slots, is_dom_like(d.name@)),
{
    let name = derive_class_name(spec_name);
    let dom_like = check_dom_like(name.as_str());
    let flags: u32 = ((reserved_slots & RESERVED_SLOTS_MASK) << RESERVED_SLOTS_SHIFT)
        | CLASS_HAS_PRIVATE | (
        if dom_like {
            CLASS_IS_DOM_LIKE
        } else {
            0u32
        });
    ClassDescriptor { name, reserved_slots, flags }
}

/// The flags word is lossless for the reserved-slot count: the count can be
/// read back out of its bit field.
pub proof fn lemma_flags_encode_reserved(reserved: u32, dom_like: bool)
    requires
        reserved <= RESERVED_SLOTS_MASK,
    ensures
        (spec_class_flags(reserved, dom_like) >> RESERVED_SLOTS_SHIFT) & RESERVED_SLOTS_MASK
            == reserved,
{
    let d: u32 = if dom_like {
        CLASS_IS_DOM_LIKE
    } else {
        0u32
    };
    assert(d == 0 || d == 2) by {
    }
    assert(reserved <= 255 && (d == 0 || d == 2) ==> ((((reserved & 255u32) << 8u32) | 1u32 | d)
        >> 8u32) & 255u32 == reserved) by (bit_vector);
}

} // verus!
