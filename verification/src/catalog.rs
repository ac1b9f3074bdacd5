//! The type catalog: the registry of native types a field may have, with
//! each type's slot width and its marshaling rule.
//!
//! Scalar types occupy one slot and may be duplicated freely.  Reference
//! types occupy one slot; an owned string or a record reference has a
//! single logical owner and must physically move in and out of its slot,
//! while a shared string reference is traced by the host's collector and
//! may be copied.  A composite (dynamic array) occupies three consecutive
//! slots: buffer, length and capacity.

use vstd::prelude::*;

verus! {

/// How many consecutive slots a composite field occupies: one for the
/// backing buffer, one for the length, one for the capacity.
pub const COMPOSITE_WIDTH: u32 = 3;

/// Whether values of a type may be duplicated when read out of a slot.
#[derive(Clone, Copy, Debug, PartialEq, Eq, Structural)]
pub enum Policy {
    /// Reading leaves the slot unchanged and returns a copy.
    Copyable,
    /// A value has one live owner; reading transfers ownership out of the
    /// slot and leaves the empty sentinel behind.
    MoveOnly,
}

/// A field's native type, as the schema names it.
#[derive(Debug, PartialEq, Eq)]
pub enum TypeRef {
    /// Inline boolean.
    Bool,
    /// Signed 8-bit integer.
    I8,
    /// Unsigned 8-bit integer.
    U8,
    /// Signed 16-bit integer.
    I16,
    /// Unsigned 16-bit integer.
    U16,
    /// Signed 32-bit integer.
    I32,
    /// Unsigned 32-bit integer.
    U32,
    /// Signed 64-bit integer.
    I64,
    /// Unsigned 64-bit integer, carried as a non-negative 64-bit value.
    U64,
    /// Double-precision float, carried as its raw bit pattern.
    Double,
    /// An owned native string; move-only.
    Str,
    /// A host-managed shared string reference; copyable and nullable.
    StrRef,
    /// A reference to a record of an already-registered schema; move-only.
    Class(usize),
    /// A dynamic array of one-slot elements; a composite over three slots.
    Sequence(Box<TypeRef>),
}

/// Slot width of a type: composites take three slots, everything else one.
pub open spec fn spec_width_of(t: TypeRef) -> u32 {
    match t {
        TypeRef::Sequence(_) => COMPOSITE_WIDTH,
        _ => 1u32,
    }
}

/// `widthOf`: the number of consecutive slots a field of type `t` occupies.
pub fn width_of(t: &TypeRef) -> (w: u32)
    ensures
        w == spec_width_of(*t),
        1 <= w <= COMPOSITE_WIDTH,
{
    match t {
        TypeRef::Sequence(_) => COMPOSITE_WIDTH,
        _ => 1,
    }
}

/// Duplication policy of a type: owned strings, record references and
/// composites move; scalars and shared string references copy.
pub open spec fn spec_policy_of(t: TypeRef) -> Policy {
    match t {
        TypeRef::Str => Policy::MoveOnly,
        TypeRef::Class(_) => Policy::MoveOnly,
        TypeRef::Sequence(_) => Policy::MoveOnly,
        _ => Policy::Copyable,
    }
}

/// `conversionRuleOf`, duplication part: whether a field of type `t` may be
/// read by copy or must be moved out of its slot.
pub fn policy_of(t: &TypeRef) -> (p: Policy)
    ensures
        p == spec_policy_of(*t),
{
    match t {
        TypeRef::Str => Policy::MoveOnly,
        TypeRef::Class(_) => Policy::MoveOnly,
        TypeRef::Sequence(_) => Policy::MoveOnly,
        _ => Policy::Copyable,
    }
}

/// A type is resolvable against a catalog that knows `n_classes` schemas:
/// scalar and string types always are; a record reference must name a
/// registered schema; a composite's element must itself be a resolvable
/// one-slot type.
pub open spec fn type_ok(t: TypeRef, n_classes: int) -> bool
    decreases t,
{
    match t {
        TypeRef::Class(c) => c < n_classes,
        TypeRef::Sequence(e) => spec_width_of(*e) == 1 && type_ok(*e, n_classes),
        _ => true,
    }
}

/// Decide [`type_ok`]: whether a field of type `t` can be resolved when
/// `n_classes` schemas are registered.  With `include_self` the schema
/// being compiled counts as resolvable too, so a record may hold
/// references to its own class (a tree node's children, say).
pub fn check_type(t: &TypeRef, n_classes: usize, include_self: bool) -> (b: bool)
    ensures
        b == type_ok(
            *t,
            n_classes as int + if include_self {
                1int
            } else {
                0int
            },
        ),
    decreases *t,
{
    match t {
        TypeRef::Class(c) => if include_self {
            *c <= n_classes
        } else {
            *c < n_classes
        },
        TypeRef::Sequence(e) => {
            let ew = width_of(e);
            ew == 1 && check_type(e, n_classes, include_self)
        },
        _ => true,
    }
}

} // verus!
