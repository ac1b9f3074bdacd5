//! Schema declarations: the input to the layout compiler.
//!
//! A field schema is an ordered sequence of named, typed fields.  The first
//! field may carry the inheritance marker; its type then names the parent
//! schema, and the record starts its own fields after the slots the parent
//! reserved.  A marker anywhere else, or a second marker, makes the schema
//! malformed.

use vstd::prelude::*;

use crate::catalog::TypeRef;

verus! {

/// One declared field: its name, its native type, and whether it is the
/// inheritance marker.
#[derive(Debug, PartialEq, Eq)]
pub struct FieldDef {
    /// The field's declared name.
    pub name: String,
    /// The field's native type; for the inheritance marker, the parent
    /// schema's type.
    pub ty: TypeRef,
    /// Whether this field is the inheritance marker.
    pub inherit: bool,
}

/// A declared record schema: its declared name (the class name is derived
/// from it) and its ordered fields.
#[derive(Debug, PartialEq, Eq)]
pub struct FieldSchema {
    /// The declared schema name; everything before its first underscore
    /// becomes the class name.
    pub spec_name: String,
    /// The ordered field list, possibly led by the inheritance marker.
    pub fields: Vec<FieldDef>,
}

/// Marker placement is sound: no field after position 0 carries the
/// inheritance marker.
pub open spec fn markers_placed(fields: Seq<FieldDef>) -> bool {
    forall|i: int| 1 <= i < fields.len() ==> !fields[i].inherit
}

/// Whether the schema opens with the inheritance marker.
pub open spec fn has_marker(fields: Seq<FieldDef>) -> bool {
    fields.len() > 0 && fields[0].inherit
}

/// The schema's own value fields: everything after the marker when one is
/// present, the whole list otherwise.
pub open spec fn own_part(fields: Seq<FieldDef>) -> Seq<FieldDef> {
    if has_marker(fields) {
        fields.drop_first()
    } else {
        fields
    }
}

/// Decide [`markers_placed`]: scan every position after the first for a
/// stray inheritance marker.
pub fn check_markers_placed(fields: &Vec<FieldDef>) -> (b: bool)
    ensures
        b == markers_placed(fields@),
{
    let mut i: usize = 1;
    while i < fields.len()
        invariant
            1 <= i,
            forall|j: int| 1 <= j < i ==> !fields@[j].inherit,
        decreases fields@.len() - i,
    {
        if fields[i].inherit {
            return false;
        }
        i = i + 1;
    }
    true
}

} // verus!
