//! The DOM-flavoured schemas the generator is exercised with: geometry
//! points and quads, and a small node/attribute/element hierarchy.
//!
//! Each builder returns the declared schema; registering them in order
//! (each parent before its child, `Attr` before `Element`) yields the
//! canonical class ids the flat field indices below refer to.

use vstd::prelude::*;

use crate::catalog::TypeRef;
use crate::element::{attr_schema_shape, element_schema_shape};
use crate::error::Error;
use crate::layout::{flat_ty, register, spec_num_fields, Registry};
use crate::schema::{FieldDef, FieldSchema};

verus! {

/// Flat index of `Node.node_type`.
pub const NODE_TYPE_INDEX: usize = 0;

/// Flat index of `Node.node_name`.
pub const NODE_NAME_INDEX: usize = 1;

/// Flat index of `Node.base_uri`.
pub const BASE_URI_INDEX: usize = 2;

/// Flat index of `Node.is_connected`.
pub const IS_CONNECTED_INDEX: usize = 3;

/// Flat index of `Node.node_value`.
pub const NODE_VALUE_INDEX: usize = 4;

/// Flat index of `Node.text_content`.
pub const TEXT_CONTENT_INDEX: usize = 5;

/// Flat index of `Node.child_nodes`, the composite child list.
pub const CHILD_NODES_INDEX: usize = 6;

/// Declared field count of `Node`.
pub const NODE_FIELDS: usize = 7;

/// Flat index of `Attr.identifier_local_name`.
pub const ATTR_LOCAL_NAME_INDEX: usize = 7;

/// Flat index of `Attr.identifier_name`.
pub const ATTR_NAME_INDEX: usize = 8;

/// Flat index of `Attr.identifier_namespace`.
pub const ATTR_NAMESPACE_INDEX: usize = 9;

/// Flat index of `Attr.identifier_prefix`.
pub const ATTR_PREFIX_INDEX: usize = 10;

/// Flat index of `Attr.value`.
pub const ATTR_VALUE_INDEX: usize = 11;

/// Declared field count of `Attr`, inherited fields included.
pub const ATTR_FIELDS: usize = 12;

/// Flat index of `Element.local_name`.
pub const ELEMENT_LOCAL_NAME_INDEX: usize = 7;

/// Flat index of `Element.tag_name`.
pub const ELEMENT_TAG_NAME_INDEX: usize = 8;

/// Flat index of `Element.namespace`.
pub const ELEMENT_NAMESPACE_INDEX: usize = 9;

/// Flat index of `Element.prefix`.
pub const ELEMENT_PREFIX_INDEX: usize = 10;

/// Flat index of `Element.id`.
pub const ELEMENT_ID_INDEX: usize = 11;

/// Flat index of `Element.attrs`, the composite attribute list.
pub const ELEMENT_ATTRS_INDEX: usize = 12;

/// Declared field count of `Element`, inherited fields included.
pub const ELEMENT_FIELDS: usize = 13;

/// Declared field count of `HtmlElement`, inherited fields included.
pub const HTMLELEMENT_FIELDS: usize = 23;

/// One non-marker field declaration.
fn field(name: &str, ty: TypeRef) -> (f: FieldDef)
    ensures
        f.ty == ty,
        !f.inherit,
        f.name@ == name@,
{
    FieldDef { name: String::from_str(name), ty, inherit: false }
}

/// The inheritance marker, naming the parent class.
fn inherit_marker(parent: usize) -> (f: FieldDef)
    ensures
        f.ty == TypeRef::Class(parent),
        f.inherit,
{
    FieldDef { name: String::from_str("_inherit"), ty: TypeRef::Class(parent), inherit: true }
}

/// The `Node` schema: scalar and shared-string fields plus the composite
/// `child_nodes` list, whose elements are nodes themselves.
pub fn node_schema(node_class: usize) -> (s: FieldSchema)
    ensures
        s.fields@.len() == NODE_FIELDS,
        s.fields@[0].ty == TypeRef::U16,
        s.fields@[1].ty == TypeRef::StrRef,
        s.fields@[2].ty == TypeRef::StrRef,
        s.fields@[3].ty == TypeRef::Bool,
        s.fields@[4].ty == TypeRef::StrRef,
        s.fields@[5].ty == TypeRef::StrRef,
        s.fields@[6].ty matches TypeRef::Sequence(e) && *e == TypeRef::Class(node_class),
        forall|j: int| 0 <= j < s.fields@.len() ==> !(#[trigger] s.fields@[j]).inherit,
        s.spec_name@ == "Node_struct"@,
{
    let mut fields: Vec<FieldDef> = Vec::new();
    fields.push(field("node_type", TypeRef::U16));
    fields.push(field("node_name", TypeRef::StrRef));
    fields.push(field("base_uri", TypeRef::StrRef));
    fields.push(field("is_connected", TypeRef::Bool));
    fields.push(field("node_value", TypeRef::StrRef));
    fields.push(field("text_content", TypeRef::StrRef));
    fields.push(field("child_nodes", TypeRef::Sequence(Box::new(TypeRef::Class(node_class)))));
    FieldSchema { spec_name: String::from_str("Node_struct"), fields }
}

/// The `Attr` schema: a `Node` child carrying the attribute's qualified
/// name parts and its value.
pub fn attr_schema(node_class: usize) -> (s: FieldSchema)
    ensures
        s.fields@.len() == 6,
        s.fields@[0].ty == TypeRef::Class(node_class) && s.fields@[0].inherit,
        forall|j: int| 1 <= j < s.fields@.len() ==> !(#[trigger] s.fields@[j]).inherit,
        s.fields@[1].ty == TypeRef::StrRef,
        s.fields@[2].ty == TypeRef::StrRef,
        s.fields@[3].ty == TypeRef::StrRef,
        s.fields@[4].ty == TypeRef::StrRef,
        s.fields@[5].ty == TypeRef::StrRef,
        s.spec_name@ == "Attr_spec"@,
{
    let mut fields: Vec<FieldDef> = Vec::new();
    fields.push(inherit_marker(node_class));
    fields.push(field("identifier_local_name", TypeRef::StrRef));
    fields.push(field("identifier_name", TypeRef::StrRef));
    fields.push(field("identifier_namespace", TypeRef::StrRef));
    fields.push(field("identifier_prefix", TypeRef::StrRef));
    fields.push(field("value", TypeRef::StrRef));
    FieldSchema { spec_name: String::from_str("Attr_spec"), fields }
}

/// The `Element` schema: a `Node` child with naming fields and the
/// composite `attrs` list of attribute records.
pub fn element_schema(node_class: usize, attr_class: usize) -> (s: FieldSchema)
    ensures
        s.fields@.len() == 7,
        s.fields@[0].ty == TypeRef::Class(node_class) && s.fields@[0].inherit,
        forall|j: int| 1 <= j < s.fields@.len() ==> !(#[trigger] s.fields@[j]).inherit,
        s.fields@[1].ty == TypeRef::StrRef,
        s.fields@[2].ty == TypeRef::StrRef,
        s.fields@[3].ty == TypeRef::StrRef,
        s.fields@[4].ty == TypeRef::StrRef,
        s.fields@[5].ty == TypeRef::StrRef,
        s.fields@[6].ty matches TypeRef::Sequence(e) && *e == TypeRef::Class(attr_class),
        s.spec_name@ == "Element_spec"@,
{
    let mut fields: Vec<FieldDef> = Vec::new();
    fields.push(inherit_marker(node_class));
    fields.push(field("local_name", TypeRef::StrRef));
    fields.push(field("tag_name", TypeRef::StrRef));
    fields.push(field("namespace", TypeRef::StrRef));
    fields.push(field("prefix", TypeRef::StrRef));
    fields.push(field("id", TypeRef::StrRef));
    fields.push(field("attrs", TypeRef::Sequence(Box::new(TypeRef::Class(attr_class)))));
    FieldSchema { spec_name: String::from_str("Element_spec"), fields }
}

/// The `HtmlElement` schema: an `Element` child with the usual global
/// HTML attributes.
pub fn htmlelement_schema(element_class: usize) -> (s: FieldSchema)
    ensures
        s.fields@.len() == 11,
        s.fields@[0].ty == TypeRef::Class(element_class) && s.fields@[0].inherit,
        forall|j: int| 1 <= j < s.fields@.len() ==> !(#[trigger] s.fields@[j]).inherit,
        s.spec_name@ == "HtmlElement_spec"@,
{
    let mut fields: Vec<FieldDef> = Vec::new();
    fields.push(inherit_marker(element_class));
    fields.push(field("title", TypeRef::StrRef));
    fields.push(field("lang", TypeRef::StrRef));
    fields.push(field("translate", TypeRef::Bool));
    fields.push(field("dir", TypeRef::StrRef));
    fields.push(field("hidden", TypeRef::Bool));
    fields.push(field("tabIndex", TypeRef::I32));
    fields.push(field("accessKey", TypeRef::StrRef));
    fields.push(field("accessKeyLabel", TypeRef::StrRef));
    fields.push(field("draggable", TypeRef::Bool));
    fields.push(field("spellcheck", TypeRef::Bool));
    FieldSchema { spec_name: String::from_str("HtmlElement_spec"), fields }
}

/// The `DOMPointReadOnly` schema: four double coordinates.
pub fn dompointreadonly_schema() -> (s: FieldSchema)
    ensures
        s.fields@.len() == 4,
        forall|j: int|
            0 <= j < s.fields@.len() ==> (#[trigger] s.fields@[j]).ty == TypeRef::Double
                && !s.fields@[j].inherit,
        s.spec_name@ == "DOMPointReadOnly_spec"@,
{
    let mut fields: Vec<FieldDef> = Vec::new();
    fields.push(field("x", TypeRef::Double));
    fields.push(field("y", TypeRef::Double));
    fields.push(field("z", TypeRef::Double));
    fields.push(field("w", TypeRef::Double));
    FieldSchema { spec_name: String::from_str("DOMPointReadOnly_spec"), fields }
}

/// The `DOMPoint` schema: nothing of its own, everything inherited from
/// `DOMPointReadOnly`.
pub fn dompoint_schema(readonly_class: usize) -> (s: FieldSchema)
    ensures
        s.fields@.len() == 1,
        s.fields@[0].ty == TypeRef::Class(readonly_class) && s.fields@[0].inherit,
        s.spec_name@ == "DOMPoint_spec"@,
{
    let mut fields: Vec<FieldDef> = Vec::new();
    fields.push(inherit_marker(readonly_class));
    FieldSchema { spec_name: String::from_str("DOMPoint_spec"), fields }
}

/// The class ids the canonical hierarchy registers under, in order.
#[derive(Clone, Copy, Debug, PartialEq, Eq, Structural)]
pub struct DomClasses {
    /// `Node`.
    pub node: usize,
    /// `Attr`, a `Node` child.
    pub attr: usize,
    /// `Element`, a `Node` child.
    pub element: usize,
    /// `HtmlElement`, an `Element` child.
    pub htmlelement: usize,
    /// `DOMPointReadOnly`.
    pub dompointreadonly: usize,
    /// `DOMPoint`, a `DOMPointReadOnly` child.
    pub dompoint: usize,
    /// `DOMQuad`.
    pub domquad: usize,
}

/// Register the whole canonical hierarchy against a fresh registry, each
/// parent before its child.  On success the classes sit at fixed ids and
/// have the shapes the element and node routines rely on: the attribute
/// identifier fields are shared string references, and the attribute and
/// child lists are composites of the right record class.
pub fn register_dom_classes(reg: &mut Registry) -> (r: Result<DomClasses, Error>)
    requires
        old(reg).wf(),
        old(reg).classes@.len() == 0,
    ensures
        final(reg).wf(),
        r is Ok ==> {
            let ids = r->Ok_0;
            &&& ids.node == 0
            &&& ids.attr == 1
            &&& ids.element == 2
            &&& ids.htmlelement == 3
            &&& ids.dompointreadonly == 4
            &&& ids.dompoint == 5
            &&& ids.domquad == 6
            &&& final(reg).classes@.len() == 7
            &&& spec_num_fields(*final(reg), 0) == NODE_FIELDS
            &&& spec_num_fields(*final(reg), 1) == ATTR_FIELDS
            &&& spec_num_fields(*final(reg), 2) == ELEMENT_FIELDS
            &&& spec_num_fields(*final(reg), 3) == HTMLELEMENT_FIELDS
            &&& flat_ty(*final(reg), 0, CHILD_NODES_INDEX as int) matches TypeRef::Sequence(e)
                && *e == TypeRef::Class(0usize)
            &&& attr_schema_shape(*final(reg), 1)
            &&& element_schema_shape(*final(reg), 2, 1)
            &&& element_schema_shape(*final(reg), 3, 1)
        },
{
    let node = match register(reg, node_schema(0)) {
        Ok(c) => c,
        Err(e) => {
            return Err(e);
        },
    };
    let ghost reg1 = *reg;
    let attr = match register(reg, attr_schema(node)) {
        Ok(c) => c,
        Err(e) => {
            return Err(e);
        },
    };
    let ghost reg2 = *reg;
    let element = match register(reg, element_schema(node, attr)) {
        Ok(c) => c,
        Err(e) => {
            return Err(e);
        },
    };
    let ghost reg3 = *reg;
    let htmlelement = match register(reg, htmlelement_schema(element)) {
        Ok(c) => c,
        Err(e) => {
            return Err(e);
        },
    };
    let ghost reg4 = *reg;
    let dompointreadonly = match register(reg, dompointreadonly_schema()) {
        Ok(c) => c,
        Err(e) => {
            return Err(e);
        },
    };
    let ghost reg5 = *reg;
    let dompoint = match register(reg, dompoint_schema(dompointreadonly)) {
        Ok(c) => c,
        Err(e) => {
            return Err(e);
        },
    };
    let ghost reg6 = *reg;
    let domquad = match register(reg, domquad_schema(dompoint)) {
        Ok(c) => c,
        Err(e) => {
            return Err(e);
        },
    };
    proof {
        let r = *reg;
        assert(r.classes@[0] == reg1.classes@[0]);
        assert(r.classes@[1] == reg2.classes@[1]);
        assert(r.classes@[2] == reg3.classes@[2]);
        assert(r.classes@[3] == reg4.classes@[3]);
        assert(spec_num_fields(r, 0) == 7);
        assert(spec_num_fields(r, 1) == 12);
        assert(spec_num_fields(r, 2) == 13);
        assert(spec_num_fields(r, 3) == 23);
        assert(r.classes@[0].own_fields@[CHILD_NODES_INDEX as int].ty matches TypeRef::Sequence(e)
            && *e == TypeRef::Class(0usize));
        assert(attr_schema_shape(r, 1));
        assert(element_schema_shape(r, 2, 1));
        assert(element_schema_shape(r, 3, 1));
    }
    Ok(
        DomClasses {
            node,
            attr,
            element,
            htmlelement,
            dompointreadonly,
            dompoint,
            domquad,
        },
    )
}

/// The `DOMQuad` schema: four point references.
pub fn domquad_schema(point_class: usize) -> (s: FieldSchema)
    ensures
        s.fields@.len() == 4,
        forall|j: int|
            0 <= j < s.fields@.len() ==> (#[trigger] s.fields@[j]).ty == TypeRef::Class(
                point_class,
            ) && !s.fields@[j].inherit,
        s.spec_name@ == "DOMQuad_spec"@,
{
    let mut fields: Vec<FieldDef> = Vec::new();
    fields.push(field("p1", TypeRef::Class(point_class)));
    fields.push(field("p2", TypeRef::Class(point_class)));
    fields.push(field("p3", TypeRef::Class(point_class)));
    fields.push(field("p4", TypeRef::Class(point_class)));
    FieldSchema { spec_name: String::from_str("DOMQuad_spec"), fields }
}

} // verus!
