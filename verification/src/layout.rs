//! The slot layout resolver and the class registry.
//!
//! Given a schema and the already-resolved layout of its parent, the
//! resolver assigns every own field its slot offset, computes the schema's
//! total slot count and the wider inheritance width a parent exposes to its
//! children, and emits the class descriptor.  Compiled classes live in a
//! [`Registry`], built once before any instance exists and immutable
//! afterwards; a class may only reference classes registered before it, so
//! the parent chain is acyclic by construction.

use vstd::prelude::*;

use crate::catalog::{check_type, spec_width_of, type_ok, width_of, TypeRef};
use crate::descriptor::{make_descriptor, ClassDescriptor, RESERVED_SLOTS_MASK};
use crate::error::Error;
use crate::schema::{check_markers_placed, has_marker, markers_placed, own_part, FieldDef,
    FieldSchema};

verus! {

/// The derived layout of one schema: where its own fields live and how
/// many slots the schema spans.
#[derive(Debug, PartialEq, Eq)]
pub struct SlotLayout {
    /// First slot the schema's own fields may use: 0 for a root, the
    /// parent's inheritance width for a child.
    pub base_offset: u32,
    /// Effective slot offset of each own field, in declaration order.
    pub offsets: Vec<u32>,
    /// The schema's total slot count: base offset plus the widths of all
    /// own fields.
    pub total_slots: u32,
    /// Slots reserved for this schema and its children's exclusive use;
    /// a child starts its own fields here.
    pub inheritance_width: u32,
    /// The inheritance marker's exposed effective index, when the schema
    /// has one: the last slot of the parent's reserved region.
    pub marker_index: Option<u32>,
}

/// One compiled schema: its descriptor, its parent, its own value fields
/// and its resolved layout.
#[derive(Debug, PartialEq, Eq)]
pub struct ClassInfo {
    /// The static metadata handed to the host at class registration.
    pub descriptor: ClassDescriptor,
    /// The parent class, when the schema opened with an inheritance marker.
    pub parent: Option<usize>,
    /// The schema's own value fields, marker excluded, in declaration
    /// order.
    pub own_fields: Vec<FieldDef>,
    /// The resolved slot layout.
    pub layout: SlotLayout,
}

/// The compiled classes, indexed by class id in registration order.
#[derive(Debug, PartialEq, Eq)]
pub struct Registry {
    /// The registered classes; a class only references classes with a
    /// smaller id.
    pub classes: Vec<ClassInfo>,
}

/// Total slot width of the first `j` fields of `fields`.
pub open spec fn sum_widths_upto(fields: Seq<FieldDef>, j: int) -> int
    decreases j,
{
    if j <= 0 {
        0
    } else {
        sum_widths_upto(fields, j - 1) + spec_width_of(fields[j - 1].ty)
    }
}

/// Width sums grow by at least one slot per field: each field occupies at
/// least one slot.
pub proof fn lemma_sum_widths_mono(fields: Seq<FieldDef>, i: int, j: int)
    requires
        0 <= i <= j,
    ensures
        sum_widths_upto(fields, i) + (j - i) <= sum_widths_upto(fields, j),
    decreases j,
{
    if i < j {
        lemma_sum_widths_mono(fields, i, j - 1);
    }
}

impl Registry {
    /// Well-formedness of one registered class: its parent (if any) is an
    /// earlier class and supplies the base offset, every own field sits at
    /// the base offset plus the widths of the fields before it, the total
    /// and inheritance widths follow the resolver's rules and fit the
    /// host's reserved-slot flag, every field type resolves against the
    /// classes registered earlier, and the descriptor records the
    /// inheritance width as the reserved-slot count.
    pub open spec fn class_wf(self, c: int) -> bool {
        let info = self.classes@[c];
        let own = info.own_fields@;
        let lay = info.layout;
        &&& match info.parent {
            Some(p) => {
                &&& p < c
                &&& lay.base_offset == self.classes@[p as int].layout.inheritance_width
                &&& lay.base_offset >= 1
                &&& lay.marker_index == Some((lay.base_offset - 1) as u32)
            },
            None => lay.base_offset == 0 && lay.marker_index is None,
        }
        &&& lay.offsets@.len() == own.len()
        &&& forall|j: int|
            0 <= j < own.len() ==> #[trigger] lay.offsets@[j] == lay.base_offset
                + sum_widths_upto(own, j)
        &&& lay.total_slots == lay.base_offset + sum_widths_upto(own, own.len() as int)
        &&& lay.inheritance_width == if info.parent is None && own.len() == 0 {
            1u32
        } else {
            lay.total_slots
        }
        &&& 1 <= lay.inheritance_width <= RESERVED_SLOTS_MASK
        &&& lay.total_slots <= RESERVED_SLOTS_MASK
        &&& forall|j: int|
            0 <= j < own.len() ==> type_ok((#[trigger] own[j]).ty, c + 1) && !own[j].inherit
        &&& info.descriptor.reserved_slots == lay.inheritance_width
    }

    /// Every registered class is well formed.
    pub open spec fn wf(self) -> bool {
        forall|c: int| 0 <= c < self.classes@.len() ==> #[trigger] self.class_wf(c)
    }

    /// An empty registry, ready for the first schema.
    pub fn new() -> (reg: Registry)
        ensures
            reg.classes@.len() == 0,
            reg.wf(),
    {
        Registry { classes: Vec::new() }
    }
}

/// Declared field count of class `c`, inherited fields included.
pub open spec fn spec_num_fields(reg: Registry, c: int) -> int
    decreases c,
{
    if 0 <= c < reg.classes@.len() {
        let info = reg.classes@[c];
        let own = info.own_fields@.len() as int;
        match info.parent {
            Some(p) => if p < c {
                own + spec_num_fields(reg, p as int)
            } else {
                own
            },
            None => own,
        }
    } else {
        0
    }
}

/// Field count contributed by the parent of class `c`: the count a child's
/// flat field indices are shifted by.
pub open spec fn spec_parent_count(reg: Registry, c: int) -> int {
    if 0 <= c < reg.classes@.len() {
        match reg.classes@[c].parent {
            Some(p) => spec_num_fields(reg, p as int),
            None => 0,
        }
    } else {
        0
    }
}

/// The native type of flat field `i` of class `c` (inherited fields first,
/// then own fields, in declaration order).
pub open spec fn flat_ty(reg: Registry, c: int, i: int) -> TypeRef
    decreases c,
{
    if 0 <= c < reg.classes@.len() {
        let info = reg.classes@[c];
        match info.parent {
            Some(p) => if p < c && i < spec_num_fields(reg, p as int) {
                flat_ty(reg, p as int, i)
            } else if p < c {
                info.own_fields@[i - spec_num_fields(reg, p as int)].ty
            } else {
                info.own_fields@[i].ty
            },
            None => info.own_fields@[i].ty,
        }
    } else {
        TypeRef::Bool
    }
}

/// The effective slot offset of flat field `i` of class `c`.
pub open spec fn flat_off(reg: Registry, c: int, i: int) -> int
    decreases c,
{
    if 0 <= c < reg.classes@.len() {
        let info = reg.classes@[c];
        match info.parent {
            Some(p) => if p < c && i < spec_num_fields(reg, p as int) {
                flat_off(reg, p as int, i)
            } else if p < c {
                info.layout.offsets@[i - spec_num_fields(reg, p as int)] as int
            } else {
                info.layout.offsets@[i] as int
            },
            None => info.layout.offsets@[i] as int,
        }
    } else {
        0
    }
}

/// Whether class `sub` is `sup` itself or one of its descendants along the
/// parent chain.
pub open spec fn spec_extends(reg: Registry, sub: int, sup: int) -> bool
    decreases sub,
{
    sub == sup || (0 <= sub < reg.classes@.len() && match reg.classes@[sub].parent {
        Some(p) => p < sub && spec_extends(reg, p as int, sup),
        None => false,
    })
}

/// A field list never has more fields than slots.
pub proof fn lemma_count_le_width(fields: Seq<FieldDef>, j: int)
    requires
        0 <= j,
    ensures
        j <= sum_widths_upto(fields, j),
{
    lemma_sum_widths_mono(fields, 0, j);
}

/// A class has no more declared fields than total slots; in particular the
/// field count fits the reserved-slot bound.
pub proof fn lemma_num_fields_bound(reg: Registry, c: int)
    requires
        reg.wf(),
        0 <= c < reg.classes@.len(),
    ensures
        0 <= spec_num_fields(reg, c) <= reg.classes@[c].layout.total_slots,
    decreases c,
{
    assert(reg.class_wf(c));
    let info = reg.classes@[c];
    let own = info.own_fields@;
    lemma_count_le_width(own, own.len() as int);
    match info.parent {
        Some(p) => {
            lemma_num_fields_bound(reg, p as int);
            assert(reg.class_wf(p as int));
        },
        None => {},
    }
}

/// Every flat field's slot range lies inside its class's total slot count.
pub proof fn lemma_field_in_total(reg: Registry, c: int, i: int)
    requires
        reg.wf(),
        0 <= c < reg.classes@.len(),
        0 <= i < spec_num_fields(reg, c),
    ensures
        0 <= flat_off(reg, c, i),
        flat_off(reg, c, i) + spec_width_of(flat_ty(reg, c, i)) <= reg.classes@[c].layout.total_slots,
    decreases c,
{
    assert(reg.class_wf(c));
    let info = reg.classes@[c];
    let own = info.own_fields@;
    let pc = spec_parent_count(reg, c);
    lemma_sum_widths_mono(own, 0, own.len() as int);
    match info.parent {
        Some(p) => {
            assert(reg.class_wf(p as int));
            if i < pc {
                lemma_field_in_total(reg, p as int, i);
                assert(reg.classes@[p as int].layout.total_slots
                    <= reg.classes@[p as int].layout.inheritance_width);
            } else {
                let j = i - pc;
                lemma_num_fields_bound(reg, p as int);
                assert(0 <= j < own.len());
                lemma_sum_widths_mono(own, j + 1, own.len() as int);
            }
        },
        None => {
            lemma_sum_widths_mono(own, i + 1, own.len() as int);
        },
    }
}

/// Layout disjointness, ordered form: a field's slot range ends before the
/// next field's begins, inherited fields included.
pub proof fn lemma_fields_ordered(reg: Registry, c: int, i: int, j: int)
    requires
        reg.wf(),
        0 <= c < reg.classes@.len(),
        0 <= i < j < spec_num_fields(reg, c),
    ensures
        flat_off(reg, c, i) + spec_width_of(flat_ty(reg, c, i)) <= flat_off(reg, c, j),
    decreases c,
{
    assert(reg.class_wf(c));
    let info = reg.classes@[c];
    let own = info.own_fields@;
    let pc = spec_parent_count(reg, c);
    match info.parent {
        Some(p) => {
            assert(reg.class_wf(p as int));
            if j < pc {
                lemma_fields_ordered(reg, p as int, i, j);
            } else if i < pc {
                // `i` is inherited, `j` is an own field: the parent's fields
                // end inside the parent's reserved region, own fields start
                // at the base offset.
                lemma_field_in_total(reg, p as int, i);
                lemma_num_fields_bound(reg, p as int);
                lemma_sum_widths_mono(own, 0, j - pc);
            } else {
                lemma_num_fields_bound(reg, p as int);
                lemma_sum_widths_mono(own, i - pc + 1, j - pc);
            }
        },
        None => {
            lemma_sum_widths_mono(own, i + 1, j);
        },
    }
}

/// Layout disjointness: distinct fields of one schema, inherited ones
/// included, occupy disjoint slot ranges.
pub proof fn lemma_layout_disjoint(reg: Registry, c: int, i: int, j: int)
    requires
        reg.wf(),
        0 <= c < reg.classes@.len(),
        0 <= i < spec_num_fields(reg, c),
        0 <= j < spec_num_fields(reg, c),
        i != j,
    ensures
        flat_off(reg, c, i) + spec_width_of(flat_ty(reg, c, i)) <= flat_off(reg, c, j)
            || flat_off(reg, c, j) + spec_width_of(flat_ty(reg, c, j)) <= flat_off(reg, c, i),
{
    if i < j {
        lemma_fields_ordered(reg, c, i, j);
    } else {
        lemma_fields_ordered(reg, c, j, i);
    }
}

/// Inheritance monotonicity: a child's base offset equals its parent's
/// inheritance width, and every own field of the child starts at or after
/// it.
pub proof fn lemma_inheritance_monotonic(reg: Registry, c: int)
    requires
        reg.wf(),
        0 <= c < reg.classes@.len(),
        reg.classes@[c].parent is Some,
    ensures
        reg.classes@[c].layout.base_offset == reg.classes@[
            reg.classes@[c].parent->0 as int
        ].layout.inheritance_width,
        forall|i: int|
            spec_parent_count(reg, c) <= i < spec_num_fields(reg, c) ==> #[trigger] flat_off(
                reg,
                c,
                i,
            ) >= reg.classes@[c].layout.base_offset,
{
    assert(reg.class_wf(c));
    let p = reg.classes@[c].parent->0 as int;
    assert(reg.class_wf(p));
    let pc = spec_parent_count(reg, c);
    let own = reg.classes@[c].own_fields@;
    assert forall|i: int| pc <= i < spec_num_fields(reg, c) implies #[trigger] flat_off(reg, c, i)
        >= reg.classes@[c].layout.base_offset by {
        lemma_num_fields_bound(reg, p);
        lemma_sum_widths_mono(own, 0, i - pc);
    }
}

/// Over a three-level chain the reserved widths compound: the grandchild's
/// own fields start at or after everything the middle class reserved,
/// which itself contains everything the root reserved.
pub proof fn lemma_three_level_chain(reg: Registry, a: usize, b: usize, c: usize)
    requires
        reg.wf(),
        c < reg.classes@.len(),
        reg.classes@[c as int].parent == Some(b),
        b < reg.classes@.len(),
        reg.classes@[b as int].parent == Some(a),
        a < reg.classes@.len(),
    ensures
        forall|i: int|
            spec_parent_count(reg, c as int) <= i < spec_num_fields(reg, c as int)
                ==> #[trigger] flat_off(reg, c as int, i) >= reg.classes@[
                b as int
            ].layout.inheritance_width,
        reg.classes@[b as int].layout.inheritance_width >= reg.classes@[
            a as int
        ].layout.inheritance_width,
{
    lemma_inheritance_monotonic(reg, c as int);
    assert(reg.class_wf(c as int));
    assert(reg.class_wf(b as int));
    assert(reg.classes@[c as int].layout.base_offset == reg.classes@[
        b as int
    ].layout.inheritance_width);
    let bown = reg.classes@[b as int].own_fields@;
    lemma_sum_widths_mono(bown, 0, bown.len() as int);
    assert(reg.classes@[b as int].layout.inheritance_width == reg.classes@[
        b as int
    ].layout.total_slots);
}

/// Declared field count of class `c`, inherited fields included.
pub fn num_fields(reg: &Registry, c: usize) -> (n: u32)
    requires
        reg.wf(),
        c < reg.classes@.len(),
    ensures
        n == spec_num_fields(*reg, c as int),
        n <= RESERVED_SLOTS_MASK,
    decreases c,
{
    proof {
        assert(reg.class_wf(c as int));
        lemma_num_fields_bound(*reg, c as int);
        lemma_count_le_width(reg.classes@[c as int].own_fields@, reg.classes@[
            c as int
        ].own_fields@.len() as int);
    }
    let own: usize = reg.classes[c].own_fields.len();
    match reg.classes[c].parent {
        Some(p) => {
            proof {
                lemma_num_fields_bound(*reg, p as int);
            }
            let pn = num_fields(reg, p);
            pn + (own as u32)
        },
        None => own as u32,
    }
}

/// `inheritanceWidthOf`: the slot count a type reserves when it stands as
/// a parent.  It defaults to the type's slot width, except for a
/// schema-generated type, where it is that schema's computed inheritance
/// width.
pub open spec fn spec_inheritance_width_of(reg: Registry, t: TypeRef) -> int {
    match t {
        TypeRef::Class(c) => reg.classes@[c as int].layout.inheritance_width as int,
        _ => spec_width_of(t) as int,
    }
}

/// Decide [`spec_inheritance_width_of`] for a resolvable type.
pub fn inheritance_width_of(reg: &Registry, t: &TypeRef) -> (w: u32)
    requires
        reg.wf(),
        type_ok(*t, reg.classes@.len() as int),
    ensures
        w == spec_inheritance_width_of(*reg, *t),
{
    match t {
        TypeRef::Class(c) => reg.classes[*c].layout.inheritance_width,
        _ => width_of(t),
    }
}

/// The native type of flat field `i` of class `c`, looked up through the
/// parent chain.
pub fn field_ty<'a>(reg: &'a Registry, c: usize, i: usize) -> (t: &'a TypeRef)
    requires
        reg.wf(),
        c < reg.classes@.len(),
        i < spec_num_fields(*reg, c as int),
    ensures
        *t == flat_ty(*reg, c as int, i as int),
    decreases c,
{
    proof {
        assert(reg.class_wf(c as int));
    }
    match reg.classes[c].parent {
        Some(p) => {
            let pf = num_fields(reg, p);
            if i < pf as usize {
                field_ty(reg, p, i)
            } else {
                &reg.classes[c].own_fields[i - pf as usize].ty
            }
        },
        None => &reg.classes[c].own_fields[i].ty,
    }
}

/// The effective slot offset of flat field `i` of class `c`, looked up
/// through the parent chain.
pub fn field_offset(reg: &Registry, c: usize, i: usize) -> (off: u32)
    requires
        reg.wf(),
        c < reg.classes@.len(),
        i < spec_num_fields(*reg, c as int),
    ensures
        off == flat_off(*reg, c as int, i as int),
    decreases c,
{
    proof {
        assert(reg.class_wf(c as int));
    }
    match reg.classes[c].parent {
        Some(p) => {
            let pf = num_fields(reg, p);
            if i < pf as usize {
                field_offset(reg, p, i)
            } else {
                reg.classes[c].layout.offsets[i - pf as usize]
            }
        },
        None => reg.classes[c].layout.offsets[i],
    }
}

/// Whether class `sub` is `sup` itself or a descendant of it.
pub fn extends(reg: &Registry, sub: usize, sup: usize) -> (b: bool)
    requires
        reg.wf(),
    ensures
        b == spec_extends(*reg, sub as int, sup as int),
    decreases sub,
{
    if sub == sup {
        return true;
    }
    if sub >= reg.classes.len() {
        return false;
    }
    proof {
        assert(reg.class_wf(sub as int));
    }
    match reg.classes[sub].parent {
        Some(p) => extends(reg, p, sup),
        None => false,
    }
}

/// Reserved widths only grow down an inheritance chain: a descendant
/// reserves at least as many slots as any of its ancestors.
pub proof fn lemma_extends_width(reg: Registry, sub: int, sup: int)
    requires
        reg.wf(),
        spec_extends(reg, sub, sup),
        0 <= sub < reg.classes@.len(),
    ensures
        0 <= sup < reg.classes@.len(),
        reg.classes@[sub].layout.inheritance_width >= reg.classes@[
            sup
        ].layout.inheritance_width,
    decreases sub,
{
    if sub != sup {
        assert(reg.class_wf(sub));
        let p = reg.classes@[sub].parent->0 as int;
        lemma_extends_width(reg, p, sup);
        let own = reg.classes@[sub].own_fields@;
        lemma_sum_widths_mono(own, 0, own.len() as int);
    }
}

/// A descendant sees every flat field of its ancestor, at the same
/// offset, with the same type, among its own flat fields.
pub proof fn lemma_flat_extends(reg: Registry, a: int, c: int, i: int)
    requires
        reg.wf(),
        spec_extends(reg, a, c),
        0 <= a < reg.classes@.len(),
        0 <= i < spec_num_fields(reg, c),
    ensures
        spec_num_fields(reg, c) <= spec_num_fields(reg, a),
        flat_ty(reg, a, i) == flat_ty(reg, c, i),
        flat_off(reg, a, i) == flat_off(reg, c, i),
    decreases a,
{
    if a != c {
        assert(reg.class_wf(a));
        let p = reg.classes@[a].parent->0 as int;
        lemma_flat_extends(reg, p, c, i);
    }
}

/// Extension is transitive along the parent chain.
pub proof fn lemma_extends_trans(reg: Registry, a: int, b: int, c: int)
    requires
        spec_extends(reg, a, b),
        spec_extends(reg, b, c),
    ensures
        spec_extends(reg, a, c),
    decreases a,
{
    if a != b {
        let p = reg.classes@[a].parent->0 as int;
        lemma_extends_trans(reg, p, b, c);
    }
}

/// Types valid for some registry stay valid when more classes are added.
pub proof fn lemma_type_ok_mono(t: TypeRef, n: int, m: int)
    requires
        type_ok(t, n),
        n <= m,
    ensures
        type_ok(t, m),
    decreases t,
{
    match t {
        TypeRef::Sequence(e) => lemma_type_ok_mono(*e, n, m),
        _ => {},
    }
}

/// All own field types of `fields` resolve against `n` registered classes.
pub open spec fn fields_types_ok(fields: Seq<FieldDef>, n: int) -> bool {
    forall|i: int| 0 <= i < fields.len() ==> type_ok((#[trigger] fields[i]).ty, n)
}

/// The base offset a schema would resolve to: the parent's inheritance
/// width when the schema opens with a marker naming a registered class,
/// zero otherwise.
pub open spec fn spec_new_base(reg: Registry, fields: Seq<FieldDef>) -> int {
    if has_marker(fields) {
        match fields[0].ty {
            TypeRef::Class(p) => reg.classes@[p as int].layout.inheritance_width as int,
            _ => 0,
        }
    } else {
        0
    }
}

/// The total slot count a schema would resolve to.
pub open spec fn spec_new_total(reg: Registry, fields: Seq<FieldDef>) -> int {
    spec_new_base(reg, fields) + sum_widths_upto(own_part(fields), own_part(fields).len() as int)
}

/// What registering `schema` against `reg` must produce, checks in order:
/// marker placement and shape, then the parent, then each own field's
/// type, then the width bound; the new class id on success.
pub open spec fn register_outcome(reg: Registry, schema: FieldSchema) -> Result<usize, Error> {
    let fields = schema.fields@;
    let n = reg.classes@.len() as int;
    if !markers_placed(fields) {
        Err(Error::SchemaMalformed)
    } else if has_marker(fields) && !(fields[0].ty is Class) {
        Err(Error::SchemaMalformed)
    } else if has_marker(fields) && !type_ok(fields[0].ty, n) {
        Err(Error::UnknownType)
    } else if !fields_types_ok(own_part(fields), n + 1) {
        Err(Error::UnknownType)
    } else if spec_new_total(reg, fields) > RESERVED_SLOTS_MASK {
        Err(Error::SchemaMalformed)
    } else {
        Ok(reg.classes@.len() as usize)
    }
}

/// Compile `schema` against the already-registered classes and append the
/// resulting class: resolve the base offset from the parent's inheritance
/// width, walk the own fields accumulating offsets, derive the total and
/// inheritance widths, and emit the descriptor.
#[verifier::loop_isolation(false)]
pub fn register(reg: &mut Registry, schema: FieldSchema) -> (r: Result<usize, Error>)
    requires
        old(reg).wf(),
    ensures
        final(reg).wf(),
        r == register_outcome(*old(reg), schema),
        r is Err ==> *final(reg) == *old(reg),
        r matches Ok(id) ==> {
            let info = final(reg).classes@[id as int];
            let fields = schema.fields@;
            &&& id == old(reg).classes@.len()
            &&& final(reg).classes@.len() == id + 1
            &&& forall|k: int|
                0 <= k < id ==> final(reg).classes@[k] == old(reg).classes@[k]
            &&& info.own_fields@ == own_part(fields)
            &&& info.parent == (if has_marker(fields) {
                Some(fields[0].ty->Class_0)
            } else {
                None::<usize>
            })
            &&& info.layout.base_offset == spec_new_base(*old(reg), fields)
            &&& info.layout.total_slots == spec_new_total(*old(reg), fields)
            &&& info.layout.inheritance_width == (if !has_marker(fields) && own_part(
                fields,
            ).len() == 0 {
                1int
            } else {
                spec_new_total(*old(reg), fields)
            })
            &&& info.descriptor.reserved_slots == info.layout.inheritance_width
            &&& info.descriptor.name@ == schema.spec_name@.subrange(
                0,
                info.descriptor.name@.len() as int,
            )
        },
{
    let FieldSchema { spec_name, mut fields } = schema;
    let n_classes: usize = reg.classes.len();
    if !check_markers_placed(&fields) {
        return Err(Error::SchemaMalformed);
    }
    let ghost all_fields = fields@;
    let mut parent: Option<usize> = None;
    let mut base: u32 = 0;
    let mut marker_index: Option<u32> = None;
    if fields.len() > 0 && fields[0].inherit {
        let p: usize = match &fields[0].ty {
            TypeRef::Class(p) => *p,
            _ => {
                return Err(Error::SchemaMalformed);
            },
        };
        if p >= n_classes {
            return Err(Error::UnknownType);
        }
        proof {
            assert(reg.class_wf(p as int));
        }
        parent = Some(p);
        base = reg.classes[p].layout.inheritance_width;
        marker_index = Some(base - 1);
        fields.remove(0);
        proof {
            assert(fields@ =~= own_part(all_fields));
        }
    }
    proof {
        assert(fields@ =~= own_part(all_fields));
    }
    let mut j: usize = 0;
    while j < fields.len()
        invariant
            forall|k: int|
                0 <= k < j ==> type_ok((#[trigger] fields@[k]).ty, n_classes as int + 1),
            j <= fields@.len(),
        decreases fields@.len() - j,
    {
        if !check_type(&fields[j].ty, n_classes, true) {
            return Err(Error::UnknownType);
        }
        j = j + 1;
    }
    let mut offsets: Vec<u32> = Vec::new();
    let mut off: u32 = base;
    j = 0;
    while j < fields.len()
        invariant
            j <= fields@.len(),
            off == base + sum_widths_upto(fields@, j as int),
            off <= RESERVED_SLOTS_MASK,
            offsets@.len() == j,
            forall|k: int|
                0 <= k < j ==> #[trigger] offsets@[k] == base + sum_widths_upto(fields@, k),
            base == spec_new_base(*old(reg), all_fields),
            fields@ == own_part(all_fields),
        decreases fields@.len() - j,
    {
        let w = width_of(&fields[j].ty);
        if off + w > RESERVED_SLOTS_MASK {
            proof {
                lemma_sum_widths_mono(fields@, j + 1, fields@.len() as int);
            }
            return Err(Error::SchemaMalformed);
        }
        offsets.push(off);
        off = off + w;
        j = j + 1;
    }
    let total: u32 = off;
    proof {
        lemma_count_le_width(fields@, fields@.len() as int);
    }
    let iw: u32 = if parent.is_none() && fields.len() == 0 {
        1
    } else {
        total
    };
    let descriptor = make_descriptor(spec_name.as_str(), iw);
    let info = ClassInfo {
        descriptor,
        parent,
        own_fields: fields,
        layout: SlotLayout { base_offset: base, offsets, total_slots: total, inheritance_width: iw, marker_index },
    };
    reg.classes.push(info);
    proof {
        let r = *reg;
        assert forall|c: int| 0 <= c < r.classes@.len() implies #[trigger] r.class_wf(c) by {
            if c < old(reg).classes@.len() {
                assert(old(reg).class_wf(c));
            }
        }
    }
    Ok(n_classes)
}

} // verus!
