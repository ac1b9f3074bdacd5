//! The managed object store: the host side of the generated code, modelled
//! as indexed slot storage.
//!
//! Every instance of a generated class is one object in the store: its
//! class id plus a fixed run of slots, sized by the class descriptor's
//! reserved-slot count.  A handle is the object's index.  The store only
//! grows; an object's class and slot count never change, which is what the
//! generated accessors rely on.

use vstd::prelude::*;

use crate::catalog::TypeRef;
use crate::error::Error;
use crate::layout::{extends, flat_off, flat_ty, spec_extends, spec_num_fields, Registry};
use crate::value::{value_like, Item, Value};

verus! {

/// One host-allocated object: its class and its reserved slots.
#[derive(Debug, PartialEq, Eq)]
pub struct HostObject {
    /// The class the object was allocated with; immutable.
    pub class: usize,
    /// The object's reserved slots, sized by the class descriptor.
    pub slots: Vec<Value>,
}

/// The managed object store: all allocated objects, and the allocation
/// budget the host grants before it reports failure.
#[derive(Debug, PartialEq, Eq)]
pub struct ObjectStore {
    /// The allocated objects; a handle is an index into this sequence.
    pub objects: Vec<HostObject>,
    /// How many objects the host will allocate in all.
    pub capacity: usize,
}

/// Whether buffer element `it` is a value of element type `ty` against the
/// given registry and objects: integers must lie in their type's range, a
/// shared string reference may be null, and a record reference must point
/// at an allocated object whose class extends the named one.
pub open spec fn spec_item_matches(
    reg: Registry,
    objects: Seq<HostObject>,
    it: Item,
    ty: TypeRef,
) -> bool {
    match ty {
        TypeRef::Bool => it is Bool,
        TypeRef::I8 => it matches Item::Int(i) && i8::MIN <= i <= i8::MAX,
        TypeRef::U8 => it matches Item::Int(i) && 0 <= i <= u8::MAX,
        TypeRef::I16 => it matches Item::Int(i) && i16::MIN <= i <= i16::MAX,
        TypeRef::U16 => it matches Item::Int(i) && 0 <= i <= u16::MAX,
        TypeRef::I32 => it matches Item::Int(i) && i32::MIN <= i <= i32::MAX,
        TypeRef::U32 => it matches Item::Int(i) && 0 <= i <= u32::MAX,
        TypeRef::I64 => it is Int,
        TypeRef::U64 => it matches Item::Int(i) && i >= 0,
        TypeRef::Double => it is Double,
        TypeRef::Str => it is Str,
        TypeRef::StrRef => it is Str || it is Null,
        TypeRef::Class(c) => it matches Item::Obj(h) && h < objects.len() && spec_extends(
            reg,
            objects[h as int].class as int,
            c as int,
        ),
        TypeRef::Sequence(_) => false,
    }
}

/// Whether generic value `v` converts to a field of type `ty`: scalar and
/// reference values as for buffer elements; a composite takes a buffer
/// whose elements all convert to the element type and whose length fits a
/// slot's integral cell.
pub open spec fn spec_value_matches(
    reg: Registry,
    objects: Seq<HostObject>,
    v: Value,
    ty: TypeRef,
) -> bool {
    match ty {
        TypeRef::Bool => v is Bool,
        TypeRef::I8 => v matches Value::Int(i) && i8::MIN <= i <= i8::MAX,
        TypeRef::U8 => v matches Value::Int(i) && 0 <= i <= u8::MAX,
        TypeRef::I16 => v matches Value::Int(i) && i16::MIN <= i <= i16::MAX,
        TypeRef::U16 => v matches Value::Int(i) && 0 <= i <= u16::MAX,
        TypeRef::I32 => v matches Value::Int(i) && i32::MIN <= i <= i32::MAX,
        TypeRef::U32 => v matches Value::Int(i) && 0 <= i <= u32::MAX,
        TypeRef::I64 => v is Int,
        TypeRef::U64 => v matches Value::Int(i) && i >= 0,
        TypeRef::Double => v is Double,
        TypeRef::Str => v is Str,
        TypeRef::StrRef => v is Str || v is Null,
        TypeRef::Class(c) => v matches Value::Obj(h) && h < objects.len() && spec_extends(
            reg,
            objects[h as int].class as int,
            c as int,
        ),
        TypeRef::Sequence(e) => v matches Value::Buf(items) && items@.len() <= i64::MAX
            && forall|i: int|
            0 <= i < items@.len() ==> spec_item_matches(reg, objects, #[trigger] items@[i], *e),
    }
}

/// Decide [`spec_item_matches`].
pub fn check_item_matches(reg: &Registry, objects: &Vec<HostObject>, it: &Item, ty: &TypeRef) -> (b:
    bool)
    requires
        reg.wf(),
    ensures
        b == spec_item_matches(*reg, objects@, *it, *ty),
{
    match ty {
        TypeRef::Bool => matches!(it, Item::Bool(_)),
        TypeRef::I8 => match it {
            Item::Int(i) => i8::MIN as i64 <= *i && *i <= i8::MAX as i64,
            _ => false,
        },
        TypeRef::U8 => match it {
            Item::Int(i) => 0 <= *i && *i <= u8::MAX as i64,
            _ => false,
        },
        TypeRef::I16 => match it {
            Item::Int(i) => i16::MIN as i64 <= *i && *i <= i16::MAX as i64,
            _ => false,
        },
        TypeRef::U16 => match it {
            Item::Int(i) => 0 <= *i && *i <= u16::MAX as i64,
            _ => false,
        },
        TypeRef::I32 => match it {
            Item::Int(i) => i32::MIN as i64 <= *i && *i <= i32::MAX as i64,
            _ => false,
        },
        TypeRef::U32 => match it {
            Item::Int(i) => 0 <= *i && *i <= u32::MAX as i64,
            _ => false,
        },
        TypeRef::I64 => matches!(it, Item::Int(_)),
        TypeRef::U64 => match it {
            Item::Int(i) => *i >= 0,
            _ => false,
        },
        TypeRef::Double => matches!(it, Item::Double(_)),
        TypeRef::Str => matches!(it, Item::Str(_)),
        TypeRef::StrRef => matches!(it, Item::Str(_) | Item::Null),
        TypeRef::Class(c) => match it {
            Item::Obj(h) => *h < objects.len() && extends(reg, objects[*h].class, *c),
            _ => false,
        },
        TypeRef::Sequence(_) => false,
    }
}

/// Decide [`spec_value_matches`].
#[verifier::loop_isolation(false)]
pub fn check_value_matches(
    reg: &Registry,
    objects: &Vec<HostObject>,
    v: &Value,
    ty: &TypeRef,
) -> (b: bool)
    requires
        reg.wf(),
    ensures
        b == spec_value_matches(*reg, objects@, *v, *ty),
{
    match ty {
        TypeRef::Bool => matches!(v, Value::Bool(_)),
        TypeRef::I8 => match v {
            Value::Int(i) => i8::MIN as i64 <= *i && *i <= i8::MAX as i64,
            _ => false,
        },
        TypeRef::U8 => match v {
            Value::Int(i) => 0 <= *i && *i <= u8::MAX as i64,
            _ => false,
        },
        TypeRef::I16 => match v {
            Value::Int(i) => i16::MIN as i64 <= *i && *i <= i16::MAX as i64,
            _ => false,
        },
        TypeRef::U16 => match v {
            Value::Int(i) => 0 <= *i && *i <= u16::MAX as i64,
            _ => false,
        },
        TypeRef::I32 => match v {
            Value::Int(i) => i32::MIN as i64 <= *i && *i <= i32::MAX as i64,
            _ => false,
        },
        TypeRef::U32 => match v {
            Value::Int(i) => 0 <= *i && *i <= u32::MAX as i64,
            _ => false,
        },
        TypeRef::I64 => matches!(v, Value::Int(_)),
        TypeRef::U64 => match v {
            Value::Int(i) => *i >= 0,
            _ => false,
        },
        TypeRef::Double => matches!(v, Value::Double(_)),
        TypeRef::Str => matches!(v, Value::Str(_)),
        TypeRef::StrRef => matches!(v, Value::Str(_) | Value::Null),
        TypeRef::Class(c) => match v {
            Value::Obj(h) => *h < objects.len() && extends(reg, objects[*h].class, *c),
            _ => false,
        },
        TypeRef::Sequence(e) => match v {
            Value::Buf(items) => {
                if items.len() as u64 > i64::MAX as u64 {
                    return false;
                }
                let mut k: usize = 0;
                while k < items.len()
                    invariant
                        k <= items@.len(),
                        reg.wf(),
                        forall|i: int|
                            0 <= i < k ==> spec_item_matches(*reg, objects@, #[trigger] items@[i], **e),
                    decreases items@.len() - k,
                {
                    if !check_item_matches(reg, objects, &items[k], &**e) {
                        return false;
                    }
                    k = k + 1;
                }
                true
            },
            _ => false,
        },
    }
}

/// Well-formedness of one object against the registry: a registered class,
/// and exactly the slot count that class's descriptor reserves.
pub open spec fn obj_wf(reg: Registry, o: HostObject) -> bool {
    &&& (o.class as int) < reg.classes@.len()
    &&& o.slots@.len() == reg.classes@[o.class as int].descriptor.reserved_slots
}

impl ObjectStore {
    /// Every allocated object is well formed.
    pub open spec fn wf(self, reg: Registry) -> bool {
        forall|h: int|
            0 <= h < self.objects@.len() ==> obj_wf(reg, #[trigger] self.objects@[h])
    }

    /// A fresh store that will allocate at most `capacity` objects.
    pub fn new(capacity: usize) -> (s: ObjectStore)
        ensures
            s.objects@.len() == 0,
            s.capacity == capacity,
            forall|reg: Registry| s.wf(reg),
    {
        ObjectStore { objects: Vec::new(), capacity }
    }

    /// `classOf`: the class an object was allocated with.
    pub fn class_of(&self, h: usize) -> (c: usize)
        requires
            h < self.objects@.len(),
        ensures
            c == self.objects@[h as int].class,
    {
        self.objects[h].class
    }

    /// `getSlot`: read one slot of an object; the store is unchanged and
    /// the caller receives a duplicate of the cell's content.
    pub fn get_slot(&self, h: usize, idx: usize) -> (v: Value)
        requires
            h < self.objects@.len(),
            idx < self.objects@[h as int].slots@.len(),
        ensures
            value_like(v, self.objects@[h as int].slots@[idx as int]),
    {
        crate::value::dup_value(&self.objects[h].slots[idx])
    }

    /// `setSlot`: overwrite one slot of an object with `v`, leaving every
    /// other slot and object untouched.
    pub fn set_slot(&mut self, h: usize, idx: usize, v: Value)
        requires
            h < old(self).objects@.len(),
            idx < old(self).objects@[h as int].slots@.len(),
        ensures
            final(self).objects@.len() == old(self).objects@.len(),
            final(self).capacity == old(self).capacity,
            final(self).objects@[h as int].class == old(self).objects@[h as int].class,
            final(self).objects@[h as int].slots@ == old(self).objects@[h as int].slots@.update(
                idx as int,
                v,
            ),
            forall|k: int|
                0 <= k < old(self).objects@.len() && k != h ==> final(self).objects@[k] == old(
                    self,
                ).objects@[k],
    {
        self.objects[h].slots[idx] = v;
    }

    /// `allocate`: make one object of the given class, every slot holding
    /// the empty sentinel; fails once the allocation budget is spent.
    pub fn allocate(&mut self, reg: &Registry, class_id: usize) -> (r: Result<usize, Error>)
        requires
            reg.wf(),
            old(self).wf(*reg),
            class_id < reg.classes@.len(),
        ensures
            final(self).wf(*reg),
            final(self).capacity == old(self).capacity,
            r matches Ok(h) ==> {
                &&& old(self).objects@.len() < old(self).capacity
                &&& h == old(self).objects@.len()
                &&& final(self).objects@.len() == old(self).objects@.len() + 1
                &&& forall|k: int|
                    0 <= k < old(self).objects@.len() ==> final(self).objects@[k] == old(
                        self,
                    ).objects@[k]
                &&& final(self).objects@[h as int].class == class_id
                &&& final(self).objects@[h as int].slots@ == Seq::new(
                    reg.classes@[class_id as int].descriptor.reserved_slots as nat,
                    |i: int| Value::Undefined,
                )
            },
            r is Err <==> old(self).objects@.len() >= old(self).capacity,
            r is Err ==> r == Err::<usize, Error>(Error::AllocationFailure) && *final(self) == *old(
                self,
            ),
    {
        if self.objects.len() >= self.capacity {
            return Err(Error::AllocationFailure);
        }
        let n: u32 = reg.classes[class_id].descriptor.reserved_slots;
        let mut slots: Vec<Value> = Vec::new();
        let mut k: u32 = 0;
        while k < n
            invariant
                k <= n,
                slots@.len() == k,
                forall|i: int| 0 <= i < k ==> slots@[i] == Value::Undefined,
            decreases n - k,
        {
            slots.push(Value::Undefined);
            k = k + 1;
        }
        let h = self.objects.len();
        self.objects.push(HostObject { class: class_id, slots });
        proof {
            assert(self.objects@[h as int].slots@ =~= Seq::new(
                reg.classes@[class_id as int].descriptor.reserved_slots as nat,
                |i: int| Value::Undefined,
            ));
        }
        Ok(h)
    }
}

/// The slots of flat field `i` of schema `c` on object `o` hold what the
/// field's representational class prescribes: either the empty sentinel,
/// or a value of the field's type; a composite keeps its buffer cell a
/// buffer of matching elements, its length cell the element count, and
/// its capacity cell at least that.
pub open spec fn field_cells_ok(
    reg: Registry,
    objects: Seq<HostObject>,
    o: HostObject,
    c: int,
    i: int,
) -> bool {
    let ty = flat_ty(reg, c, i);
    let off = flat_off(reg, c, i);
    match ty {
        TypeRef::Sequence(e) => o.slots@[off] == Value::Undefined || (o.slots@[off] matches
            Value::Buf(items) && {
            &&& items@.len() <= i64::MAX
            &&& forall|k: int|
                0 <= k < items@.len() ==> spec_item_matches(reg, objects, #[trigger] items@[k], *e)
            &&& o.slots@[off + 1] == Value::Int(items@.len() as i64)
            &&& o.slots@[off + 2] matches Value::Int(cap) && cap >= items@.len()
        }),
        _ => o.slots@[off] == Value::Undefined || spec_value_matches(
            reg,
            objects,
            o.slots@[off],
            ty,
        ),
    }
}

/// The slot-typing invariant: every field of every allocated object holds
/// what its representational class prescribes.  The store primitives do
/// not promise it by themselves — `setSlot` writes whatever it is handed —
/// but every path through the generated accessors and constructor
/// preserves it, which the laws beside those routines prove.
pub open spec fn store_typed(reg: Registry, s: ObjectStore) -> bool {
    forall|h: int, i: int|
        0 <= h < s.objects@.len() && 0 <= i < spec_num_fields(
            reg,
            s.objects@[h].class as int,
        ) ==> #[trigger] field_cells_ok(reg, s.objects@, s.objects@[h], s.objects@[h].class as int, i)
}

/// Matching is stable as the store grows: a value that matched a type
/// still matches after more objects are appended.
pub proof fn lemma_matches_grow(
    reg: Registry,
    objects: Seq<HostObject>,
    bigger: Seq<HostObject>,
    v: Value,
    ty: TypeRef,
)
    requires
        spec_value_matches(reg, objects, v, ty),
        objects.len() <= bigger.len(),
        forall|k: int| 0 <= k < objects.len() ==> bigger[k] == #[trigger] objects[k],
    ensures
        spec_value_matches(reg, bigger, v, ty),
{
    match ty {
        TypeRef::Sequence(e) => {
            if let Value::Buf(items) = v {
                assert forall|i: int| 0 <= i < items@.len() implies spec_item_matches(
                    reg,
                    bigger,
                    #[trigger] items@[i],
                    *e,
                ) by {
                    assert(spec_item_matches(reg, objects, items@[i], *e));
                }
            }
        },
        _ => {},
    }
}

/// Allocation preserves the slot-typing invariant: the fresh object's
/// cells are all empty, and nothing else changed.
pub proof fn lemma_typed_after_allocate(
    reg: Registry,
    before: ObjectStore,
    after: ObjectStore,
    c: int,
)
    requires
        reg.wf(),
        before.wf(reg),
        store_typed(reg, before),
        0 <= c < reg.classes@.len(),
        after.objects@.len() == before.objects@.len() + 1,
        forall|k: int| 0 <= k < before.objects@.len() ==> after.objects@[k] == #[trigger] before.objects@[k],
        after.objects@[before.objects@.len() as int].class == c,
        after.objects@[before.objects@.len() as int].slots@ == Seq::new(
            reg.classes@[c].descriptor.reserved_slots as nat,
            |i: int| Value::Undefined,
        ),
    ensures
        store_typed(reg, after),
{
    let nh = before.objects@.len() as int;
    assert forall|h: int, i: int|
        0 <= h < after.objects@.len() && 0 <= i < spec_num_fields(
            reg,
            after.objects@[h].class as int,
        ) implies #[trigger] field_cells_ok(
        reg,
        after.objects@,
        after.objects@[h],
        after.objects@[h].class as int,
        i,
    ) by {
        if h < nh {
            let o = before.objects@[h];
            assert(field_cells_ok(reg, before.objects@, o, o.class as int, i));
            let ty = flat_ty(reg, o.class as int, i);
            let off = flat_off(reg, o.class as int, i);
            match ty {
                TypeRef::Sequence(e) => {
                    if o.slots@[off] != Value::Undefined {
                        if let Value::Buf(items) = o.slots@[off] {
                            assert forall|k: int| 0 <= k < items@.len() implies spec_item_matches(
                                reg,
                                after.objects@,
                                #[trigger] items@[k],
                                *e,
                            ) by {
                                assert(spec_item_matches(reg, before.objects@, items@[k], *e));
                            }
                        }
                    }
                },
                _ => {
                    if o.slots@[off] != Value::Undefined {
                        lemma_matches_grow(reg, before.objects@, after.objects@, o.slots@[off], ty);
                    }
                },
            }
        } else {
            crate::layout::lemma_field_in_total(reg, c, i);
            assert(reg.class_wf(c));
        }
    }
}

/// One field's cells stay well typed under any change that keeps every
/// object's class and leaves the field's own cells alone.
pub proof fn lemma_cells_ok_frame(
    reg: Registry,
    objects1: Seq<HostObject>,
    objects2: Seq<HostObject>,
    o1: HostObject,
    o2: HostObject,
    c: int,
    i: int,
)
    requires
        field_cells_ok(reg, objects1, o1, c, i),
        objects1.len() <= objects2.len(),
        forall|k: int| 0 <= k < objects1.len() ==> objects2[k].class == (#[trigger] objects1[k]).class,
        forall|k: int|
            flat_off(reg, c, i) <= k < flat_off(reg, c, i) + crate::catalog::spec_width_of(
                flat_ty(reg, c, i),
            ) ==> o2.slots@[k] == o1.slots@[k],
    ensures
        field_cells_ok(reg, objects2, o2, c, i),
{
    let ty = flat_ty(reg, c, i);
    let off = flat_off(reg, c, i);
    match ty {
        TypeRef::Sequence(e) => {
            if o1.slots@[off] != Value::Undefined {
                if let Value::Buf(items) = o1.slots@[off] {
                    assert forall|k: int| 0 <= k < items@.len() implies spec_item_matches(
                        reg,
                        objects2,
                        #[trigger] items@[k],
                        *e,
                    ) by {
                        assert(spec_item_matches(reg, objects1, items@[k], *e));
                    }
                }
            }
        },
        _ => {
            if o1.slots@[off] != Value::Undefined {
                lemma_matches_same_classes(reg, objects1, objects2, o1.slots@[off], ty);
            }
        },
    }
}

/// Matching only inspects the classes of the objects a value points at:
/// it is stable under any store change that keeps every object's class,
/// growing the store included.
pub proof fn lemma_matches_same_classes(
    reg: Registry,
    objects: Seq<HostObject>,
    other: Seq<HostObject>,
    v: Value,
    ty: TypeRef,
)
    requires
        spec_value_matches(reg, objects, v, ty),
        objects.len() <= other.len(),
        forall|k: int| 0 <= k < objects.len() ==> other[k].class == #[trigger] objects[k].class,
    ensures
        spec_value_matches(reg, other, v, ty),
{
    match ty {
        TypeRef::Sequence(e) => {
            if let Value::Buf(items) = v {
                assert forall|i: int| 0 <= i < items@.len() implies spec_item_matches(
                    reg,
                    other,
                    #[trigger] items@[i],
                    *e,
                ) by {
                    assert(spec_item_matches(reg, objects, items@[i], *e));
                }
            }
        },
        _ => {},
    }
}

/// The result cell a host object operation reports its outcome in.
#[derive(Clone, Copy, Debug, PartialEq, Eq, Structural)]
pub struct ObjectOpResult {
    /// The outcome code; zero reports success.
    pub code: usize,
}

/// The code [`ObjectOpResult::succeed`] stores.
pub const OP_RESULT_OK: usize = 0;

impl ObjectOpResult {
    /// Set this result to success and report `true` to the caller.
    pub fn succeed(&mut self) -> (r: bool)
        ensures
            final(self).code == OP_RESULT_OK,
            r == true,
    {
        self.code = OP_RESULT_OK;
        true
    }
}

} // verus!
