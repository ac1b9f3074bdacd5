//! The generated field accessors: reading a field out of an instance's
//! slots and writing one in, inherited fields delegated to the parent's
//! accessors through a same-handle view.
//!
//! Every accessor first guards the receiving handle: the instance's class
//! must be the expected schema or a descendant of it, else the access
//! fails with a class mismatch.  Copyable fields are read by duplication
//! and the slot stays; move-only fields transfer ownership out, the slot
//! becomes the empty sentinel, and a second read without an intervening
//! write signals that the slot was already taken.  A composite field spans
//! its buffer, length and capacity cells; reading it takes all three.

use vstd::prelude::*;

use crate::catalog::{policy_of, spec_policy_of, width_of, Policy, TypeRef};
use crate::error::Error;
use crate::layout::{extends, flat_off, flat_ty, lemma_extends_trans, lemma_extends_width,
    lemma_field_in_total, num_fields, spec_extends, spec_num_fields, Registry};
use crate::store::{check_value_matches, obj_wf, spec_value_matches, ObjectStore};
use crate::value::{value_like, Value};

verus! {

/// The accessor guard: the handle names an allocated object whose class is
/// the expected schema or a descendant of it.
pub open spec fn spec_guard(reg: Registry, s: ObjectStore, c: int, h: int) -> bool {
    &&& 0 <= h < s.objects@.len()
    &&& spec_extends(reg, s.objects@[h as int].class as int, c)
}

/// What a getter for flat field `i` of schema `c` returns on handle `h`:
/// a class mismatch when the guard fails, the already-taken signal when
/// the slot holds the empty sentinel (or a composite's buffer cell no
/// buffer), and otherwise the slot's content.
pub open spec fn get_outcome(reg: Registry, s: ObjectStore, c: int, h: int, i: int) -> Result<
    Value,
    Error,
> {
    if !spec_guard(reg, s, c, h) {
        Err(Error::ClassMismatch)
    } else {
        let ty = flat_ty(reg, c, i);
        let slot = s.objects@[h as int].slots@[flat_off(reg, c, i)];
        if slot == Value::Undefined {
            Err(Error::SlotAlreadyTaken)
        } else if (ty is Sequence) && !(slot is Buf) {
            Err(Error::SlotAlreadyTaken)
        } else {
            Ok(slot)
        }
    }
}

/// The handle's slots after that getter ran: unchanged for a failed read
/// or a copyable field; a move-only field's slot is reset to the empty
/// sentinel, a composite's three cells all are.
pub open spec fn slots_after_get(reg: Registry, s: ObjectStore, c: int, h: int, i: int) -> Seq<
    Value,
> {
    let slots = s.objects@[h as int].slots@;
    let ty = flat_ty(reg, c, i);
    let off = flat_off(reg, c, i);
    if get_outcome(reg, s, c, h, i) is Ok && spec_policy_of(ty) == Policy::MoveOnly {
        if ty is Sequence {
            slots.update(off, Value::Undefined).update(off + 1, Value::Undefined).update(
                off + 2,
                Value::Undefined,
            )
        } else {
            slots.update(off, Value::Undefined)
        }
    } else {
        slots
    }
}

/// What a setter for flat field `i` of schema `c` reports on handle `h`
/// and value `v`: a class mismatch when the guard fails, a conversion
/// failure naming the field when `v` is no value of the field's type, and
/// success otherwise.
pub open spec fn set_outcome(
    reg: Registry,
    s: ObjectStore,
    c: int,
    h: int,
    i: int,
    v: Value,
) -> Result<(), Error> {
    if !spec_guard(reg, s, c, h) {
        Err(Error::ClassMismatch)
    } else if !spec_value_matches(reg, s.objects@, v, flat_ty(reg, c, i)) {
        Err(Error::ArgumentConversion(i as usize))
    } else {
        Ok(())
    }
}

/// The slot writes one field-set performs on a slot sequence: a composite
/// decomposes into buffer, length and capacity cells; anything else is one
/// cell, written unconditionally (the previous occupant is dropped).
pub open spec fn write_field_slots(
    reg: Registry,
    c: int,
    i: int,
    v: Value,
    slots: Seq<Value>,
) -> Seq<Value> {
    let ty = flat_ty(reg, c, i);
    let off = flat_off(reg, c, i);
    match ty {
        TypeRef::Sequence(_) => match v {
            Value::Buf(items) => slots.update(off + 1, Value::Int(items@.len() as i64)).update(
                off + 2,
                Value::Int(items@.len() as i64),
            ).update(off, Value::Buf(items)),
            _ => slots,
        },
        _ => slots.update(off, v),
    }
}

/// The handle's slots after that setter ran: the field's cells rewritten
/// on success, everything unchanged on failure.
pub open spec fn slots_after_set(
    reg: Registry,
    s: ObjectStore,
    c: int,
    h: int,
    i: int,
    v: Value,
) -> Seq<Value> {
    if set_outcome(reg, s, c, h, i, v) is Ok {
        write_field_slots(reg, c, i, v, s.objects@[h as int].slots@)
    } else {
        s.objects@[h as int].slots@
    }
}

/// An accessed field's slot range lies inside the receiving object's slot
/// run: the object's class descends from the schema, and reserved widths
/// only grow downwards.
pub proof fn lemma_field_fits(reg: Registry, s: ObjectStore, c: int, h: int, i: int)
    requires
        reg.wf(),
        s.wf(reg),
        0 <= c < reg.classes@.len(),
        0 <= i < spec_num_fields(reg, c),
        spec_guard(reg, s, c, h),
    ensures
        0 <= flat_off(reg, c, i),
        flat_off(reg, c, i) + crate::catalog::spec_width_of(flat_ty(reg, c, i)) <= s.objects@[
            h as int
        ].slots@.len(),
{
    let actual = s.objects@[h as int].class as int;
    assert(obj_wf(reg, s.objects@[h as int]));
    lemma_extends_width(reg, actual, c);
    lemma_field_in_total(reg, c, i);
    assert(reg.class_wf(c));
    assert(reg.class_wf(actual));
}

/// The getter for flat field `i` of schema `c`, on handle `h`.
///
/// An inherited field is read through the parent's own accessor on the
/// same handle — a delegating view, never a copy.  The result and the new
/// slot state follow [`get_outcome`] and [`slots_after_get`]; the returned
/// value is a duplicate of the slot's content, equal up to string content.
pub fn get_field(reg: &Registry, store: &mut ObjectStore, c: usize, h: usize, i: usize) -> (r:
    Result<Value, Error>)
    requires
        reg.wf(),
        old(store).wf(*reg),
        c < reg.classes@.len(),
        i < spec_num_fields(*reg, c as int),
    ensures
        final(store).wf(*reg),
        final(store).capacity == old(store).capacity,
        final(store).objects@.len() == old(store).objects@.len(),
        forall|k: int|
            0 <= k < old(store).objects@.len() && k != h ==> final(store).objects@[k] == old(
                store,
            ).objects@[k],
        h < old(store).objects@.len() ==> {
            &&& final(store).objects@[h as int].class == old(store).objects@[h as int].class
            &&& final(store).objects@[h as int].slots@ == slots_after_get(
                *reg,
                *old(store),
                c as int,
                h as int,
                i as int,
            )
        },
        match (r, get_outcome(*reg, *old(store), c as int, h as int, i as int)) {
            (Ok(v), Ok(w)) => value_like(v, w),
            (Err(e), Err(f)) => e == f,
            _ => false,
        },
    decreases c,
{
    if h >= store.objects.len() {
        return Err(Error::ClassMismatch);
    }
    let actual = store.class_of(h);
    if !extends(reg, actual, c) {
        return Err(Error::ClassMismatch);
    }
    proof {
        assert(reg.class_wf(c as int));
    }
    let mut delegate: Option<usize> = None;
    let pc: usize = match reg.classes[c].parent {
        Some(p) => {
            let pf = num_fields(reg, p);
            if i < pf as usize {
                delegate = Some(p);
            }
            pf as usize
        },
        None => 0,
    };
    if let Some(p) = delegate {
        proof {
            assert(spec_extends(*reg, p as int, p as int));
            assert(spec_extends(*reg, c as int, p as int));
            lemma_extends_trans(*reg, actual as int, c as int, p as int);
        }
        let r = get_field(reg, store, p, h, i);
        return r;
    }
    let j: usize = i - pc;
    proof {
        lemma_field_fits(*reg, *store, c as int, h as int, i as int);
    }
    let off32: u32 = reg.classes[c].layout.offsets[j];
    let off: usize = off32 as usize;
    let ty = &reg.classes[c].own_fields[j].ty;
    let w = width_of(ty);
    let v = store.get_slot(h, off);
    if matches!(v, Value::Undefined) {
        return Err(Error::SlotAlreadyTaken);
    }
    match policy_of(ty) {
        Policy::Copyable => Ok(v),
        Policy::MoveOnly => {
            if w == 3 {
                if !matches!(v, Value::Buf(_)) {
                    return Err(Error::SlotAlreadyTaken);
                }
                store.set_slot(h, off, Value::Undefined);
                store.set_slot(h, off + 1, Value::Undefined);
                store.set_slot(h, off + 2, Value::Undefined);
                proof {
                    lemma_wf_same_shape(*reg, *old(store), *store);
                }
                Ok(v)
            } else {
                store.set_slot(h, off, Value::Undefined);
                proof {
                    lemma_wf_same_shape(*reg, *old(store), *store);
                }
                Ok(v)
            }
        },
    }
}

/// The setter for flat field `i` of schema `c`, on handle `h`.
///
/// An inherited field is written through the parent's own accessor on the
/// same handle.  For a move-only field any previous occupant is dropped
/// before the new value is written; a composite is decomposed into its
/// buffer, length and capacity cells without copying element data.  The
/// result and the new slot state follow [`set_outcome`] and
/// [`slots_after_set`].
pub fn set_field(
    reg: &Registry,
    store: &mut ObjectStore,
    c: usize,
    h: usize,
    i: usize,
    v: Value,
) -> (r: Result<(), Error>)
    requires
        reg.wf(),
        old(store).wf(*reg),
        c < reg.classes@.len(),
        i < spec_num_fields(*reg, c as int),
    ensures
        final(store).wf(*reg),
        final(store).capacity == old(store).capacity,
        final(store).objects@.len() == old(store).objects@.len(),
        forall|k: int|
            0 <= k < old(store).objects@.len() && k != h ==> final(store).objects@[k] == old(
                store,
            ).objects@[k],
        h < old(store).objects@.len() ==> {
            &&& final(store).objects@[h as int].class == old(store).objects@[h as int].class
            &&& final(store).objects@[h as int].slots@ == slots_after_set(
                *reg,
                *old(store),
                c as int,
                h as int,
                i as int,
                v,
            )
        },
        r == set_outcome(*reg, *old(store), c as int, h as int, i as int, v),
    decreases c,
{
    if h >= store.objects.len() {
        return Err(Error::ClassMismatch);
    }
    let actual = store.class_of(h);
    if !extends(reg, actual, c) {
        return Err(Error::ClassMismatch);
    }
    proof {
        assert(reg.class_wf(c as int));
    }
    let mut delegate: Option<usize> = None;
    let pc: usize = match reg.classes[c].parent {
        Some(p) => {
            let pf = num_fields(reg, p);
            if i < pf as usize {
                delegate = Some(p);
            }
            pf as usize
        },
        None => 0,
    };
    if let Some(p) = delegate {
        proof {
            assert(spec_extends(*reg, p as int, p as int));
            assert(spec_extends(*reg, c as int, p as int));
            lemma_extends_trans(*reg, actual as int, c as int, p as int);
        }
        let r = set_field(reg, store, p, h, i, v);
        return r;
    }
    let j: usize = i - pc;
    proof {
        lemma_field_fits(*reg, *store, c as int, h as int, i as int);
    }
    let off32: u32 = reg.classes[c].layout.offsets[j];
    let off: usize = off32 as usize;
    let ty = &reg.classes[c].own_fields[j].ty;
    if !check_value_matches(reg, &store.objects, &v, ty) {
        return Err(Error::ArgumentConversion(i));
    }
    let w = width_of(ty);
    if w == 3 {
        let n_items: i64 = match &v {
            Value::Buf(items) => items.len() as i64,
            _ => 0,
        };
        store.set_slot(h, off + 1, Value::Int(n_items));
        store.set_slot(h, off + 2, Value::Int(n_items));
        store.set_slot(h, off, v);
    } else {
        store.set_slot(h, off, v);
    }
    proof {
        lemma_wf_same_shape(*reg, *old(store), *store);
    }
    Ok(())
}

/// Slot writes never change a store's shape: well-formedness only speaks
/// of classes and slot counts, which updates preserve.
pub proof fn lemma_wf_same_shape(reg: Registry, s1: ObjectStore, s2: ObjectStore)
    requires
        s1.wf(reg),
        s2.objects@.len() == s1.objects@.len(),
        forall|k: int|
            0 <= k < s1.objects@.len() ==> (#[trigger] s2.objects@[k]).class == s1.objects@[
                k
            ].class && s2.objects@[k].slots@.len() == s1.objects@[k].slots@.len(),
    ensures
        s2.wf(reg),
{
    assert forall|k: int| 0 <= k < s2.objects@.len() implies obj_wf(
        reg,
        #[trigger] s2.objects@[k],
    ) by {
        assert(obj_wf(reg, s1.objects@[k]));
    }
}

/// Move-once: after a successful read of a move-only field, reading it
/// again without an intervening write signals that the slot was already
/// taken.  `after` is the store the first read left behind, as the
/// getter's contract describes it.
pub proof fn lemma_move_once(
    reg: Registry,
    before: ObjectStore,
    after: ObjectStore,
    c: int,
    h: int,
    i: int,
)
    requires
        reg.wf(),
        before.wf(reg),
        0 <= c < reg.classes@.len(),
        0 <= i < spec_num_fields(reg, c),
        spec_policy_of(flat_ty(reg, c, i)) == Policy::MoveOnly,
        get_outcome(reg, before, c, h, i) is Ok,
        after.objects@.len() == before.objects@.len(),
        forall|k: int| 0 <= k < before.objects@.len() && k != h ==> after.objects@[k]
            == before.objects@[k],
        after.objects@[h as int].class == before.objects@[h as int].class,
        after.objects@[h as int].slots@ == slots_after_get(reg, before, c, h, i),
    ensures
        get_outcome(reg, after, c, h, i) == Err::<Value, Error>(Error::SlotAlreadyTaken),
{
    lemma_field_fits(reg, before, c, h, i);
}

/// Write-then-read: after a successful write of `v` into a field, reading
/// that field succeeds and returns exactly the written value, composite or
/// not.  `after` is the store the write left behind, as the setter's
/// contract describes it.
pub proof fn lemma_set_then_get(
    reg: Registry,
    before: ObjectStore,
    after: ObjectStore,
    c: int,
    h: int,
    i: int,
    v: Value,
)
    requires
        reg.wf(),
        before.wf(reg),
        0 <= c < reg.classes@.len(),
        0 <= i < spec_num_fields(reg, c),
        set_outcome(reg, before, c, h, i, v) is Ok,
        after.objects@.len() == before.objects@.len(),
        forall|k: int| 0 <= k < before.objects@.len() && k != h ==> after.objects@[k]
            == before.objects@[k],
        after.objects@[h as int].class == before.objects@[h as int].class,
        after.objects@[h as int].slots@ == slots_after_set(reg, before, c, h, i, v),
    ensures
        get_outcome(reg, after, c, h, i) == Ok::<Value, Error>(v),
{
    lemma_field_fits(reg, before, c, h, i);
    let ty = flat_ty(reg, c, i);
    match ty {
        TypeRef::Sequence(_) => {
            assert(v is Buf);
        },
        _ => {
            assert(spec_value_matches(reg, before.objects@, v, ty));
            assert(v != Value::Undefined);
        },
    }
}

/// Composite round trip: after a dynamic-array field is set to a buffer,
/// the three backing cells are internally consistent — the buffer cell
/// holds the elements, the length cell their count, the capacity cell at
/// least that — and the subsequent read returns an equal buffer and
/// clears all three cells.
pub proof fn lemma_composite_round_trip(
    reg: Registry,
    before: ObjectStore,
    after: ObjectStore,
    c: int,
    h: int,
    i: int,
    items: Vec<crate::value::Item>,
)
    requires
        reg.wf(),
        before.wf(reg),
        0 <= c < reg.classes@.len(),
        0 <= i < spec_num_fields(reg, c),
        flat_ty(reg, c, i) is Sequence,
        set_outcome(reg, before, c, h, i, Value::Buf(items)) is Ok,
        after.objects@.len() == before.objects@.len(),
        forall|k: int| 0 <= k < before.objects@.len() && k != h ==> after.objects@[k]
            == before.objects@[k],
        after.objects@[h as int].class == before.objects@[h as int].class,
        after.objects@[h as int].slots@ == slots_after_set(reg, before, c, h, i, Value::Buf(items)),
    ensures
        after.objects@[h as int].slots@[flat_off(reg, c, i)] == Value::Buf(items),
        after.objects@[h as int].slots@[flat_off(reg, c, i) + 1] == Value::Int(
            items@.len() as i64,
        ),
        after.objects@[h as int].slots@[flat_off(reg, c, i) + 2] == Value::Int(
            items@.len() as i64,
        ),
        get_outcome(reg, after, c, h, i) == Ok::<Value, Error>(Value::Buf(items)),
        slots_after_get(reg, after, c, h, i)[flat_off(reg, c, i)] == Value::Undefined,
        slots_after_get(reg, after, c, h, i)[flat_off(reg, c, i) + 1] == Value::Undefined,
        slots_after_get(reg, after, c, h, i)[flat_off(reg, c, i) + 2] == Value::Undefined,
{
    lemma_field_fits(reg, before, c, h, i);
    lemma_set_then_get(reg, before, after, c, h, i, Value::Buf(items));
}

/// Delegating accessor equivalence: on an instance of a child schema, a
/// getter for an inherited field agrees with the parent schema's own
/// getter on the same handle — same outcome, same slots afterwards.
pub proof fn lemma_delegating_accessor(reg: Registry, s: ObjectStore, c: int, h: int, i: int)
    requires
        reg.wf(),
        s.wf(reg),
        0 <= c < reg.classes@.len(),
        reg.classes@[c].parent is Some,
        0 <= i < spec_num_fields(reg, reg.classes@[c].parent->0 as int),
        spec_guard(reg, s, c, h),
    ensures
        get_outcome(reg, s, c, h, i) == get_outcome(reg, s, reg.classes@[c].parent->0 as int, h, i),
        slots_after_get(reg, s, c, h, i) == slots_after_get(
            reg,
            s,
            reg.classes@[c].parent->0 as int,
            h,
            i,
        ),
{
    assert(reg.class_wf(c));
    let p = reg.classes@[c].parent->0 as int;
    assert(spec_extends(reg, p, p));
    assert(spec_extends(reg, c, p));
    lemma_extends_trans(reg, s.objects@[h as int].class as int, c, p);
}

/// Reading a field preserves the slot-typing invariant: a failed or
/// copyable read changes nothing, and a move-only read only resets the
/// field's own cells to the empty sentinel.  `after` is the store the
/// read left behind, as the getter's contract describes it.
pub proof fn lemma_typed_after_get(
    reg: Registry,
    before: ObjectStore,
    after: ObjectStore,
    c: int,
    h: int,
    i: int,
)
    requires
        reg.wf(),
        before.wf(reg),
        crate::store::store_typed(reg, before),
        0 <= c < reg.classes@.len(),
        0 <= i < spec_num_fields(reg, c),
        0 <= h,
        after.objects@.len() == before.objects@.len(),
        forall|k: int|
            0 <= k < before.objects@.len() && k != h ==> after.objects@[k] == before.objects@[k],
        h < before.objects@.len() ==> after.objects@[h as int].class == before.objects@[
            h as int
        ].class && after.objects@[h as int].slots@ == slots_after_get(reg, before, c, h, i),
    ensures
        crate::store::store_typed(reg, after),
{
    assert forall|h2: int, i2: int|
        0 <= h2 < after.objects@.len() && 0 <= i2 < spec_num_fields(
            reg,
            after.objects@[h2].class as int,
        ) implies #[trigger] crate::store::field_cells_ok(
        reg,
        after.objects@,
        after.objects@[h2],
        after.objects@[h2].class as int,
        i2,
    ) by {
        let b2 = before.objects@[h2];
        let cls = b2.class as int;
        assert(crate::store::field_cells_ok(reg, before.objects@, b2, cls, i2));
        let out = get_outcome(reg, before, c, h, i);
        let ty = flat_ty(reg, c, i);
        if h2 == h && out is Ok && spec_policy_of(ty) == Policy::MoveOnly {
            let actual = before.objects@[h as int].class as int;
            crate::layout::lemma_flat_extends(reg, actual, c, i);
            lemma_field_fits(reg, before, c, h, i);
            if i2 == i {
                assert(after.objects@[h2].slots@[flat_off(reg, cls, i2)] == Value::Undefined);
            } else {
                crate::layout::lemma_layout_disjoint(reg, actual, i, i2);
                crate::layout::lemma_field_in_total(reg, actual, i2);
                assert(reg.class_wf(actual));
                assert(crate::store::obj_wf(reg, before.objects@[h as int]));
                crate::store::lemma_cells_ok_frame(
                    reg,
                    before.objects@,
                    after.objects@,
                    b2,
                    after.objects@[h2],
                    cls,
                    i2,
                );
            }
        } else {
            crate::store::lemma_cells_ok_frame(
                reg,
                before.objects@,
                after.objects@,
                b2,
                after.objects@[h2],
                cls,
                i2,
            );
        }
    }
}

/// Writing a field preserves the slot-typing invariant: a failed write
/// changes nothing, and a successful one fills the field's own cells with
/// a value of the field's type.  `after` is the store the write left
/// behind, as the setter's contract describes it.
pub proof fn lemma_typed_after_set(
    reg: Registry,
    before: ObjectStore,
    after: ObjectStore,
    c: int,
    h: int,
    i: int,
    v: Value,
)
    requires
        reg.wf(),
        before.wf(reg),
        crate::store::store_typed(reg, before),
        0 <= c < reg.classes@.len(),
        0 <= i < spec_num_fields(reg, c),
        0 <= h,
        after.objects@.len() == before.objects@.len(),
        forall|k: int|
            0 <= k < before.objects@.len() && k != h ==> after.objects@[k] == before.objects@[k],
        h < before.objects@.len() ==> after.objects@[h as int].class == before.objects@[
            h as int
        ].class && after.objects@[h as int].slots@ == slots_after_set(reg, before, c, h, i, v),
    ensures
        crate::store::store_typed(reg, after),
{
    assert forall|h2: int, i2: int|
        0 <= h2 < after.objects@.len() && 0 <= i2 < spec_num_fields(
            reg,
            after.objects@[h2].class as int,
        ) implies #[trigger] crate::store::field_cells_ok(
        reg,
        after.objects@,
        after.objects@[h2],
        after.objects@[h2].class as int,
        i2,
    ) by {
        let b2 = before.objects@[h2];
        let cls = b2.class as int;
        assert(crate::store::field_cells_ok(reg, before.objects@, b2, cls, i2));
        let out = set_outcome(reg, before, c, h, i, v);
        let ty = flat_ty(reg, c, i);
        if h2 == h && out is Ok {
            let actual = before.objects@[h as int].class as int;
            crate::layout::lemma_flat_extends(reg, actual, c, i);
            lemma_field_fits(reg, before, c, h, i);
            if i2 == i {
                crate::store::lemma_matches_same_classes(
                    reg,
                    before.objects@,
                    after.objects@,
                    v,
                    ty,
                );
                match ty {
                    TypeRef::Sequence(e) => {
                        if let Value::Buf(items) = v {
                            assert(after.objects@[h2].slots@[flat_off(reg, cls, i2)]
                                == Value::Buf(items));
                        }
                    },
                    _ => {
                        assert(after.objects@[h2].slots@[flat_off(reg, cls, i2)] == v);
                    },
                }
            } else {
                crate::layout::lemma_layout_disjoint(reg, actual, i, i2);
                crate::layout::lemma_field_in_total(reg, actual, i2);
                assert(reg.class_wf(actual));
                assert(crate::store::obj_wf(reg, before.objects@[h as int]));
                crate::store::lemma_cells_ok_frame(
                    reg,
                    before.objects@,
                    after.objects@,
                    b2,
                    after.objects@[h2],
                    cls,
                    i2,
                );
            }
        } else {
            crate::store::lemma_cells_ok_frame(
                reg,
                before.objects@,
                after.objects@,
                b2,
                after.objects@[h2],
                cls,
                i2,
            );
        }
    }
}

} // verus!
