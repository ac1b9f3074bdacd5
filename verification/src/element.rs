//! Element-level behaviour over the canonical `Element` and `Attr`
//! schemas: looking an attribute up by its qualified name and setting or
//! inserting one.
//!
//! An attribute's qualified name is its local name, prefixed with
//! `prefix:` when the attribute carries a prefix.  Lookups walk the
//! element's composite `attrs` list in order and take the first match;
//! because that list is a move-only composite, both operations take it out
//! of its slots and store it back when they are done.

use vstd::prelude::*;

use crate::accessor::{get_field, get_outcome, set_field};
use crate::catalog::TypeRef;
use crate::dom::{ATTR_LOCAL_NAME_INDEX, ATTR_NAMESPACE_INDEX, ATTR_NAME_INDEX, ATTR_PREFIX_INDEX,
    ATTR_VALUE_INDEX, ELEMENT_ATTRS_INDEX};
use crate::error::Error;
use crate::layout::{flat_off, flat_ty, spec_extends, spec_num_fields, Registry};
use crate::node::same_content;
use crate::store::ObjectStore;
use crate::value::{buf_items, value_like, Item, Value};

verus! {

/// The character sequence behind a string value; empty for anything else.
pub open spec fn spec_str_of(v: Value) -> Seq<char> {
    match v {
        Value::Str(s) => s@,
        _ => Seq::empty(),
    }
}

/// The qualified name built from a prefix slot and a local-name slot:
/// `prefix:local` when the prefix is a string, the local name alone
/// otherwise.
pub open spec fn spec_qname(prefix: Value, local: Value) -> Seq<char> {
    if prefix is Str {
        spec_str_of(prefix) + seq![':'] + spec_str_of(local)
    } else {
        spec_str_of(local)
    }
}

/// The content of attribute field `fi` of the record behind handle `ah`.
pub open spec fn attr_slot(reg: Registry, s: ObjectStore, ac: int, ah: int, fi: int) -> Value {
    s.objects@[ah].slots@[flat_off(reg, ac, fi)]
}

/// The qualified name of the attribute record behind handle `ah`.
pub open spec fn spec_attr_qname(reg: Registry, s: ObjectStore, ac: int, ah: int) -> Seq<char> {
    spec_qname(
        attr_slot(reg, s, ac, ah, ATTR_PREFIX_INDEX as int),
        attr_slot(reg, s, ac, ah, ATTR_LOCAL_NAME_INDEX as int),
    )
}

/// A usable entry of an element's attribute list: a handle to an
/// allocated record of the attribute class whose prefix, local-name and
/// value slots hold strings (or null for the nullable ones).
pub open spec fn good_attr_item(reg: Registry, s: ObjectStore, ac: int, it: Item) -> bool {
    &&& it is Obj
    &&& it->Obj_0 < s.objects@.len()
    &&& spec_extends(reg, s.objects@[it->Obj_0 as int].class as int, ac)
    &&& (attr_slot(reg, s, ac, it->Obj_0 as int, ATTR_PREFIX_INDEX as int) is Str || attr_slot(
        reg,
        s,
        ac,
        it->Obj_0 as int,
        ATTR_PREFIX_INDEX as int,
    ) is Null)
    &&& (attr_slot(reg, s, ac, it->Obj_0 as int, ATTR_LOCAL_NAME_INDEX as int) is Str || attr_slot(
        reg,
        s,
        ac,
        it->Obj_0 as int,
        ATTR_LOCAL_NAME_INDEX as int,
    ) is Null)
    &&& (attr_slot(reg, s, ac, it->Obj_0 as int, ATTR_VALUE_INDEX as int) is Str || attr_slot(
        reg,
        s,
        ac,
        it->Obj_0 as int,
        ATTR_VALUE_INDEX as int,
    ) is Null)
}

/// The position of the first attribute in `items[k..]` whose qualified
/// name is `name`; the list length when none matches.
pub open spec fn spec_find_attr(
    reg: Registry,
    s: ObjectStore,
    ac: int,
    items: Seq<Item>,
    name: Seq<char>,
    k: int,
) -> int
    decreases items.len() - k,
{
    if k < 0 || k >= items.len() {
        items.len() as int
    } else if spec_attr_qname(reg, s, ac, items[k]->Obj_0 as int) == name {
        k
    } else {
        spec_find_attr(reg, s, ac, items, name, k + 1)
    }
}

/// Qualified names agree on values that agree up to string content.
pub proof fn lemma_qname_like(p1: Value, l1: Value, p2: Value, l2: Value)
    requires
        value_like(p1, p2),
        value_like(l1, l2),
    ensures
        spec_qname(p1, l1) == spec_qname(p2, l2),
{
}

/// Build the qualified name from a prefix value and a local-name value.
pub fn qualified_name(prefix: &Value, local: &Value) -> (q: String)
    ensures
        q@ == spec_qname(*prefix, *local),
{
    let loc: String = match local {
        Value::Str(s) => s.clone(),
        _ => String::new(),
    };
    match prefix {
        Value::Str(p) => {
            let mut q: String = p.clone();
            q.append(":");
            q.append(loc.as_str());
            proof {
                reveal_strlit(":");
                assert(":"@ =~= seq![':']);
            }
            q
        },
        _ => loc,
    }
}

/// The search result only depends on the attribute records it inspects:
/// two stores that agree on every record the list names agree on where
/// the first match sits.
pub proof fn lemma_find_attr_same(
    reg: Registry,
    s1: ObjectStore,
    s2: ObjectStore,
    ac: int,
    items: Seq<Item>,
    name: Seq<char>,
    k: int,
)
    requires
        forall|j: int|
            0 <= j < items.len() ==> (#[trigger] items[j]) is Obj && items[j]->Obj_0
                < s1.objects@.len() && items[j]->Obj_0 < s2.objects@.len() && s2.objects@[
                items[j]->Obj_0 as int
            ].slots@ == s1.objects@[items[j]->Obj_0 as int].slots@,
        0 <= k,
    ensures
        spec_find_attr(reg, s1, ac, items, name, k) == spec_find_attr(reg, s2, ac, items, name, k),
    decreases items.len() - k,
{
    if k < items.len() {
        lemma_find_attr_same(reg, s1, s2, ac, items, name, k + 1);
    }
}

/// The schema shape the attribute routines rely on: the canonical `Attr`
/// layout, its identifier and value fields all shared string references.
pub open spec fn attr_schema_shape(reg: Registry, ac: int) -> bool {
    &&& 0 <= ac < reg.classes@.len()
    &&& ATTR_VALUE_INDEX < spec_num_fields(reg, ac)
    &&& flat_ty(reg, ac, ATTR_LOCAL_NAME_INDEX as int) == TypeRef::StrRef
    &&& flat_ty(reg, ac, ATTR_NAME_INDEX as int) == TypeRef::StrRef
    &&& flat_ty(reg, ac, ATTR_NAMESPACE_INDEX as int) == TypeRef::StrRef
    &&& flat_ty(reg, ac, ATTR_PREFIX_INDEX as int) == TypeRef::StrRef
    &&& flat_ty(reg, ac, ATTR_VALUE_INDEX as int) == TypeRef::StrRef
}

/// The schema shape the element routines rely on: the canonical `Element`
/// layout, its `attrs` field a composite list of attribute records.
pub open spec fn element_schema_shape(reg: Registry, ec: int, ac: int) -> bool {
    &&& 0 <= ec < reg.classes@.len()
    &&& ELEMENT_ATTRS_INDEX < spec_num_fields(reg, ec)
    &&& flat_ty(reg, ec, ELEMENT_ATTRS_INDEX as int) matches TypeRef::Sequence(e) && *e
        == TypeRef::Class(ac as usize)
}

/// The attribute list an element's `attrs` slots hold is usable: every
/// entry a good attribute record, none of them the element itself, and
/// short enough for its length cell.
pub open spec fn attrs_usable(reg: Registry, s: ObjectStore, ec: int, ac: int, h: int) -> bool {
    let out = get_outcome(reg, s, ec, h, ELEMENT_ATTRS_INDEX as int);
    let items = buf_items(out->Ok_0);
    out is Ok ==> {
        &&& items.len() <= i64::MAX
        &&& forall|k: int|
            0 <= k < items.len() ==> good_attr_item(reg, s, ac, #[trigger] items[k])
                && items[k]->Obj_0 != h
    }
}

/// The five attribute fields sit at five distinct, increasing slot
/// offsets inside the attribute record's reserved run.
pub proof fn lemma_attr_layout(reg: Registry, ac: int)
    requires
        reg.wf(),
        attr_schema_shape(reg, ac),
    ensures
        0 <= flat_off(reg, ac, ATTR_LOCAL_NAME_INDEX as int),
        flat_off(reg, ac, ATTR_LOCAL_NAME_INDEX as int) < flat_off(reg, ac, ATTR_NAME_INDEX as int),
        flat_off(reg, ac, ATTR_NAME_INDEX as int) < flat_off(reg, ac, ATTR_NAMESPACE_INDEX as int),
        flat_off(reg, ac, ATTR_NAMESPACE_INDEX as int) < flat_off(
            reg,
            ac,
            ATTR_PREFIX_INDEX as int,
        ),
        flat_off(reg, ac, ATTR_PREFIX_INDEX as int) < flat_off(reg, ac, ATTR_VALUE_INDEX as int),
        flat_off(reg, ac, ATTR_VALUE_INDEX as int) + 1 <= reg.classes@[
            ac
        ].descriptor.reserved_slots,
{
    crate::layout::lemma_field_in_total(reg, ac, ATTR_LOCAL_NAME_INDEX as int);
    crate::layout::lemma_field_in_total(reg, ac, ATTR_NAME_INDEX as int);
    crate::layout::lemma_field_in_total(reg, ac, ATTR_NAMESPACE_INDEX as int);
    crate::layout::lemma_field_in_total(reg, ac, ATTR_PREFIX_INDEX as int);
    crate::layout::lemma_field_in_total(reg, ac, ATTR_VALUE_INDEX as int);
    crate::layout::lemma_fields_ordered(
        reg,
        ac,
        ATTR_LOCAL_NAME_INDEX as int,
        ATTR_NAME_INDEX as int,
    );
    crate::layout::lemma_fields_ordered(
        reg,
        ac,
        ATTR_NAME_INDEX as int,
        ATTR_NAMESPACE_INDEX as int,
    );
    crate::layout::lemma_fields_ordered(
        reg,
        ac,
        ATTR_NAMESPACE_INDEX as int,
        ATTR_PREFIX_INDEX as int,
    );
    crate::layout::lemma_fields_ordered(
        reg,
        ac,
        ATTR_PREFIX_INDEX as int,
        ATTR_VALUE_INDEX as int,
    );
    assert(reg.class_wf(ac));
}

/// Find the first attribute in `items` whose qualified name is `name`,
/// reading each record's prefix and local name through the generated
/// accessors; the store's content is left exactly as it was.
pub fn find_attribute(
    reg: &Registry,
    store: &mut ObjectStore,
    attr_c: usize,
    items: &Vec<Item>,
    name: &str,
) -> (r: usize)
    requires
        reg.wf(),
        old(store).wf(*reg),
        attr_c < reg.classes@.len(),
        ATTR_VALUE_INDEX < spec_num_fields(*reg, attr_c as int),
        flat_ty(*reg, attr_c as int, ATTR_PREFIX_INDEX as int) == TypeRef::StrRef,
        flat_ty(*reg, attr_c as int, ATTR_LOCAL_NAME_INDEX as int) == TypeRef::StrRef,
        forall|k: int|
            0 <= k < items@.len() ==> good_attr_item(*reg, *old(store), attr_c as int, #[trigger] items@[k]),
    ensures
        final(store).wf(*reg),
        same_content(*old(store), *final(store)),
        r <= items@.len(),
        r as int == spec_find_attr(*reg, *old(store), attr_c as int, items@, name@, 0),
{
    let nm = String::from_str(name);
    let mut k: usize = 0;
    while k < items.len()
        invariant
            k <= items@.len(),
            reg.wf(),
            store.wf(*reg),
            same_content(*old(store), *store),
            spec_find_attr(*reg, *old(store), attr_c as int, items@, name@, 0) == spec_find_attr(
                *reg,
                *old(store),
                attr_c as int,
                items@,
                name@,
                k as int,
            ),
            attr_c < reg.classes@.len(),
            ATTR_VALUE_INDEX < spec_num_fields(*reg, attr_c as int),
            flat_ty(*reg, attr_c as int, ATTR_PREFIX_INDEX as int) == TypeRef::StrRef,
            flat_ty(*reg, attr_c as int, ATTR_LOCAL_NAME_INDEX as int) == TypeRef::StrRef,
            nm@ == name@,
            forall|j: int|
                0 <= j < items@.len() ==> good_attr_item(
                    *reg,
                    *old(store),
                    attr_c as int,
                    #[trigger] items@[j],
                ),
        decreases items@.len() - k,
    {
        let ah: usize = match items[k] {
            Item::Obj(a) => a,
            _ => {
                proof {
                    assert(false);
                }
                0
            },
        };
        let ghost snap = *store;
        let prefix = match get_field(reg, store, attr_c, ah, ATTR_PREFIX_INDEX) {
            Ok(v) => v,
            Err(_) => {
                proof {
                    assert(false);
                }
                Value::Null
            },
        };
        let local = match get_field(reg, store, attr_c, ah, ATTR_LOCAL_NAME_INDEX) {
            Ok(v) => v,
            Err(_) => {
                proof {
                    assert(false);
                }
                Value::Null
            },
        };
        let q = qualified_name(&prefix, &local);
        proof {
            lemma_qname_like(
                prefix,
                local,
                attr_slot(*reg, *old(store), attr_c as int, ah as int, ATTR_PREFIX_INDEX as int),
                attr_slot(
                    *reg,
                    *old(store),
                    attr_c as int,
                    ah as int,
                    ATTR_LOCAL_NAME_INDEX as int,
                ),
            );
        }
        if q == nm {
            return k;
        }
        k = k + 1;
    }
    items.len()
}

/// Look the attribute named `name` up on element `h`: take the `attrs`
/// list out of its slots, find the first record whose qualified name
/// matches, read its value, and store the list back.  Returns the found
/// value, or null when no attribute matches; a failure to read the list
/// (wrong class, or a list already taken) is passed on.
pub fn element_get_attribute(
    reg: &Registry,
    store: &mut ObjectStore,
    elem_c: usize,
    attr_c: usize,
    h: usize,
    name: &str,
) -> (r: Result<Value, Error>)
    requires
        reg.wf(),
        old(store).wf(*reg),
        attr_schema_shape(*reg, attr_c as int),
        element_schema_shape(*reg, elem_c as int, attr_c as int),
        attrs_usable(*reg, *old(store), elem_c as int, attr_c as int, h as int),
    ensures
        final(store).wf(*reg),
        ({
            let out = get_outcome(*reg, *old(store), elem_c as int, h as int, ELEMENT_ATTRS_INDEX as int);
            let items = buf_items(out->Ok_0);
            let f = spec_find_attr(*reg, *old(store), attr_c as int, items, name@, 0);
            let off = flat_off(*reg, elem_c as int, ELEMENT_ATTRS_INDEX as int);
            let slots = final(store).objects@[h as int].slots@;
            let old_slots = old(store).objects@[h as int].slots@;
            &&& out is Err ==> r == Err::<Value, Error>(out->Err_0) && same_content(
                *old(store),
                *final(store),
            )
            &&& out is Ok ==> {
                &&& r is Ok
                &&& f < items.len() ==> value_like(
                    r->Ok_0,
                    attr_slot(
                        *reg,
                        *old(store),
                        attr_c as int,
                        items[f]->Obj_0 as int,
                        ATTR_VALUE_INDEX as int,
                    ),
                )
                &&& f == items.len() ==> r->Ok_0 == Value::Null
                &&& final(store).capacity == old(store).capacity
                &&& final(store).objects@.len() == old(store).objects@.len()
                &&& forall|k: int|
                    0 <= k < old(store).objects@.len() && k != h ==> (#[trigger] final(store).objects@[k]).class
                        == old(store).objects@[k].class && final(store).objects@[k].slots@ == old(
                        store,
                    ).objects@[k].slots@
                &&& final(store).objects@[h as int].class == old(store).objects@[h as int].class
                &&& slots.len() == old_slots.len()
                &&& forall|k: int|
                    0 <= k < slots.len() && k != off && k != off + 1 && k != off + 2 ==> slots[k]
                        == old_slots[k]
                &&& slots[off] is Buf
                &&& buf_items(slots[off]) == items
                &&& slots[off + 1] == Value::Int(items.len() as i64)
                &&& slots[off + 2] == Value::Int(items.len() as i64)
            }
        }),
{
    let ghost out = get_outcome(*reg, *old(store), elem_c as int, h as int, ELEMENT_ATTRS_INDEX as int);
    let ghost orig = buf_items(out->Ok_0);
    let got = get_field(reg, store, elem_c, h, ELEMENT_ATTRS_INDEX);
    let v = match got {
        Ok(v) => v,
        Err(e) => {
            return Err(e);
        },
    };
    let items: Vec<Item> = match v {
        Value::Buf(its) => its,
        _ => {
            proof {
                assert(false);
            }
            return Err(Error::SlotAlreadyTaken);
        },
    };
    proof {
        assert forall|k: int| 0 <= k < items@.len() implies items@[k] == orig[k] by {
            assert(good_attr_item(*reg, *old(store), attr_c as int, orig[k]));
        }
        assert(items@ =~= orig);
        crate::accessor::lemma_field_fits(
            *reg,
            *old(store),
            elem_c as int,
            h as int,
            ELEMENT_ATTRS_INDEX as int,
        );
        assert forall|k: int| 0 <= k < items@.len() implies good_attr_item(
            *reg,
            *store,
            attr_c as int,
            #[trigger] items@[k],
        ) && items@[k]->Obj_0 != h by {
            assert(good_attr_item(*reg, *old(store), attr_c as int, orig[k]));
        }
    }
    let ghost post_get = *store;
    let f = find_attribute(reg, store, attr_c, &items, name);
    proof {
        lemma_find_attr_same(
            *reg,
            *old(store),
            post_get,
            attr_c as int,
            items@,
            name@,
            0,
        );
    }
    let result: Value = if f < items.len() {
        let ah: usize = match items[f] {
            Item::Obj(a) => a,
            _ => {
                proof {
                    assert(good_attr_item(*reg, *old(store), attr_c as int, orig[f as int]));
                    assert(false);
                }
                0
            },
        };
        proof {
            assert(good_attr_item(*reg, *old(store), attr_c as int, orig[f as int]));
        }
        match get_field(reg, store, attr_c, ah, ATTR_VALUE_INDEX) {
            Ok(vv) => vv,
            Err(_) => {
                proof {
                    assert(false);
                }
                Value::Null
            },
        }
    } else {
        Value::Null
    };
    proof {
        assert forall|k: int| 0 <= k < items@.len() implies good_attr_item(
            *reg,
            *store,
            attr_c as int,
            #[trigger] items@[k],
        ) by {
            assert(good_attr_item(*reg, *old(store), attr_c as int, orig[k]));
        }
    }
    let res = set_field(reg, store, elem_c, h, ELEMENT_ATTRS_INDEX, Value::Buf(items));
    proof {
        assert(res is Ok);
    }
    Ok(result)
}

/// Set the attribute named `name` on element `h` to `value`: take the
/// `attrs` list out of its slots and find the first record whose
/// qualified name matches.  When one exists its value field is
/// overwritten; otherwise a fresh attribute record is allocated, its
/// local name and value filled in and its other identifiers cleared, and
/// the record appended to the list.  Either way the list is stored back.
/// A failure to read the list is passed on, and a spent allocation budget
/// surfaces as an allocation failure with the list restored untouched.
pub fn element_set_attribute(
    reg: &Registry,
    store: &mut ObjectStore,
    elem_c: usize,
    attr_c: usize,
    h: usize,
    name: &str,
    value: String,
) -> (r: Result<(), Error>)
    requires
        reg.wf(),
        old(store).wf(*reg),
        attr_schema_shape(*reg, attr_c as int),
        element_schema_shape(*reg, elem_c as int, attr_c as int),
        attrs_usable(*reg, *old(store), elem_c as int, attr_c as int, h as int),
        get_outcome(*reg, *old(store), elem_c as int, h as int, ELEMENT_ATTRS_INDEX as int) is Ok
            ==> buf_items(
            get_outcome(*reg, *old(store), elem_c as int, h as int, ELEMENT_ATTRS_INDEX as int)->Ok_0,
        ).len() + 1 <= i64::MAX,
    ensures
        final(store).wf(*reg),
        ({
            let out = get_outcome(*reg, *old(store), elem_c as int, h as int, ELEMENT_ATTRS_INDEX as int);
            let items = buf_items(out->Ok_0);
            let f = spec_find_attr(*reg, *old(store), attr_c as int, items, name@, 0);
            let off = flat_off(*reg, elem_c as int, ELEMENT_ATTRS_INDEX as int);
            let voff = flat_off(*reg, attr_c as int, ATTR_VALUE_INDEX as int);
            let slots = final(store).objects@[h as int].slots@;
            let old_slots = old(store).objects@[h as int].slots@;
            &&& out is Err ==> r == Err::<(), Error>(out->Err_0) && same_content(
                *old(store),
                *final(store),
            )
            &&& (out is Ok && f < items.len()) ==> {
                let a = items[f]->Obj_0 as int;
                &&& r == Ok::<(), Error>(())
                &&& final(store).capacity == old(store).capacity
                &&& final(store).objects@.len() == old(store).objects@.len()
                &&& forall|k: int|
                    0 <= k < old(store).objects@.len() && k != h && k != a ==> (#[trigger] final(store).objects@[k]).class
                        == old(store).objects@[k].class && final(store).objects@[k].slots@ == old(
                        store,
                    ).objects@[k].slots@
                &&& final(store).objects@[a].class == old(store).objects@[a].class
                &&& final(store).objects@[a].slots@ == old(store).objects@[a].slots@.update(
                    voff,
                    Value::Str(value),
                )
                &&& final(store).objects@[h as int].class == old(store).objects@[h as int].class
                &&& slots.len() == old_slots.len()
                &&& forall|k: int|
                    0 <= k < slots.len() && k != off && k != off + 1 && k != off + 2 ==> slots[k]
                        == old_slots[k]
                &&& slots[off] is Buf
                &&& buf_items(slots[off]) == items
                &&& slots[off + 1] == Value::Int(items.len() as i64)
                &&& slots[off + 2] == Value::Int(items.len() as i64)
            }
            &&& (out is Ok && f == items.len() && old(store).objects@.len() >= old(store).capacity)
                ==> {
                &&& r == Err::<(), Error>(Error::AllocationFailure)
                &&& final(store).capacity == old(store).capacity
                &&& final(store).objects@.len() == old(store).objects@.len()
                &&& forall|k: int|
                    0 <= k < old(store).objects@.len() && k != h ==> (#[trigger] final(store).objects@[k]).class
                        == old(store).objects@[k].class && final(store).objects@[k].slots@ == old(
                        store,
                    ).objects@[k].slots@
                &&& final(store).objects@[h as int].class == old(store).objects@[h as int].class
                &&& slots.len() == old_slots.len()
                &&& forall|k: int|
                    0 <= k < slots.len() && k != off && k != off + 1 && k != off + 2 ==> slots[k]
                        == old_slots[k]
                &&& slots[off] is Buf
                &&& buf_items(slots[off]) == items
                &&& slots[off + 1] == Value::Int(items.len() as i64)
                &&& slots[off + 2] == Value::Int(items.len() as i64)
            }
            &&& (out is Ok && f == items.len() && old(store).objects@.len() < old(store).capacity)
                ==> {
                let nh = old(store).objects@.len() as int;
                let nslots = final(store).objects@[nh].slots@;
                &&& r == Ok::<(), Error>(())
                &&& final(store).capacity == old(store).capacity
                &&& final(store).objects@.len() == old(store).objects@.len() + 1
                &&& forall|k: int|
                    0 <= k < old(store).objects@.len() && k != h ==> (#[trigger] final(store).objects@[k]).class
                        == old(store).objects@[k].class && final(store).objects@[k].slots@ == old(
                        store,
                    ).objects@[k].slots@
                &&& final(store).objects@[nh].class == attr_c
                &&& nslots[flat_off(*reg, attr_c as int, ATTR_LOCAL_NAME_INDEX as int)] is Str
                &&& spec_str_of(nslots[flat_off(*reg, attr_c as int, ATTR_LOCAL_NAME_INDEX as int)])
                    == name@
                &&& nslots[flat_off(*reg, attr_c as int, ATTR_NAME_INDEX as int)] == Value::Null
                &&& nslots[flat_off(*reg, attr_c as int, ATTR_NAMESPACE_INDEX as int)]
                    == Value::Null
                &&& nslots[flat_off(*reg, attr_c as int, ATTR_PREFIX_INDEX as int)] == Value::Null
                &&& nslots[voff] == Value::Str(value)
                &&& final(store).objects@[h as int].class == old(store).objects@[h as int].class
                &&& slots.len() == old_slots.len()
                &&& forall|k: int|
                    0 <= k < slots.len() && k != off && k != off + 1 && k != off + 2 ==> slots[k]
                        == old_slots[k]
                &&& slots[off] is Buf
                &&& buf_items(slots[off]) == items.push(Item::Obj(nh as usize))
                &&& slots[off + 1] == Value::Int((items.len() + 1) as i64)
                &&& slots[off + 2] == Value::Int((items.len() + 1) as i64)
            }
        }),
{
    let ghost out = get_outcome(*reg, *old(store), elem_c as int, h as int, ELEMENT_ATTRS_INDEX as int);
    let ghost orig = buf_items(out->Ok_0);
    let got = get_field(reg, store, elem_c, h, ELEMENT_ATTRS_INDEX);
    let v = match got {
        Ok(v) => v,
        Err(e) => {
            return Err(e);
        },
    };
    let items: Vec<Item> = match v {
        Value::Buf(its) => its,
        _ => {
            proof {
                assert(false);
            }
            return Err(Error::SlotAlreadyTaken);
        },
    };
    proof {
        assert forall|k: int| 0 <= k < items@.len() implies items@[k] == orig[k] by {
            assert(good_attr_item(*reg, *old(store), attr_c as int, orig[k]));
        }
        assert(items@ =~= orig);
        crate::accessor::lemma_field_fits(
            *reg,
            *old(store),
            elem_c as int,
            h as int,
            ELEMENT_ATTRS_INDEX as int,
        );
        assert forall|k: int| 0 <= k < items@.len() implies good_attr_item(
            *reg,
            *store,
            attr_c as int,
            #[trigger] items@[k],
        ) && items@[k]->Obj_0 != h by {
            assert(good_attr_item(*reg, *old(store), attr_c as int, orig[k]));
        }
    }
    let ghost post_get = *store;
    let f = find_attribute(reg, store, attr_c, &items, name);
    proof {
        lemma_find_attr_same(*reg, *old(store), post_get, attr_c as int, items@, name@, 0);
    }
    if f < items.len() {
        let ah: usize = match items[f] {
            Item::Obj(a) => a,
            _ => {
                proof {
                    assert(good_attr_item(*reg, *old(store), attr_c as int, orig[f as int]));
                    assert(false);
                }
                0
            },
        };
        proof {
            assert(good_attr_item(*reg, *old(store), attr_c as int, orig[f as int]));
            crate::layout::lemma_fields_ordered(
                *reg,
                attr_c as int,
                ATTR_PREFIX_INDEX as int,
                ATTR_VALUE_INDEX as int,
            );
            crate::layout::lemma_fields_ordered(
                *reg,
                attr_c as int,
                ATTR_LOCAL_NAME_INDEX as int,
                ATTR_VALUE_INDEX as int,
            );
            crate::accessor::lemma_field_fits(
                *reg,
                *store,
                attr_c as int,
                ah as int,
                ATTR_VALUE_INDEX as int,
            );
        }
        let res_v = set_field(reg, store, attr_c, ah, ATTR_VALUE_INDEX, Value::Str(value));
        proof {
            assert(res_v is Ok);
            lemma_attr_layout(*reg, attr_c as int);
            assert forall|k: int| 0 <= k < items@.len() implies good_attr_item(
                *reg,
                *store,
                attr_c as int,
                #[trigger] items@[k],
            ) by {
                assert(good_attr_item(*reg, *old(store), attr_c as int, orig[k]));
                crate::accessor::lemma_field_fits(
                    *reg,
                    *old(store),
                    attr_c as int,
                    orig[k]->Obj_0 as int,
                    ATTR_VALUE_INDEX as int,
                );
            }
        }
        let res = set_field(reg, store, elem_c, h, ELEMENT_ATTRS_INDEX, Value::Buf(items));
        proof {
            assert(res is Ok);
        }
        Ok(())
    } else {
        if store.objects.len() >= store.capacity {
            let res = set_field(reg, store, elem_c, h, ELEMENT_ATTRS_INDEX, Value::Buf(items));
            proof {
                assert(res is Ok);
            }
            return Err(Error::AllocationFailure);
        }
        let nh: usize = match store.allocate(reg, attr_c) {
            Ok(nh) => nh,
            Err(_) => {
                proof {
                    assert(false);
                }
                return Err(Error::AllocationFailure);
            },
        };
        proof {
            assert(spec_extends(*reg, attr_c as int, attr_c as int));
            crate::layout::lemma_fields_ordered(
                *reg,
                attr_c as int,
                ATTR_LOCAL_NAME_INDEX as int,
                ATTR_NAME_INDEX as int,
            );
            crate::layout::lemma_fields_ordered(
                *reg,
                attr_c as int,
                ATTR_NAME_INDEX as int,
                ATTR_NAMESPACE_INDEX as int,
            );
            crate::layout::lemma_fields_ordered(
                *reg,
                attr_c as int,
                ATTR_NAMESPACE_INDEX as int,
                ATTR_PREFIX_INDEX as int,
            );
            crate::layout::lemma_fields_ordered(
                *reg,
                attr_c as int,
                ATTR_PREFIX_INDEX as int,
                ATTR_VALUE_INDEX as int,
            );
            crate::accessor::lemma_field_fits(
                *reg,
                *store,
                attr_c as int,
                nh as int,
                ATTR_VALUE_INDEX as int,
            );
        }
        proof {
            lemma_attr_layout(*reg, attr_c as int);
        }
        let local_name = Value::Str(String::from_str(name));
        let ghost lv = local_name;
        let r1 = set_field(reg, store, attr_c, nh, ATTR_LOCAL_NAME_INDEX, local_name);
        let r2 = set_field(reg, store, attr_c, nh, ATTR_NAME_INDEX, Value::Null);
        let r3 = set_field(reg, store, attr_c, nh, ATTR_NAMESPACE_INDEX, Value::Null);
        let r4 = set_field(reg, store, attr_c, nh, ATTR_PREFIX_INDEX, Value::Null);
        let ghost vv = Value::Str(value);
        let r5 = set_field(reg, store, attr_c, nh, ATTR_VALUE_INDEX, Value::Str(value));
        proof {
            assert(r1 is Ok);
            assert(r2 is Ok);
            assert(r3 is Ok);
            assert(r4 is Ok);
            assert(r5 is Ok);
            assert(attr_slot(*reg, *store, attr_c as int, nh as int, ATTR_LOCAL_NAME_INDEX as int)
                == lv);
            assert(attr_slot(*reg, *store, attr_c as int, nh as int, ATTR_NAME_INDEX as int)
                == Value::Null);
            assert(attr_slot(*reg, *store, attr_c as int, nh as int, ATTR_NAMESPACE_INDEX as int)
                == Value::Null);
            assert(attr_slot(*reg, *store, attr_c as int, nh as int, ATTR_PREFIX_INDEX as int)
                == Value::Null);
            assert(attr_slot(*reg, *store, attr_c as int, nh as int, ATTR_VALUE_INDEX as int)
                == vv);
        }
        let mut items = items;
        items.push(Item::Obj(nh));
        proof {
            assert forall|k: int| 0 <= k < items@.len() implies good_attr_item(
                *reg,
                *store,
                attr_c as int,
                #[trigger] items@[k],
            ) by {
                if k < items@.len() - 1 {
                    assert(good_attr_item(*reg, *old(store), attr_c as int, orig[k]));
                    crate::accessor::lemma_field_fits(
                        *reg,
                        *old(store),
                        attr_c as int,
                        orig[k]->Obj_0 as int,
                        ATTR_VALUE_INDEX as int,
                    );
                }
            }
        }
        let res = set_field(reg, store, elem_c, h, ELEMENT_ATTRS_INDEX, Value::Buf(items));
        proof {
            assert(res is Ok);
        }
        Ok(())
    }
}

} // verus!
