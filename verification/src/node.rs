//! Node-level behaviour over the canonical `Node` schema: appending to
//! the composite child list.

use vstd::prelude::*;

use crate::accessor::{get_field, get_outcome, set_field};
use crate::catalog::TypeRef;
use crate::dom::CHILD_NODES_INDEX;
use crate::error::Error;
use crate::layout::{extends, flat_off, flat_ty, spec_extends, spec_num_fields, Registry};
use crate::store::ObjectStore;
use crate::value::{buf_items, Item, Value};

verus! {

/// Two stores hold the same content: the same objects with the same
/// classes and the same slots.
pub open spec fn same_content(s1: ObjectStore, s2: ObjectStore) -> bool {
    &&& s2.capacity == s1.capacity
    &&& s2.objects@.len() == s1.objects@.len()
    &&& forall|k: int|
        0 <= k < s1.objects@.len() ==> (#[trigger] s2.objects@[k]).class == s1.objects@[k].class
            && s2.objects@[k].slots@ == s1.objects@[k].slots@
}

/// Append `child` to the child list of node `h`: take the composite list
/// out of its slots, push the new reference, and store the list back.
///
/// The child handle is guarded the way any receiving handle is: it must
/// name an allocated object whose class extends the node schema, else the
/// append fails with a class mismatch before anything is read.
pub fn append_child(
    reg: &Registry,
    store: &mut ObjectStore,
    node_c: usize,
    h: usize,
    child: usize,
) -> (r: Result<(), Error>)
    requires
        reg.wf(),
        old(store).wf(*reg),
        node_c < reg.classes@.len(),
        CHILD_NODES_INDEX < spec_num_fields(*reg, node_c as int),
        flat_ty(*reg, node_c as int, CHILD_NODES_INDEX as int) matches TypeRef::Sequence(e) && *e
            == TypeRef::Class(node_c),
        ({
            let out = get_outcome(
                *reg,
                *old(store),
                node_c as int,
                h as int,
                CHILD_NODES_INDEX as int,
            );
            let items = buf_items(out->Ok_0);
            out is Ok ==> {
                &&& items.len() + 1 <= i64::MAX
                &&& forall|k: int|
                    0 <= k < items.len() ==> ({
                        &&& (#[trigger] items[k]) is Obj
                        &&& items[k]->Obj_0 < old(store).objects@.len()
                        &&& spec_extends(
                            *reg,
                            old(store).objects@[items[k]->Obj_0 as int].class as int,
                            node_c as int,
                        )
                    })
            }
        }),
    ensures
        final(store).wf(*reg),
        !(child < old(store).objects@.len() && spec_extends(
            *reg,
            old(store).objects@[child as int].class as int,
            node_c as int,
        )) ==> r == Err::<(), Error>(Error::ClassMismatch) && same_content(*old(store), *final(store)),
        ({
            let out = get_outcome(
                *reg,
                *old(store),
                node_c as int,
                h as int,
                CHILD_NODES_INDEX as int,
            );
            &&& (child < old(store).objects@.len() && spec_extends(
                *reg,
                old(store).objects@[child as int].class as int,
                node_c as int,
            ) && out is Err) ==> r == Err::<(), Error>(out->Err_0) && same_content(
                *old(store),
                *final(store),
            )
            &&& (child < old(store).objects@.len() && spec_extends(
                *reg,
                old(store).objects@[child as int].class as int,
                node_c as int,
            ) && out is Ok) ==> {
                let items = buf_items(out->Ok_0);
                let off = flat_off(*reg, node_c as int, CHILD_NODES_INDEX as int);
                let slots = final(store).objects@[h as int].slots@;
                let old_slots = old(store).objects@[h as int].slots@;
                &&& r == Ok::<(), Error>(())
                &&& final(store).capacity == old(store).capacity
                &&& final(store).objects@.len() == old(store).objects@.len()
                &&& forall|k: int|
                    0 <= k < old(store).objects@.len() && k != h ==> (#[trigger] final(store).objects@[k]).class
                        == old(store).objects@[k].class && final(store).objects@[k].slots@ == old(
                        store,
                    ).objects@[k].slots@
                &&& final(store).objects@[h as int].class == old(store).objects@[h as int].class
                &&& slots.len() == old_slots.len()
                &&& forall|k: int|
                    0 <= k < slots.len() && k != off && k != off + 1 && k != off + 2
                        ==> slots[k] == old_slots[k]
                &&& slots[off] is Buf
                &&& buf_items(slots[off]) == items.push(Item::Obj(child))
                &&& slots[off + 1] == Value::Int((items.len() + 1) as i64)
                &&& slots[off + 2] == Value::Int((items.len() + 1) as i64)
            }
        }),
{
    if child >= store.objects.len() {
        return Err(Error::ClassMismatch);
    }
    let child_class = store.class_of(child);
    if !extends(reg, child_class, node_c) {
        return Err(Error::ClassMismatch);
    }
    let got = get_field(reg, store, node_c, h, CHILD_NODES_INDEX);
    let v = match got {
        Ok(v) => v,
        Err(e) => {
            return Err(e);
        },
    };
    let mut items: Vec<Item> = match v {
        Value::Buf(its) => its,
        _ => {
            proof {
                assert(false);
            }
            return Err(Error::SlotAlreadyTaken);
        },
    };
    proof {
        let ghost slot = old(store).objects@[h as int].slots@[flat_off(
            *reg,
            node_c as int,
            CHILD_NODES_INDEX as int,
        )];
        assert(slot matches Value::Buf(orig) && items@ =~= orig@);
    }
    items.push(Item::Obj(child));
    proof {
        assert(spec_extends(*reg, node_c as int, node_c as int));
    }
    let res = set_field(reg, store, node_c, h, CHILD_NODES_INDEX, Value::Buf(items));
    proof {
        assert(res is Ok);
        crate::accessor::lemma_field_fits(
            *reg,
            *old(store),
            node_c as int,
            h as int,
            CHILD_NODES_INDEX as int,
        );
    }
    Ok(())
}

} // verus!
