//! The generated constructor: arity check, host allocation, argument
//! conversion and slot population, in declaration order with inherited
//! fields first.
//!
//! `construct` validates that the argument count equals the schema's
//! declared field count (inherited fields included), asks the host store
//! for one object of the class, converts each positional argument to its
//! field's native type — failing with the offending position — and writes
//! every field through the generated setters.  The store is only changed
//! when the whole construction succeeds, so a failed construction is
//! atomic.

use vstd::prelude::*;

use crate::accessor::{get_outcome, set_field, write_field_slots};
use crate::catalog::TypeRef;
use crate::error::Error;
use crate::layout::{field_ty, flat_off, flat_ty, lemma_fields_ordered, lemma_field_in_total,
    num_fields, spec_extends, spec_num_fields, Registry};
use crate::store::{check_value_matches, lemma_matches_same_classes, spec_value_matches,
    ObjectStore};
use crate::value::Value;

verus! {

/// The first argument position whose value fails conversion to its
/// field's type, scanning from `j`; the argument count when all convert.
pub open spec fn spec_first_bad_arg(
    reg: Registry,
    s: ObjectStore,
    c: int,
    args: Seq<Value>,
    j: int,
) -> int
    decreases args.len() - j,
{
    if j < 0 || j >= args.len() {
        args.len() as int
    } else if !spec_value_matches(reg, s.objects@, args[j], flat_ty(reg, c, j)) {
        j
    } else {
        spec_first_bad_arg(reg, s, c, args, j + 1)
    }
}

/// What `construct` must report: an arity mismatch when the argument
/// count differs from the declared field count, an allocation failure
/// when the host's budget is spent, a conversion failure naming the first
/// offending position, and otherwise the fresh handle.
pub open spec fn construct_outcome(
    reg: Registry,
    s: ObjectStore,
    c: int,
    args: Seq<Value>,
) -> Result<usize, Error> {
    if args.len() != spec_num_fields(reg, c) {
        Err(Error::ArityMismatch)
    } else if s.objects@.len() >= s.capacity {
        Err(Error::AllocationFailure)
    } else if spec_first_bad_arg(reg, s, c, args, 0) < args.len() {
        Err(Error::ArgumentConversion(spec_first_bad_arg(reg, s, c, args, 0) as usize))
    } else {
        Ok(s.objects@.len() as usize)
    }
}

/// The fresh object's slots after the first `j` fields were populated:
/// every cell starts as the empty sentinel, and each field-write applies
/// its slot writes in declaration order.
pub open spec fn slots_after_inits(reg: Registry, c: int, args: Seq<Value>, j: int) -> Seq<Value>
    decreases j,
{
    if j <= 0 {
        Seq::new(
            reg.classes@[c].descriptor.reserved_slots as nat,
            |k: int| Value::Undefined,
        )
    } else {
        write_field_slots(reg, c, j - 1, args[j - 1], slots_after_inits(reg, c, args, j - 1))
    }
}

/// Scanning for a bad argument may start after any prefix known good.
pub proof fn lemma_first_bad_skip(reg: Registry, s: ObjectStore, c: int, args: Seq<Value>, j: int)
    requires
        0 <= j <= args.len(),
        forall|k: int|
            0 <= k < j ==> spec_value_matches(reg, s.objects@, #[trigger] args[k], flat_ty(reg, c, k)),
    ensures
        spec_first_bad_arg(reg, s, c, args, 0) == spec_first_bad_arg(reg, s, c, args, j),
    decreases j,
{
    if j > 0 {
        lemma_first_bad_skip(reg, s, c, args, j - 1);
    }
}

/// When the scan finds no bad argument, every argument converts.
pub proof fn lemma_first_bad_none(reg: Registry, s: ObjectStore, c: int, args: Seq<Value>, j: int)
    requires
        0 <= j <= args.len(),
        spec_first_bad_arg(reg, s, c, args, j) >= args.len(),
    ensures
        forall|k: int|
            j <= k < args.len() ==> spec_value_matches(
                reg,
                s.objects@,
                #[trigger] args[k],
                flat_ty(reg, c, k),
            ),
    decreases args.len() - j,
{
    if j < args.len() {
        lemma_first_bad_none(reg, s, c, args, j + 1);
    }
}

/// Populating fields keeps the slot count.
pub proof fn lemma_inits_len(reg: Registry, c: int, args: Seq<Value>, j: int)
    requires
        reg.wf(),
        0 <= c < reg.classes@.len(),
        args.len() == spec_num_fields(reg, c),
        0 <= j <= args.len(),
    ensures
        slots_after_inits(reg, c, args, j).len() == reg.classes@[c].descriptor.reserved_slots,
    decreases j,
{
    assert(reg.class_wf(c));
    if j > 0 {
        lemma_inits_len(reg, c, args, j - 1);
        lemma_field_in_total(reg, c, j - 1);
    }
}

/// Populating later fields never touches an earlier field's cells: field
/// writes land in disjoint slot ranges.
pub proof fn lemma_inits_preserve(reg: Registry, c: int, args: Seq<Value>, i: int, j: int)
    requires
        reg.wf(),
        0 <= c < reg.classes@.len(),
        args.len() == spec_num_fields(reg, c),
        0 <= i < j <= args.len(),
    ensures
        forall|k: int|
            flat_off(reg, c, i) <= k < flat_off(reg, c, i) + crate::catalog::spec_width_of(
                flat_ty(reg, c, i),
            ) ==> slots_after_inits(reg, c, args, j)[k] == slots_after_inits(reg, c, args, i + 1)[k],
    decreases j,
{
    lemma_field_in_total(reg, c, i);
    assert(reg.class_wf(c));
    lemma_inits_len(reg, c, args, i + 1);
    if j > i + 1 {
        lemma_inits_preserve(reg, c, args, i, j - 1);
        lemma_fields_ordered(reg, c, i, j - 1);
        lemma_field_in_total(reg, c, j - 1);
        lemma_inits_len(reg, c, args, j - 1);
    }
}

/// Construct an instance of class `c` from positional arguments.
///
/// The outcome follows [`construct_outcome`]; on success the handle names
/// a fresh object of class `c` whose slots hold every argument at its
/// field's offsets, as [`slots_after_inits`] describes, and nothing else
/// in the store changed.  On failure the store is untouched.
#[verifier::loop_isolation(false)]
pub fn construct(reg: &Registry, store: &mut ObjectStore, c: usize, args: Vec<Value>) -> (r:
    Result<usize, Error>)
    requires
        reg.wf(),
        old(store).wf(*reg),
        c < reg.classes@.len(),
    ensures
        final(store).wf(*reg),
        final(store).capacity == old(store).capacity,
        r == construct_outcome(*reg, *old(store), c as int, args@),
        r is Err ==> *final(store) == *old(store),
        r matches Ok(h) ==> {
            &&& h == old(store).objects@.len()
            &&& final(store).objects@.len() == old(store).objects@.len() + 1
            &&& forall|k: int|
                0 <= k < old(store).objects@.len() ==> final(store).objects@[k] == old(
                    store,
                ).objects@[k]
            &&& final(store).objects@[h as int].class == c
            &&& final(store).objects@[h as int].slots@ == slots_after_inits(
                *reg,
                c as int,
                args@,
                spec_num_fields(*reg, c as int),
            )
        },
{
    let n = num_fields(reg, c);
    if args.len() != n as usize {
        return Err(Error::ArityMismatch);
    }
    if store.objects.len() >= store.capacity {
        return Err(Error::AllocationFailure);
    }
    let mut i: usize = 0;
    while i < args.len()
        invariant
            i <= args@.len(),
            forall|k: int|
                0 <= k < i ==> spec_value_matches(
                    *reg,
                    store.objects@,
                    #[trigger] args@[k],
                    flat_ty(*reg, c as int, k),
                ),
            *store == *old(store),
        decreases args@.len() - i,
    {
        let ty = field_ty(reg, c, i);
        if !check_value_matches(reg, &store.objects, &args[i], ty) {
            proof {
                lemma_first_bad_skip(*reg, *store, c as int, args@, i as int);
            }
            return Err(Error::ArgumentConversion(i));
        }
        i = i + 1;
    }
    proof {
        lemma_first_bad_skip(*reg, *store, c as int, args@, args@.len() as int);
    }
    let ghost all_args = args@;
    let ghost pre = *store;
    let h: usize = match store.allocate(reg, c) {
        Ok(h) => h,
        Err(_) => {
            proof {
                assert(false);
            }
            return Err(Error::AllocationFailure);
        },
    };
    let mut rest = args;
    let mut k: usize = 0;
    while k < n as usize
        invariant
            k <= n as usize,
            rest@ == all_args.skip(k as int),
            store.wf(*reg),
            store.capacity == old(store).capacity,
            store.objects@.len() == old(store).objects@.len() + 1,
            h == old(store).objects@.len(),
            forall|j: int|
                0 <= j < old(store).objects@.len() ==> store.objects@[j] == old(store).objects@[j],
            store.objects@[h as int].class == c,
            store.objects@[h as int].slots@ == slots_after_inits(*reg, c as int, all_args, k as int),
            forall|j: int|
                k <= j < all_args.len() ==> spec_value_matches(
                    *reg,
                    store.objects@,
                    #[trigger] all_args[j],
                    flat_ty(*reg, c as int, j),
                ),
        decreases n as usize - k,
    {
        let v = rest.remove(0);
        proof {
            assert(rest@ =~= all_args.skip(k as int + 1));
            assert(spec_extends(*reg, c as int, c as int));
        }
        let ghost before_set = *store;
        let res = set_field(reg, store, c, h, k, v);
        proof {
            assert forall|j: int|
                k + 1 <= j < all_args.len() implies spec_value_matches(
                *reg,
                store.objects@,
                #[trigger] all_args[j],
                flat_ty(*reg, c as int, j),
            ) by {
                lemma_matches_same_classes(
                    *reg,
                    before_set.objects@,
                    store.objects@,
                    all_args[j],
                    flat_ty(*reg, c as int, j),
                );
            }
        }
        k = k + 1;
    }
    Ok(h)
}

/// Constructor arity and completeness: a successful construction hands
/// back an instance on which every declared field's getter returns the
/// supplied argument.  `after` is the store the construction left behind,
/// as `construct`'s contract describes it.
pub proof fn lemma_construct_then_get(
    reg: Registry,
    before: ObjectStore,
    after: ObjectStore,
    c: int,
    args: Seq<Value>,
    h: int,
    i: int,
)
    requires
        reg.wf(),
        before.wf(reg),
        0 <= c < reg.classes@.len(),
        construct_outcome(reg, before, c, args) is Ok,
        h == before.objects@.len(),
        after.objects@.len() == before.objects@.len() + 1,
        after.objects@[h as int].class == c,
        after.objects@[h as int].slots@ == slots_after_inits(
            reg,
            c,
            args,
            spec_num_fields(reg, c),
        ),
        0 <= i < spec_num_fields(reg, c),
    ensures
        get_outcome(reg, after, c, h, i) == Ok::<Value, Error>(args[i]),
{
    assert(reg.class_wf(c));
    assert(spec_extends(reg, c, c));
    lemma_first_bad_none(reg, before, c, args, 0);
    lemma_inits_preserve(reg, c, args, i, args.len() as int);
    lemma_inits_len(reg, c, args, i);
    lemma_field_in_total(reg, c, i);
    let off = flat_off(reg, c, i);
    let ty = flat_ty(reg, c, i);
    let once = slots_after_inits(reg, c, args, i + 1);
    assert(spec_value_matches(reg, before.objects@, args[i], ty));
    match ty {
        TypeRef::Sequence(_) => {
            assert(args[i] is Buf);
            assert(once[off] == args[i]);
        },
        _ => {
            assert(once[off] == args[i]);
            assert(args[i] != Value::Undefined);
        },
    }
}

/// Construction preserves the slot-typing invariant: the fresh record's
/// cells each hold the converted argument of their field, and nothing
/// else changed.  `after` is the store the construction left behind, as
/// `construct`'s contract describes it.
pub proof fn lemma_typed_after_construct(
    reg: Registry,
    before: ObjectStore,
    after: ObjectStore,
    c: int,
    args: Seq<Value>,
    h: int,
)
    requires
        reg.wf(),
        before.wf(reg),
        crate::store::store_typed(reg, before),
        0 <= c < reg.classes@.len(),
        construct_outcome(reg, before, c, args) is Ok,
        h == before.objects@.len(),
        after.objects@.len() == before.objects@.len() + 1,
        forall|k: int|
            0 <= k < before.objects@.len() ==> after.objects@[k] == #[trigger] before.objects@[k],
        after.objects@[h as int].class == c,
        after.objects@[h as int].slots@ == slots_after_inits(
            reg,
            c,
            args,
            spec_num_fields(reg, c),
        ),
    ensures
        crate::store::store_typed(reg, after),
{
    lemma_first_bad_none(reg, before, c, args, 0);
    assert forall|h2: int, i2: int|
        0 <= h2 < after.objects@.len() && 0 <= i2 < spec_num_fields(
            reg,
            after.objects@[h2].class as int,
        ) implies #[trigger] crate::store::field_cells_ok(
        reg,
        after.objects@,
        after.objects@[h2],
        after.objects@[h2].class as int,
        i2,
    ) by {
        if h2 < h {
            let b2 = before.objects@[h2];
            let cls = b2.class as int;
            assert(crate::store::field_cells_ok(reg, before.objects@, b2, cls, i2));
            crate::store::lemma_cells_ok_frame(
                reg,
                before.objects@,
                after.objects@,
                b2,
                after.objects@[h2],
                cls,
                i2,
            );
        } else {
            let nf = spec_num_fields(reg, c);
            lemma_inits_preserve(reg, c, args, i2, nf);
            lemma_inits_len(reg, c, args, i2);
            lemma_field_in_total(reg, c, i2);
            assert(reg.class_wf(c));
            let ty = flat_ty(reg, c, i2);
            let off = flat_off(reg, c, i2);
            assert(spec_value_matches(reg, before.objects@, args[i2], ty));
            lemma_matches_same_classes(reg, before.objects@, after.objects@, args[i2], ty);
            let once = slots_after_inits(reg, c, args, i2 + 1);
            match ty {
                TypeRef::Sequence(e) => {
                    if let Value::Buf(items) = args[i2] {
                        assert(once[off] == Value::Buf(items));
                        assert(once[off + 1] == Value::Int(items@.len() as i64));
                        assert(once[off + 2] == Value::Int(items@.len() as i64));
                    }
                },
                _ => {
                    assert(once[off] == args[i2]);
                },
            }
        }
    }
}

} // verus!
