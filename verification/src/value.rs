//! Generic slot values.
//!
//! One storage cell of a host object holds one [`Value`].  Three
//! representational classes exist: inline scalars (booleans, integers,
//! doubles), references (strings, object handles) and composites, whose
//! buffer cell carries the collection's backing elements as one opaque
//! value while the neighbouring cells carry its length and capacity.
//!
//! Doubles are carried as their raw bit pattern, so that the layout logic
//! itself stays within integer arithmetic.

use vstd::prelude::*;

verus! {

/// An element of a composite field's backing buffer.
///
/// Buffer elements are always one-cell values; a composite cannot nest
/// inside another composite, mirroring how the backing store of a dynamic
/// array is a flat run of simple values.
#[derive(Debug, PartialEq, Eq)]
pub enum Item {
    /// The null reference.
    Null,
    /// An inline boolean.
    Bool(bool),
    /// An inline integral value.
    Int(i64),
    /// An inline double, as its raw bit pattern.
    Double(u64),
    /// A string value.
    Str(String),
    /// A handle to an object in the host store.
    Obj(usize),
}

/// The content of one slot of a host object, or one generic value handed to
/// a constructor or returned from a getter.
#[derive(Debug, PartialEq, Eq)]
pub enum Value {
    /// The empty sentinel: a slot not yet filled, or already moved out of.
    Undefined,
    /// The null reference.
    Null,
    /// An inline boolean.
    Bool(bool),
    /// An inline integral value.
    Int(i64),
    /// An inline double, as its raw bit pattern.
    Double(u64),
    /// A string value.
    Str(String),
    /// A handle to an object in the host store.
    Obj(usize),
    /// The backing buffer of a composite field, carried as one opaque value.
    Buf(Vec<Item>),
}

/// Equivalence of buffer elements up to string content: strings compare by
/// their character sequences, everything else structurally.
pub open spec fn item_like(a: Item, b: Item) -> bool {
    match (a, b) {
        (Item::Null, Item::Null) => true,
        (Item::Bool(x), Item::Bool(y)) => x == y,
        (Item::Int(x), Item::Int(y)) => x == y,
        (Item::Double(x), Item::Double(y)) => x == y,
        (Item::Str(x), Item::Str(y)) => x@ == y@,
        (Item::Obj(x), Item::Obj(y)) => x == y,
        _ => false,
    }
}

/// Equivalence of slot values up to string content.
///
/// Reading a copyable reference slot hands the caller a fresh string with
/// the same characters, not the stored object itself; contracts about what
/// a getter returns are therefore stated up to this relation.
pub open spec fn value_like(a: Value, b: Value) -> bool {
    match (a, b) {
        (Value::Undefined, Value::Undefined) => true,
        (Value::Null, Value::Null) => true,
        (Value::Bool(x), Value::Bool(y)) => x == y,
        (Value::Int(x), Value::Int(y)) => x == y,
        (Value::Double(x), Value::Double(y)) => x == y,
        (Value::Str(x), Value::Str(y)) => x@ == y@,
        (Value::Obj(x), Value::Obj(y)) => x == y,
        (Value::Buf(x), Value::Buf(y)) => {
            &&& x@.len() == y@.len()
            &&& forall|i: int| 0 <= i < x@.len() ==> item_like(x@[i], y@[i])
        },
        _ => false,
    }
}

/// The elements behind a buffer value; the empty sequence for anything
/// that is no buffer.
pub open spec fn buf_items(v: Value) -> Seq<Item> {
    match v {
        Value::Buf(its) => its@,
        _ => Seq::empty(),
    }
}

/// Duplicate one buffer element; the copy is `item_like` the original.
pub fn dup_item(v: &Item) -> (r: Item)
    ensures
        item_like(r, *v),
{
    match v {
        Item::Null => Item::Null,
        Item::Bool(b) => Item::Bool(*b),
        Item::Int(i) => Item::Int(*i),
        Item::Double(d) => Item::Double(*d),
        Item::Str(s) => Item::Str(s.clone()),
        Item::Obj(h) => Item::Obj(*h),
    }
}

/// Duplicate one slot value; the copy is `value_like` the original.
pub fn dup_value(v: &Value) -> (r: Value)
    ensures
        value_like(r, *v),
{
    match v {
        Value::Undefined => Value::Undefined,
        Value::Null => Value::Null,
        Value::Bool(b) => Value::Bool(*b),
        Value::Int(i) => Value::Int(*i),
        Value::Double(d) => Value::Double(*d),
        Value::Str(s) => Value::Str(s.clone()),
        Value::Obj(h) => Value::Obj(*h),
        Value::Buf(items) => {
            let mut out: Vec<Item> = Vec::new();
            let mut k: usize = 0;
            while k < items.len()
                invariant
                    k <= items@.len(),
                    out@.len() == k,
                    forall|i: int| 0 <= i < k ==> item_like(out@[i], items@[i]),
                decreases items@.len() - k,
            {
                out.push(dup_item(&items[k]));
                k = k + 1;
            }
            Value::Buf(out)
        },
    }
}

} // verus!
