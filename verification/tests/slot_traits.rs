use magicdom::element::{element_get_attribute, qualified_name};
use magicdom::slots::{InheritanceSlots, NumSlots};
use magicdom::value::Value;

use magicdom::construct::construct;
use magicdom::dom::{attr_schema, element_schema, node_schema};
use magicdom::layout::{register, Registry};
use magicdom::store::ObjectStore;

fn s(text: &str) -> Value {
    Value::Str(text.to_string())
}

#[test]
fn per_type_slot_counts() {
    assert_eq!(<bool as NumSlots>::num_slots(), 1);
    assert_eq!(<u16 as NumSlots>::num_slots(), 1);
    assert_eq!(<i64 as NumSlots>::num_slots(), 1);
    assert_eq!(<String as NumSlots>::num_slots(), 1);
    assert_eq!(<Vec<u8> as NumSlots>::num_slots(), 3);
    assert_eq!(<bool as InheritanceSlots>::inheritance_slots(), 1);
    assert_eq!(<Vec<u8> as InheritanceSlots>::inheritance_slots(), 3);
}

#[test]
fn qualified_names_join_prefix_and_local() {
    assert_eq!(qualified_name(&s("pp"), &s("la")), "pp:la");
    assert_eq!(qualified_name(&Value::Null, &s("la")), "la");
}

#[test]
fn missing_attribute_reads_as_null() {
    let mut reg = Registry::new();
    let node = register(&mut reg, node_schema(0)).unwrap();
    let attr = register(&mut reg, attr_schema(node)).unwrap();
    let elem = register(&mut reg, element_schema(node, attr)).unwrap();
    let mut store = ObjectStore::new(16);

    let e = construct(
        &reg,
        &mut store,
        elem,
        vec![
            Value::Int(1),
            s("Node"),
            s("mozilla/en"),
            Value::Bool(false),
            s("n"),
            s("h1"),
            Value::Buf(vec![]),
            s("la"),
            s("a"),
            s("l"),
            s("pp"),
            s("foo"),
            Value::Buf(vec![]),
        ],
    )
        .unwrap();
    let missing = element_get_attribute(&reg, &mut store, elem, attr, e, "nope").unwrap();
    assert_eq!(missing, Value::Null);
}
