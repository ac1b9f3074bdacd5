use magicdom::accessor::{get_field, set_field};
use magicdom::construct::construct;
use magicdom::dom::{attr_schema, node_schema, ATTR_LOCAL_NAME_INDEX, ATTR_NAMESPACE_INDEX,
    ATTR_NAME_INDEX, ATTR_PREFIX_INDEX, ATTR_VALUE_INDEX, BASE_URI_INDEX, IS_CONNECTED_INDEX,
    NODE_NAME_INDEX, NODE_TYPE_INDEX, NODE_VALUE_INDEX, TEXT_CONTENT_INDEX};
use magicdom::layout::{register, Registry};
use magicdom::store::ObjectStore;
use magicdom::value::Value;

fn s(text: &str) -> Value {
    Value::Str(text.to_string())
}

#[test]
fn attr_get_and_set() {
    let mut reg = Registry::new();
    let node = register(&mut reg, node_schema(0)).unwrap();
    let attr = register(&mut reg, attr_schema(node)).unwrap();
    let mut store = ObjectStore::new(16);

    let a = construct(
        &reg,
        &mut store,
        attr,
        vec![
            Value::Int(1),
            s("Node"),
            s("mozilla/en"),
            Value::Bool(false),
            s("n"),
            s("h1"),
            Value::Buf(vec![]),
            s("la"),
            s("a"),
            s("l"),
            s("pp"),
            s("foo"),
        ],
    )
        .unwrap();

    assert_eq!(get_field(&reg, &mut store, attr, a, NODE_TYPE_INDEX).unwrap(), Value::Int(1));
    assert_eq!(get_field(&reg, &mut store, attr, a, NODE_NAME_INDEX).unwrap(), s("Node"));
    assert_eq!(get_field(&reg, &mut store, attr, a, BASE_URI_INDEX).unwrap(), s("mozilla/en"));
    assert_eq!(
        get_field(&reg, &mut store, attr, a, IS_CONNECTED_INDEX).unwrap(),
        Value::Bool(false),
    );
    assert_eq!(get_field(&reg, &mut store, attr, a, NODE_VALUE_INDEX).unwrap(), s("n"));
    assert_eq!(get_field(&reg, &mut store, attr, a, TEXT_CONTENT_INDEX).unwrap(), s("h1"));

    set_field(&reg, &mut store, attr, a, NODE_VALUE_INDEX, s("h6")).unwrap();
    set_field(&reg, &mut store, attr, a, TEXT_CONTENT_INDEX, s("<b>")).unwrap();
    assert_eq!(get_field(&reg, &mut store, attr, a, NODE_VALUE_INDEX).unwrap(), s("h6"));
    assert_eq!(get_field(&reg, &mut store, attr, a, TEXT_CONTENT_INDEX).unwrap(), s("<b>"));

    assert_eq!(get_field(&reg, &mut store, attr, a, ATTR_LOCAL_NAME_INDEX).unwrap(), s("la"));
    assert_eq!(get_field(&reg, &mut store, attr, a, ATTR_NAME_INDEX).unwrap(), s("a"));
    assert_eq!(get_field(&reg, &mut store, attr, a, ATTR_NAMESPACE_INDEX).unwrap(), s("l"));
    assert_eq!(get_field(&reg, &mut store, attr, a, ATTR_PREFIX_INDEX).unwrap(), s("pp"));
    assert_eq!(get_field(&reg, &mut store, attr, a, ATTR_VALUE_INDEX).unwrap(), s("foo"));
}
