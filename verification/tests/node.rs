use magicdom::accessor::{get_field, set_field};
use magicdom::construct::construct;
use magicdom::dom::{node_schema, BASE_URI_INDEX, IS_CONNECTED_INDEX, NODE_NAME_INDEX,
    NODE_TYPE_INDEX, NODE_VALUE_INDEX, TEXT_CONTENT_INDEX};
use magicdom::layout::{register, Registry};
use magicdom::store::ObjectStore;
use magicdom::value::Value;

fn s(text: &str) -> Value {
    Value::Str(text.to_string())
}

#[test]
fn node_get_and_set() {
    let mut reg = Registry::new();
    let node = register(&mut reg, node_schema(0)).unwrap();
    assert_eq!(node, 0);
    let mut store = ObjectStore::new(16);

    let n = construct(
        &reg,
        &mut store,
        node,
        vec![
            Value::Int(1),
            s("Node"),
            s("mozilla/en"),
            Value::Bool(false),
            s("n"),
            s("h1"),
            Value::Buf(vec![]),
        ],
    )
        .unwrap();

    assert_eq!(get_field(&reg, &mut store, node, n, NODE_TYPE_INDEX).unwrap(), Value::Int(1));
    assert_eq!(get_field(&reg, &mut store, node, n, NODE_NAME_INDEX).unwrap(), s("Node"));
    assert_eq!(get_field(&reg, &mut store, node, n, BASE_URI_INDEX).unwrap(), s("mozilla/en"));
    assert_eq!(
        get_field(&reg, &mut store, node, n, IS_CONNECTED_INDEX).unwrap(),
        Value::Bool(false),
    );
    assert_eq!(get_field(&reg, &mut store, node, n, NODE_VALUE_INDEX).unwrap(), s("n"));
    assert_eq!(get_field(&reg, &mut store, node, n, TEXT_CONTENT_INDEX).unwrap(), s("h1"));

    set_field(&reg, &mut store, node, n, NODE_VALUE_INDEX, s("h6")).unwrap();
    set_field(&reg, &mut store, node, n, TEXT_CONTENT_INDEX, s("<b>")).unwrap();
    assert_eq!(get_field(&reg, &mut store, node, n, NODE_VALUE_INDEX).unwrap(), s("h6"));
    assert_eq!(get_field(&reg, &mut store, node, n, TEXT_CONTENT_INDEX).unwrap(), s("<b>"));
}
