use magicdom::accessor::{get_field, set_field};
use magicdom::construct::construct;
use magicdom::dom::{attr_schema, element_schema, node_schema, ATTR_LOCAL_NAME_INDEX,
    ATTR_NAMESPACE_INDEX, ATTR_NAME_INDEX, ATTR_PREFIX_INDEX, ATTR_VALUE_INDEX, BASE_URI_INDEX,
    ELEMENT_ATTRS_INDEX, ELEMENT_ID_INDEX, ELEMENT_LOCAL_NAME_INDEX, ELEMENT_NAMESPACE_INDEX,
    ELEMENT_PREFIX_INDEX, ELEMENT_TAG_NAME_INDEX, IS_CONNECTED_INDEX, NODE_NAME_INDEX,
    NODE_TYPE_INDEX, NODE_VALUE_INDEX, TEXT_CONTENT_INDEX};
use magicdom::element::{element_get_attribute, element_set_attribute};
use magicdom::layout::{register, Registry};
use magicdom::store::ObjectStore;
use magicdom::value::{Item, Value};

fn s(text: &str) -> Value {
    Value::Str(text.to_string())
}

fn make_attr(
    reg: &Registry,
    store: &mut ObjectStore,
    attr: usize,
    local: &str,
    name: &str,
    namespace: &str,
    prefix: &str,
    value: &str,
) -> usize {
    construct(
        reg,
        store,
        attr,
        vec![
            Value::Int(1),
            s("Node"),
            s("mozilla/en"),
            Value::Bool(false),
            s("n"),
            s("h1"),
            Value::Buf(vec![]),
            s(local),
            s(name),
            s(namespace),
            s(prefix),
            s(value),
        ],
    )
        .unwrap()
}

fn attr_handles(reg: &Registry, store: &mut ObjectStore, elem: usize, e: usize) -> Vec<usize> {
    let taken = get_field(reg, store, elem, e, ELEMENT_ATTRS_INDEX).unwrap();
    let handles: Vec<usize> = match &taken {
        Value::Buf(items) => items
            .iter()
            .map(|it| match it {
                Item::Obj(h) => *h,
                other => panic!("attr is not a record reference: {:?}", other),
            })
            .collect(),
        other => panic!("attrs is not a list: {:?}", other),
    };
    set_field(reg, store, elem, e, ELEMENT_ATTRS_INDEX, taken).unwrap();
    handles
}

#[test]
fn element_get_and_set() {
    let mut reg = Registry::new();
    let node = register(&mut reg, node_schema(0)).unwrap();
    let attr = register(&mut reg, attr_schema(node)).unwrap();
    let elem = register(&mut reg, element_schema(node, attr)).unwrap();
    let mut store = ObjectStore::new(32);

    let attr1 = make_attr(&reg, &mut store, attr, "la", "a", "l", "pp", "foo");
    let attr2 = make_attr(&reg, &mut store, attr, "lb", "b", "l", "pp", "bar");
    let e = construct(
        &reg,
        &mut store,
        elem,
        vec![
            Value::Int(1),
            s("Node"),
            s("mozilla/en"),
            Value::Bool(false),
            s("n"),
            s("h1"),
            Value::Buf(vec![]),
            s("la"),
            s("a"),
            s("l"),
            s("pp"),
            s("foo"),
            Value::Buf(vec![Item::Obj(attr1), Item::Obj(attr2)]),
        ],
    )
        .unwrap();

    assert_eq!(get_field(&reg, &mut store, elem, e, NODE_TYPE_INDEX).unwrap(), Value::Int(1));
    assert_eq!(get_field(&reg, &mut store, elem, e, NODE_NAME_INDEX).unwrap(), s("Node"));
    assert_eq!(get_field(&reg, &mut store, elem, e, BASE_URI_INDEX).unwrap(), s("mozilla/en"));
    assert_eq!(
        get_field(&reg, &mut store, elem, e, IS_CONNECTED_INDEX).unwrap(),
        Value::Bool(false),
    );
    assert_eq!(get_field(&reg, &mut store, elem, e, NODE_VALUE_INDEX).unwrap(), s("n"));
    assert_eq!(get_field(&reg, &mut store, elem, e, TEXT_CONTENT_INDEX).unwrap(), s("h1"));

    set_field(&reg, &mut store, elem, e, NODE_VALUE_INDEX, s("h6")).unwrap();
    set_field(&reg, &mut store, elem, e, TEXT_CONTENT_INDEX, s("<b>")).unwrap();
    assert_eq!(get_field(&reg, &mut store, elem, e, NODE_VALUE_INDEX).unwrap(), s("h6"));
    assert_eq!(get_field(&reg, &mut store, elem, e, TEXT_CONTENT_INDEX).unwrap(), s("<b>"));

    assert_eq!(get_field(&reg, &mut store, elem, e, ELEMENT_LOCAL_NAME_INDEX).unwrap(), s("la"));
    assert_eq!(get_field(&reg, &mut store, elem, e, ELEMENT_TAG_NAME_INDEX).unwrap(), s("a"));
    assert_eq!(get_field(&reg, &mut store, elem, e, ELEMENT_NAMESPACE_INDEX).unwrap(), s("l"));
    assert_eq!(get_field(&reg, &mut store, elem, e, ELEMENT_PREFIX_INDEX).unwrap(), s("pp"));
    assert_eq!(get_field(&reg, &mut store, elem, e, ELEMENT_ID_INDEX).unwrap(), s("foo"));

    let attrss = attr_handles(&reg, &mut store, elem, e);
    assert_eq!(attrss, vec![attr1, attr2]);
    assert_eq!(
        get_field(&reg, &mut store, attr, attrss[0], ATTR_LOCAL_NAME_INDEX).unwrap(),
        s("la"),
    );
    assert_eq!(get_field(&reg, &mut store, attr, attrss[0], ATTR_NAME_INDEX).unwrap(), s("a"));
    assert_eq!(
        get_field(&reg, &mut store, attr, attrss[0], ATTR_NAMESPACE_INDEX).unwrap(),
        s("l"),
    );
    assert_eq!(get_field(&reg, &mut store, attr, attrss[0], ATTR_PREFIX_INDEX).unwrap(), s("pp"));
    assert_eq!(get_field(&reg, &mut store, attr, attrss[0], ATTR_VALUE_INDEX).unwrap(), s("foo"));
    assert_eq!(
        get_field(&reg, &mut store, attr, attrss[1], ATTR_LOCAL_NAME_INDEX).unwrap(),
        s("lb"),
    );
    assert_eq!(get_field(&reg, &mut store, attr, attrss[1], ATTR_NAME_INDEX).unwrap(), s("b"));
    assert_eq!(
        get_field(&reg, &mut store, attr, attrss[1], ATTR_NAMESPACE_INDEX).unwrap(),
        s("l"),
    );
    assert_eq!(get_field(&reg, &mut store, attr, attrss[1], ATTR_PREFIX_INDEX).unwrap(), s("pp"));
    assert_eq!(get_field(&reg, &mut store, attr, attrss[1], ATTR_VALUE_INDEX).unwrap(), s("bar"));

    let value = element_get_attribute(&reg, &mut store, elem, attr, e, "pp:la").unwrap();
    assert_eq!(value, s("foo"));
    let value1 = element_get_attribute(&reg, &mut store, elem, attr, e, "pp:lb").unwrap();
    assert_eq!(value1, s("bar"));

    element_set_attribute(&reg, &mut store, elem, attr, e, "pp:la", "baz".to_string()).unwrap();
    let value2 = element_get_attribute(&reg, &mut store, elem, attr, e, "pp:la").unwrap();
    assert_eq!(value2, s("baz"));

    element_set_attribute(&reg, &mut store, elem, attr, e, "id", "idbaz".to_string()).unwrap();
    let value3 = element_get_attribute(&reg, &mut store, elem, attr, e, "id").unwrap();
    assert_eq!(value3, s("idbaz"));

    set_field(&reg, &mut store, elem, e, ELEMENT_ID_INDEX, s("bar")).unwrap();
    assert_eq!(get_field(&reg, &mut store, elem, e, ELEMENT_ID_INDEX).unwrap(), s("bar"));
}
