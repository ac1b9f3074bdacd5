use magicdom::accessor::{get_field, set_field};
use magicdom::construct::construct;
use magicdom::dom::{attr_schema, element_schema, htmlelement_schema, node_schema,
    ATTR_LOCAL_NAME_INDEX, ATTR_NAMESPACE_INDEX, ATTR_NAME_INDEX, ATTR_PREFIX_INDEX,
    ATTR_VALUE_INDEX, BASE_URI_INDEX, ELEMENT_ATTRS_INDEX, ELEMENT_FIELDS, ELEMENT_ID_INDEX,
    ELEMENT_LOCAL_NAME_INDEX, ELEMENT_NAMESPACE_INDEX, ELEMENT_PREFIX_INDEX,
    ELEMENT_TAG_NAME_INDEX, IS_CONNECTED_INDEX, NODE_NAME_INDEX, NODE_TYPE_INDEX,
    NODE_VALUE_INDEX, TEXT_CONTENT_INDEX};
use magicdom::element::{element_get_attribute, element_set_attribute};
use magicdom::layout::{register, Registry};
use magicdom::store::ObjectStore;
use magicdom::value::{Item, Value};

fn s(text: &str) -> Value {
    Value::Str(text.to_string())
}

const TITLE_INDEX: usize = ELEMENT_FIELDS;
const LANG_INDEX: usize = ELEMENT_FIELDS + 1;
const TRANSLATE_INDEX: usize = ELEMENT_FIELDS + 2;
const DIR_INDEX: usize = ELEMENT_FIELDS + 3;
const HIDDEN_INDEX: usize = ELEMENT_FIELDS + 4;
const TAB_INDEX_INDEX: usize = ELEMENT_FIELDS + 5;
const ACCESS_KEY_INDEX: usize = ELEMENT_FIELDS + 6;
const ACCESS_KEY_LABEL_INDEX: usize = ELEMENT_FIELDS + 7;
const DRAGGABLE_INDEX: usize = ELEMENT_FIELDS + 8;
const SPELLCHECK_INDEX: usize = ELEMENT_FIELDS + 9;

fn make_attr(
    reg: &Registry,
    store: &mut ObjectStore,
    attr: usize,
    local: &str,
    name: &str,
    namespace: &str,
    prefix: &str,
    value: &str,
) -> usize {
    construct(
        reg,
        store,
        attr,
        vec![
            Value::Int(1),
            s("Node"),
            s("mozilla/en"),
            Value::Bool(false),
            s("n"),
            s("h1"),
            Value::Buf(vec![]),
            s(local),
            s(name),
            s(namespace),
            s(prefix),
            s(value),
        ],
    )
        .unwrap()
}

fn attr_handles(reg: &Registry, store: &mut ObjectStore, elem: usize, e: usize) -> Vec<usize> {
    let taken = get_field(reg, store, elem, e, ELEMENT_ATTRS_INDEX).unwrap();
    let handles: Vec<usize> = match &taken {
        Value::Buf(items) => items
            .iter()
            .map(|it| match it {
                Item::Obj(h) => *h,
                other => panic!("attr is not a record reference: {:?}", other),
            })
            .collect(),
        other => panic!("attrs is not a list: {:?}", other),
    };
    set_field(reg, store, elem, e, ELEMENT_ATTRS_INDEX, taken).unwrap();
    handles
}

#[test]
fn htmlelement_get_and_set() {
    let mut reg = Registry::new();
    let node = register(&mut reg, node_schema(0)).unwrap();
    let attr = register(&mut reg, attr_schema(node)).unwrap();
    let elem = register(&mut reg, element_schema(node, attr)).unwrap();
    let html = register(&mut reg, htmlelement_schema(elem)).unwrap();
    let mut store = ObjectStore::new(32);

    let attr1 = make_attr(&reg, &mut store, attr, "l", "a", "l", "p", "f");
    let attr2 = make_attr(&reg, &mut store, attr, "l", "b", "l", "p", "b");
    let e = construct(
        &reg,
        &mut store,
        html,
        vec![
            Value::Int(1),
            s("Node"),
            s("mozilla/en"),
            Value::Bool(false),
            s("n"),
            s("h1"),
            Value::Buf(vec![]),
            s("la"),
            s("a"),
            s("l"),
            s("pp"),
            s("foo"),
            Value::Buf(vec![Item::Obj(attr1), Item::Obj(attr2)]),
            s("title"),
            s("en"),
            Value::Bool(false),
            s("dir"),
            Value::Bool(false),
            Value::Int(1),
            s("ackey"),
            s("ackeylabel"),
            Value::Bool(false),
            Value::Bool(false),
        ],
    )
        .unwrap();

    assert_eq!(get_field(&reg, &mut store, html, e, NODE_TYPE_INDEX).unwrap(), Value::Int(1));
    assert_eq!(get_field(&reg, &mut store, html, e, NODE_NAME_INDEX).unwrap(), s("Node"));
    assert_eq!(get_field(&reg, &mut store, html, e, BASE_URI_INDEX).unwrap(), s("mozilla/en"));
    assert_eq!(
        get_field(&reg, &mut store, html, e, IS_CONNECTED_INDEX).unwrap(),
        Value::Bool(false),
    );
    assert_eq!(get_field(&reg, &mut store, html, e, NODE_VALUE_INDEX).unwrap(), s("n"));
    assert_eq!(get_field(&reg, &mut store, html, e, TEXT_CONTENT_INDEX).unwrap(), s("h1"));

    set_field(&reg, &mut store, html, e, NODE_VALUE_INDEX, s("h6")).unwrap();
    set_field(&reg, &mut store, html, e, TEXT_CONTENT_INDEX, s("<b>")).unwrap();
    assert_eq!(get_field(&reg, &mut store, html, e, NODE_VALUE_INDEX).unwrap(), s("h6"));
    assert_eq!(get_field(&reg, &mut store, html, e, TEXT_CONTENT_INDEX).unwrap(), s("<b>"));

    assert_eq!(get_field(&reg, &mut store, html, e, ELEMENT_LOCAL_NAME_INDEX).unwrap(), s("la"));
    assert_eq!(get_field(&reg, &mut store, html, e, ELEMENT_TAG_NAME_INDEX).unwrap(), s("a"));
    assert_eq!(get_field(&reg, &mut store, html, e, ELEMENT_NAMESPACE_INDEX).unwrap(), s("l"));
    assert_eq!(get_field(&reg, &mut store, html, e, ELEMENT_PREFIX_INDEX).unwrap(), s("pp"));
    assert_eq!(get_field(&reg, &mut store, html, e, ELEMENT_ID_INDEX).unwrap(), s("foo"));

    let attrss = attr_handles(&reg, &mut store, html, e);
    assert_eq!(attrss, vec![attr1, attr2]);

    assert_eq!(
        get_field(&reg, &mut store, attr, attrss[0], NODE_TYPE_INDEX).unwrap(),
        Value::Int(1),
    );
    assert_eq!(get_field(&reg, &mut store, attr, attrss[0], NODE_NAME_INDEX).unwrap(), s("Node"));
    assert_eq!(
        get_field(&reg, &mut store, attr, attrss[0], BASE_URI_INDEX).unwrap(),
        s("mozilla/en"),
    );
    assert_eq!(
        get_field(&reg, &mut store, attr, attrss[0], IS_CONNECTED_INDEX).unwrap(),
        Value::Bool(false),
    );
    assert_eq!(get_field(&reg, &mut store, attr, attrss[0], NODE_VALUE_INDEX).unwrap(), s("n"));
    assert_eq!(get_field(&reg, &mut store, attr, attrss[0], TEXT_CONTENT_INDEX).unwrap(), s("h1"));
    set_field(&reg, &mut store, attr, attrss[0], NODE_VALUE_INDEX, s("h6")).unwrap();
    set_field(&reg, &mut store, attr, attrss[0], TEXT_CONTENT_INDEX, s("<b>")).unwrap();
    assert_eq!(get_field(&reg, &mut store, attr, attrss[0], NODE_VALUE_INDEX).unwrap(), s("h6"));
    assert_eq!(
        get_field(&reg, &mut store, attr, attrss[0], TEXT_CONTENT_INDEX).unwrap(),
        s("<b>"),
    );
    assert_eq!(
        get_field(&reg, &mut store, attr, attrss[0], ATTR_LOCAL_NAME_INDEX).unwrap(),
        s("l"),
    );
    assert_eq!(get_field(&reg, &mut store, attr, attrss[0], ATTR_NAME_INDEX).unwrap(), s("a"));
    assert_eq!(
        get_field(&reg, &mut store, attr, attrss[0], ATTR_NAMESPACE_INDEX).unwrap(),
        s("l"),
    );
    assert_eq!(get_field(&reg, &mut store, attr, attrss[0], ATTR_PREFIX_INDEX).unwrap(), s("p"));
    assert_eq!(get_field(&reg, &mut store, attr, attrss[0], ATTR_VALUE_INDEX).unwrap(), s("f"));

    assert_eq!(
        get_field(&reg, &mut store, attr, attrss[1], NODE_TYPE_INDEX).unwrap(),
        Value::Int(1),
    );
    assert_eq!(
        get_field(&reg, &mut store, attr, attrss[1], ATTR_LOCAL_NAME_INDEX).unwrap(),
        s("l"),
    );
    assert_eq!(get_field(&reg, &mut store, attr, attrss[1], ATTR_NAME_INDEX).unwrap(), s("b"));
    assert_eq!(
        get_field(&reg, &mut store, attr, attrss[1], ATTR_NAMESPACE_INDEX).unwrap(),
        s("l"),
    );
    assert_eq!(get_field(&reg, &mut store, attr, attrss[1], ATTR_PREFIX_INDEX).unwrap(), s("p"));
    assert_eq!(get_field(&reg, &mut store, attr, attrss[1], ATTR_VALUE_INDEX).unwrap(), s("b"));

    let value = element_get_attribute(&reg, &mut store, html, attr, e, "p:l").unwrap();
    assert_eq!(value, s("f"));
    element_set_attribute(&reg, &mut store, html, attr, e, "p:l", "baz".to_string()).unwrap();
    let value2 = element_get_attribute(&reg, &mut store, html, attr, e, "p:l").unwrap();
    assert_eq!(value2, s("baz"));
    element_set_attribute(&reg, &mut store, html, attr, e, "id", "idbaz".to_string()).unwrap();
    let value3 = element_get_attribute(&reg, &mut store, html, attr, e, "id").unwrap();
    assert_eq!(value3, s("idbaz"));

    set_field(&reg, &mut store, html, e, ELEMENT_ID_INDEX, s("bar")).unwrap();
    assert_eq!(get_field(&reg, &mut store, html, e, ELEMENT_ID_INDEX).unwrap(), s("bar"));

    assert_eq!(get_field(&reg, &mut store, html, e, TITLE_INDEX).unwrap(), s("title"));
    assert_eq!(get_field(&reg, &mut store, html, e, LANG_INDEX).unwrap(), s("en"));
    assert_eq!(get_field(&reg, &mut store, html, e, TRANSLATE_INDEX).unwrap(), Value::Bool(false));
    assert_eq!(get_field(&reg, &mut store, html, e, DIR_INDEX).unwrap(), s("dir"));
    assert_eq!(get_field(&reg, &mut store, html, e, HIDDEN_INDEX).unwrap(), Value::Bool(false));
    assert_eq!(get_field(&reg, &mut store, html, e, TAB_INDEX_INDEX).unwrap(), Value::Int(1));
    assert_eq!(get_field(&reg, &mut store, html, e, ACCESS_KEY_INDEX).unwrap(), s("ackey"));
    assert_eq!(
        get_field(&reg, &mut store, html, e, ACCESS_KEY_LABEL_INDEX).unwrap(),
        s("ackeylabel"),
    );
    assert_eq!(get_field(&reg, &mut store, html, e, DRAGGABLE_INDEX).unwrap(), Value::Bool(false));
    assert_eq!(
        get_field(&reg, &mut store, html, e, SPELLCHECK_INDEX).unwrap(),
        Value::Bool(false),
    );
}
