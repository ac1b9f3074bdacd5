use magicdom::accessor::{get_field, set_field};
use magicdom::construct::construct;
use magicdom::dom::{node_schema, BASE_URI_INDEX, CHILD_NODES_INDEX, IS_CONNECTED_INDEX,
    NODE_NAME_INDEX, NODE_TYPE_INDEX, NODE_VALUE_INDEX, TEXT_CONTENT_INDEX};
use magicdom::layout::{register, Registry};
use magicdom::node::append_child;
use magicdom::store::ObjectStore;
use magicdom::value::{Item, Value};

fn s(text: &str) -> Value {
    Value::Str(text.to_string())
}

fn make_node(
    reg: &Registry,
    store: &mut ObjectStore,
    node: usize,
    name: &str,
    uri: &str,
    value: &str,
    content: &str,
) -> usize {
    construct(
        reg,
        store,
        node,
        vec![
            Value::Int(1),
            s(name),
            s(uri),
            Value::Bool(false),
            s(value),
            s(content),
            Value::Buf(vec![]),
        ],
    )
        .unwrap()
}

// Read a node's child handles, putting the composite list back afterwards
// so that the field can be read again later.
fn child_handles(reg: &Registry, store: &mut ObjectStore, node: usize, n: usize) -> Vec<usize> {
    let taken = get_field(reg, store, node, n, CHILD_NODES_INDEX).unwrap();
    let handles: Vec<usize> = match &taken {
        Value::Buf(items) => items
            .iter()
            .map(|it| match it {
                Item::Obj(h) => *h,
                other => panic!("child is not a node reference: {:?}", other),
            })
            .collect(),
        other => panic!("child_nodes is not a list: {:?}", other),
    };
    set_field(reg, store, node, n, CHILD_NODES_INDEX, taken).unwrap();
    handles
}

#[test]
fn node_child_get_and_set() {
    let mut reg = Registry::new();
    let node = register(&mut reg, node_schema(0)).unwrap();
    let mut store = ObjectStore::new(32);

    let n = make_node(&reg, &mut store, node, "Node", "mozilla/en", "n", "h1");
    let n1 = make_node(&reg, &mut store, node, "Node2", "mozilla/en", "x", "div");
    let n2 = make_node(&reg, &mut store, node, "Node3", "mozilla/en", "p", "div");
    append_child(&reg, &mut store, node, n, n1).unwrap();
    append_child(&reg, &mut store, node, n, n2).unwrap();

    let childs = child_handles(&reg, &mut store, node, n);
    assert_eq!(childs, vec![n1, n2]);

    assert_eq!(
        get_field(&reg, &mut store, node, childs[0], NODE_TYPE_INDEX).unwrap(),
        Value::Int(1),
    );
    assert_eq!(get_field(&reg, &mut store, node, childs[0], NODE_NAME_INDEX).unwrap(), s("Node2"));
    assert_eq!(
        get_field(&reg, &mut store, node, childs[0], BASE_URI_INDEX).unwrap(),
        s("mozilla/en"),
    );
    assert_eq!(
        get_field(&reg, &mut store, node, childs[0], IS_CONNECTED_INDEX).unwrap(),
        Value::Bool(false),
    );
    assert_eq!(get_field(&reg, &mut store, node, childs[0], NODE_VALUE_INDEX).unwrap(), s("x"));
    assert_eq!(get_field(&reg, &mut store, node, childs[0], TEXT_CONTENT_INDEX).unwrap(), s("div"));
    assert_eq!(child_handles(&reg, &mut store, node, childs[0]).len(), 0);

    assert_eq!(
        get_field(&reg, &mut store, node, childs[1], NODE_TYPE_INDEX).unwrap(),
        Value::Int(1),
    );
    assert_eq!(get_field(&reg, &mut store, node, childs[1], NODE_NAME_INDEX).unwrap(), s("Node3"));
    assert_eq!(
        get_field(&reg, &mut store, node, childs[1], BASE_URI_INDEX).unwrap(),
        s("mozilla/en"),
    );
    assert_eq!(
        get_field(&reg, &mut store, node, childs[1], IS_CONNECTED_INDEX).unwrap(),
        Value::Bool(false),
    );
    assert_eq!(get_field(&reg, &mut store, node, childs[1], NODE_VALUE_INDEX).unwrap(), s("p"));
    assert_eq!(get_field(&reg, &mut store, node, childs[1], TEXT_CONTENT_INDEX).unwrap(), s("div"));
    assert_eq!(child_handles(&reg, &mut store, node, childs[1]).len(), 0);

    for i in 0..4usize {
        let n3 = make_node(
            &reg,
            &mut store,
            node,
            &format!("Node{}", i),
            "mozilla/es",
            &format!("q{}", i),
            "<a>",
        );
        append_child(&reg, &mut store, node, n1, n3).unwrap();
    }
    let newchilds = child_handles(&reg, &mut store, node, childs[0]);
    assert_eq!(newchilds.len(), 4);
    for i in 0..4usize {
        let c = newchilds[i];
        assert_eq!(get_field(&reg, &mut store, node, c, NODE_TYPE_INDEX).unwrap(), Value::Int(1));
        assert_eq!(
            get_field(&reg, &mut store, node, c, NODE_NAME_INDEX).unwrap(),
            s(&format!("Node{}", i)),
        );
        assert_eq!(get_field(&reg, &mut store, node, c, BASE_URI_INDEX).unwrap(), s("mozilla/es"));
        assert_eq!(
            get_field(&reg, &mut store, node, c, IS_CONNECTED_INDEX).unwrap(),
            Value::Bool(false),
        );
        assert_eq!(
            get_field(&reg, &mut store, node, c, NODE_VALUE_INDEX).unwrap(),
            s(&format!("q{}", i)),
        );
        assert_eq!(get_field(&reg, &mut store, node, c, TEXT_CONTENT_INDEX).unwrap(), s("<a>"));
        assert_eq!(child_handles(&reg, &mut store, node, c).len(), 0);
    }
}
