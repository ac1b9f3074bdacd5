use magicdom::accessor::get_field;
use magicdom::construct::construct;
use magicdom::dom::dompointreadonly_schema;
use magicdom::layout::{register, Registry};
use magicdom::store::ObjectStore;
use magicdom::value::Value;

fn d(x: f64) -> Value {
    Value::Double(x.to_bits())
}

#[test]
fn dompointreadonly_get_and_set() {
    let mut reg = Registry::new();
    let readonly = register(&mut reg, dompointreadonly_schema()).unwrap();
    let mut store = ObjectStore::new(16);

    let dp = construct(&reg, &mut store, readonly, vec![d(100.0), d(2.0), d(3.0), d(4.0)])
        .unwrap();
    assert_eq!(get_field(&reg, &mut store, readonly, dp, 0).unwrap(), d(100.0));
    assert_eq!(get_field(&reg, &mut store, readonly, dp, 1).unwrap(), d(2.0));
    assert_eq!(get_field(&reg, &mut store, readonly, dp, 2).unwrap(), d(3.0));
    assert_eq!(get_field(&reg, &mut store, readonly, dp, 3).unwrap(), d(4.0));
}
