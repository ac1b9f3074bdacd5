use magicdom::accessor::{get_field, set_field};
use magicdom::construct::construct;
use magicdom::dom::{dompoint_schema, dompointreadonly_schema};
use magicdom::layout::{register, Registry};
use magicdom::store::ObjectStore;
use magicdom::value::Value;

fn d(x: f64) -> Value {
    Value::Double(x.to_bits())
}

#[test]
fn dom_point_get_and_set() {
    let mut reg = Registry::new();
    let readonly = register(&mut reg, dompointreadonly_schema()).unwrap();
    let point = register(&mut reg, dompoint_schema(readonly)).unwrap();
    let mut store = ObjectStore::new(16);

    let dp = construct(&reg, &mut store, point, vec![d(100.0), d(2.0), d(3.0), d(4.0)]).unwrap();
    assert_eq!(get_field(&reg, &mut store, point, dp, 0).unwrap(), d(100.0));
    assert_eq!(get_field(&reg, &mut store, point, dp, 1).unwrap(), d(2.0));
    assert_eq!(get_field(&reg, &mut store, point, dp, 2).unwrap(), d(3.0));
    assert_eq!(get_field(&reg, &mut store, point, dp, 3).unwrap(), d(4.0));

    set_field(&reg, &mut store, point, dp, 0, d(2000.0)).unwrap();
    set_field(&reg, &mut store, point, dp, 1, d(3000.0)).unwrap();
    set_field(&reg, &mut store, point, dp, 2, d(4000.0)).unwrap();
    set_field(&reg, &mut store, point, dp, 3, d(5000.0)).unwrap();
    assert_eq!(get_field(&reg, &mut store, point, dp, 0).unwrap(), d(2000.0));
    assert_eq!(get_field(&reg, &mut store, point, dp, 1).unwrap(), d(3000.0));
    assert_eq!(get_field(&reg, &mut store, point, dp, 2).unwrap(), d(4000.0));
    assert_eq!(get_field(&reg, &mut store, point, dp, 3).unwrap(), d(5000.0));
}
