use dex_indexer::entity::{Entity, Value};

#[test]
fn a_new_record_is_empty() {
    let entity = Entity::new();
    assert_eq!(entity.len(), 0);
    assert_eq!(entity.get("id"), None);
}

#[test]
fn an_inserted_attribute_is_found_again() {
    let mut entity = Entity::new();
    entity.insert("a".to_string(), Value::U8(1));
    entity.insert("b".to_string(), Value::U16(2));
    entity.insert("c".to_string(), Value::U64(3));
    entity.insert("d".to_string(), Value::U128(4));
    entity.insert("e".to_string(), Value::Text("five".to_string()));
    entity.insert("f".to_string(), Value::List(vec![6, 7]));
    assert_eq!(entity.len(), 6);
    assert_eq!(entity.get("a"), Some(&Value::U8(1)));
    assert_eq!(entity.get("b"), Some(&Value::U16(2)));
    assert_eq!(entity.get("c"), Some(&Value::U64(3)));
    assert_eq!(entity.get("d"), Some(&Value::U128(4)));
    assert_eq!(entity.get("e"), Some(&Value::Text("five".to_string())));
    assert_eq!(entity.get("f"), Some(&Value::List(vec![6, 7])));
    assert_eq!(entity.get("g"), None);
    assert_eq!(entity.get(""), None);
}

#[test]
fn inserting_under_a_present_name_replaces_the_value() {
    let mut entity = Entity::new();
    entity.insert("a".to_string(), Value::U8(1));
    entity.insert("b".to_string(), Value::U8(2));
    entity.insert("a".to_string(), Value::Text("new".to_string()));
    assert_eq!(entity.len(), 2);
    assert_eq!(entity.get("a"), Some(&Value::Text("new".to_string())));
    assert_eq!(entity.get("b"), Some(&Value::U8(2)));
}

#[test]
fn names_are_compared_as_whole_texts() {
    let mut entity = Entity::new();
    entity.insert("open_orders".to_string(), Value::U8(1));
    entity.insert("open_orders_owner".to_string(), Value::U8(2));
    assert_eq!(entity.get("open_orders"), Some(&Value::U8(1)));
    assert_eq!(entity.get("open_orders_owner"), Some(&Value::U8(2)));
    assert_eq!(entity.get("open"), None);
    assert_eq!(entity.get("Open_orders"), None);
}

#[test]
fn a_clone_holds_the_same_attributes() {
    let mut entity = Entity::new();
    entity.insert("a".to_string(), Value::List(vec![1, 2, 3]));
    entity.insert("b".to_string(), Value::Text("t".to_string()));
    let copy = entity.clone();
    entity.insert("a".to_string(), Value::U8(0));
    assert_eq!(copy.len(), 2);
    assert_eq!(copy.get("a"), Some(&Value::List(vec![1, 2, 3])));
    assert_eq!(copy.get("b"), Some(&Value::Text("t".to_string())));
    assert_eq!(entity.get("a"), Some(&Value::U8(0)));
}

#[test]
fn a_cloned_value_is_equal() {
    for value in [
        Value::U8(1),
        Value::U16(2),
        Value::U64(3),
        Value::U128(4),
        Value::Text("five".to_string()),
        Value::List(vec![6, 7]),
        Value::List(Vec::new()),
    ] {
        assert_eq!(value.clone(), value);
    }
}

#[test]
fn names_lists_every_attribute_once() {
    let mut entity = Entity::new();
    assert!(entity.names().is_empty());
    entity.insert("b".to_string(), Value::U8(1));
    entity.insert("a".to_string(), Value::U8(2));
    entity.insert("b".to_string(), Value::U8(3));
    let mut names = entity.names();
    names.sort();
    assert_eq!(names, vec!["a".to_string(), "b".to_string()]);
}
