use todo_store::codec::FieldValue;
use todo_store::query::{create_query, delete_query, get_query, list_query, toggle_query};

#[test]
fn create_statement_binds_the_title() {
    let q = create_query(String::from("buy milk"));
    assert_eq!(q.text, "CREATE task SET title = $title, completed = false RETURN AFTER;");
    assert_eq!(q.bindings.len(), 1);
    assert_eq!(q.bindings[0].name, "title");
    match &q.bindings[0].value {
        FieldValue::Text(s) => assert_eq!(s, "buy milk"),
        _ => panic!("the title must travel as text"),
    }
}

#[test]
fn get_statement_binds_the_identifier() {
    let q = get_query(String::from("12"));
    assert_eq!(q.text, "SELECT * FROM type::thing('task', $id);");
    assert_eq!(q.bindings.len(), 1);
    assert_eq!(q.bindings[0].name, "id");
    match &q.bindings[0].value {
        FieldValue::Text(s) => assert_eq!(s, "12"),
        _ => panic!("the identifier must travel as text"),
    }
}

#[test]
fn list_statement_binds_nothing() {
    let q = list_query();
    assert_eq!(q.text, "SELECT * FROM task;");
    assert!(q.bindings.is_empty());
}

#[test]
fn toggle_statement_is_one_atomic_update() {
    let q = toggle_query(String::from("12"));
    assert_eq!(q.text, "UPDATE type::thing('task', $id) SET completed = !completed RETURN AFTER;");
    assert_eq!(q.bindings.len(), 1);
    assert_eq!(q.bindings[0].name, "id");
}

#[test]
fn delete_statement_returns_the_removed_record() {
    let q = delete_query(String::from("12"));
    assert_eq!(q.text, "DELETE type::thing('task', $id) RETURN BEFORE;");
    assert_eq!(q.bindings.len(), 1);
    assert_eq!(q.bindings[0].name, "id");
}
