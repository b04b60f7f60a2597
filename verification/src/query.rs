use crate::codec::{fields_view, Field, FieldValue, FieldValueView, FieldView};
use vstd::prelude::*;
use vstd::string::StringExecFns;

verus! {

/// One store statement ready to execute: its text, and the named values it
/// binds. Values travel as bindings, never spliced into the text, so the
/// texts are fixed and the identifiers and titles cannot alter them.
#[derive(Debug)]
pub struct Statement {
    pub text: String,
    pub bindings: Vec<Field>,
}

/// The statement text that inserts a new record with a bound title, a
/// store-assigned identifier and `completed` false, returning the created
/// record.
pub open spec fn create_text() -> Seq<char> {
    "CREATE task SET title = $title, completed = false RETURN AFTER;"@
}

/// The statement text that selects the one record bearing a bound
/// identifier.
pub open spec fn get_text() -> Seq<char> {
    "SELECT * FROM type::thing('task', $id);"@
}

/// The statement text that selects every record of the task table.
pub open spec fn list_text() -> Seq<char> {
    "SELECT * FROM task;"@
}

/// The statement text that negates the completion flag of the record
/// bearing a bound identifier in one atomic statement, returning the
/// updated record. The read and the write are one transaction, so no
/// concurrent toggle can observe the same prior value.
pub open spec fn toggle_text() -> Seq<char> {
    "UPDATE type::thing('task', $id) SET completed = !completed RETURN AFTER;"@
}

/// The statement text that removes the record bearing a bound identifier,
/// returning the removed record so the mutation count is observable.
pub open spec fn delete_text() -> Seq<char> {
    "DELETE type::thing('task', $id) RETURN BEFORE;"@
}

/// The single binding list carrying one identifier under "id".
pub open spec fn id_binding(id: Seq<char>) -> Seq<FieldView> {
    seq![FieldView { name: "id"@, value: FieldValueView::Text(id) }]
}

/// The create statement for one title.
pub fn create_query(title: String) -> (r: Statement)
    ensures
        r.text@ == create_text(),
        fields_view(r.bindings@) == seq![
            FieldView { name: "title"@, value: FieldValueView::Text(title@) },
        ],
{
    let text = String::from_str("CREATE task SET title = $title, completed = false RETURN AFTER;");
    let mut bindings: Vec<Field> = Vec::new();
    bindings.push(Field { name: String::from_str("title"), value: FieldValue::Text(title) });
    proof {
        assert(fields_view(bindings@) =~= seq![
            FieldView { name: "title"@, value: FieldValueView::Text(title@) },
        ]);
    }
    Statement { text, bindings }
}

/// The binding list for one identifier.
fn bind_id(id: String) -> (r: Vec<Field>)
    ensures
        fields_view(r@) == id_binding(id@),
{
    let mut bindings: Vec<Field> = Vec::new();
    bindings.push(Field { name: String::from_str("id"), value: FieldValue::Text(id) });
    proof {
        assert(fields_view(bindings@) =~= id_binding(id@));
    }
    bindings
}

/// The lookup statement for one identifier.
pub fn get_query(id: String) -> (r: Statement)
    ensures
        r.text@ == get_text(),
        fields_view(r.bindings@) == id_binding(id@),
{
    Statement {
        text: String::from_str("SELECT * FROM type::thing('task', $id);"),
        bindings: bind_id(id),
    }
}

/// The listing statement; it binds nothing.
pub fn list_query() -> (r: Statement)
    ensures
        r.text@ == list_text(),
        fields_view(r.bindings@) == Seq::<FieldView>::empty(),
{
    let bindings: Vec<Field> = Vec::new();
    proof {
        assert(fields_view(bindings@) =~= Seq::<FieldView>::empty());
    }
    Statement { text: String::from_str("SELECT * FROM task;"), bindings }
}

/// The toggle statement for one identifier.
pub fn toggle_query(id: String) -> (r: Statement)
    ensures
        r.text@ == toggle_text(),
        fields_view(r.bindings@) == id_binding(id@),
{
    Statement {
        text: String::from_str(
            "UPDATE type::thing('task', $id) SET completed = !completed RETURN AFTER;",
        ),
        bindings: bind_id(id),
    }
}

/// The delete statement for one identifier.
pub fn delete_query(id: String) -> (r: Statement)
    ensures
        r.text@ == delete_text(),
        fields_view(r.bindings@) == id_binding(id@),
{
    Statement {
        text: String::from_str("DELETE type::thing('task', $id) RETURN BEFORE;"),
        bindings: bind_id(id),
    }
}

} // verus!
