use crate::errors::DecodeFailure;
use crate::task::{TaskRecord, TaskView};
use vstd::prelude::*;
use vstd::string::StringExecFns;

verus! {

/// The mathematical value of one generic document value.
pub enum FieldValueView {
    Text(Seq<char>),
    Flag(bool),
    Other,
}

/// One value in a generic store document: text, a boolean flag, or some
/// other shape this codec does not read.
#[derive(Debug)]
pub enum FieldValue {
    Text(String),
    Flag(bool),
    Other,
}

impl View for FieldValue {
    type V = FieldValueView;

    open spec fn view(&self) -> FieldValueView {
        match self {
            FieldValue::Text(s) => FieldValueView::Text(s@),
            FieldValue::Flag(b) => FieldValueView::Flag(*b),
            FieldValue::Other => FieldValueView::Other,
        }
    }
}

/// The mathematical value of one named document field.
pub struct FieldView {
    pub name: Seq<char>,
    pub value: FieldValueView,
}

/// One named field of a generic store document.
#[derive(Debug)]
pub struct Field {
    pub name: String,
    pub value: FieldValue,
}

impl View for Field {
    type V = FieldView;

    open spec fn view(&self) -> FieldView {
        FieldView { name: self.name@, value: self.value@ }
    }
}

/// The views of a document's fields.
pub open spec fn fields_view(fields: Seq<Field>) -> Seq<FieldView> {
    fields.map_values(|f: Field| f@)
}

/// The value of the first field named `name`, where one exists.
pub open spec fn field_lookup(fields: Seq<FieldView>, name: Seq<char>) -> Option<FieldValueView>
    decreases fields.len(),
{
    if fields.len() == 0 {
        None
    } else if fields.first().name == name {
        Some(fields.first().value)
    } else {
        field_lookup(fields.drop_first(), name)
    }
}

/// The text a lookup found, where it found text.
pub open spec fn text_of(v: Option<FieldValueView>) -> Seq<char> {
    match v {
        Some(FieldValueView::Text(s)) => s,
        _ => Seq::empty(),
    }
}

/// The flag a lookup found, where it found a flag.
pub open spec fn flag_of(v: Option<FieldValueView>) -> bool {
    match v {
        Some(FieldValueView::Flag(b)) => b,
        _ => false,
    }
}

/// Whether a document holds the task record shape: text under "id", text
/// under "title", and a flag under "completed". Decoding is all-or-nothing:
/// a document that misses any of the three is rejected whole.
pub open spec fn task_decodable(fields: Seq<FieldView>) -> bool {
    &&& field_lookup(fields, "id"@) matches Some(FieldValueView::Text(_))
    &&& field_lookup(fields, "title"@) matches Some(FieldValueView::Text(_))
    &&& field_lookup(fields, "completed"@) matches Some(FieldValueView::Flag(_))
}

/// The record a document of the task shape denotes.
pub open spec fn decoded_task(fields: Seq<FieldView>) -> TaskView {
    TaskView {
        id: text_of(field_lookup(fields, "id"@)),
        title: text_of(field_lookup(fields, "title"@)),
        completed: flag_of(field_lookup(fields, "completed"@)),
    }
}

/// The value of the first field named `name`, or `None` when no field
/// bears that name.
fn lookup<'a>(fields: &'a Vec<Field>, name: &String) -> (r: Option<&'a FieldValue>)
    ensures
        match r {
            Some(v) => field_lookup(fields_view(fields@), name@) == Some(v@),
            None => field_lookup(fields_view(fields@), name@) is None,
        },
{
    let ghost views = fields_view(fields@);
    let n = fields.len();
    let mut i: usize = 0;
    proof {
        assert(views.skip(0) =~= views);
    }
    while i < n
        invariant
            n == fields.len(),
            0 <= i <= n,
            views == fields_view(fields@),
            views.len() == n,
            field_lookup(views, name@) == field_lookup(views.skip(i as int), name@),
        decreases n - i,
    {
        proof {
            assert(views.skip(i as int).len() == n - i);
            assert(views.skip(i as int).first() == views[i as int]);
            assert(views[i as int] == fields@[i as int]@);
        }
        if fields[i].name == *name {
            return Some(&fields[i].value);
        }
        proof {
            assert(views.skip(i as int).drop_first() =~= views.skip(i as int + 1));
        }
        i += 1;
    }
    proof {
        assert(views.skip(n as int).len() == 0);
    }
    None
}

/// Decode a generic document into a task record, all or nothing: a
/// document missing any of the three required fields, or holding one of
/// the wrong shape, is a `DecodeFailure`, never a partially populated
/// record.
pub fn decode_task(fields: &Vec<Field>) -> (r: Result<TaskRecord, DecodeFailure>)
    ensures
        r is Ok <==> task_decodable(fields_view(fields@)),
        match r {
            Ok(t) => t@ == decoded_task(fields_view(fields@)),
            Err(e) => e == DecodeFailure,
        },
{
    let id = match lookup(fields, &String::from_str("id")) {
        Some(FieldValue::Text(s)) => s.clone(),
        _ => {
            return Err(DecodeFailure);
        },
    };
    let title = match lookup(fields, &String::from_str("title")) {
        Some(FieldValue::Text(s)) => s.clone(),
        _ => {
            return Err(DecodeFailure);
        },
    };
    let completed = match lookup(fields, &String::from_str("completed")) {
        Some(FieldValue::Flag(b)) => *b,
        _ => {
            return Err(DecodeFailure);
        },
    };
    Ok(TaskRecord { id, title, completed })
}

/// Encode a task record as a generic document. Encoding always emits all
/// three fields, and the document decodes back to the same record.
pub fn encode_record(t: &TaskRecord) -> (r: Vec<Field>)
    ensures
        fields_view(r@).len() == 3,
        task_decodable(fields_view(r@)),
        decoded_task(fields_view(r@)) == t@,
{
    let mut r: Vec<Field> = Vec::new();
    r.push(Field { name: String::from_str("id"), value: FieldValue::Text(t.id.clone()) });
    r.push(Field { name: String::from_str("title"), value: FieldValue::Text(t.title.clone()) });
    r.push(Field { name: String::from_str("completed"), value: FieldValue::Flag(t.completed) });
    proof {
        reveal_strlit("id");
        reveal_strlit("title");
        reveal_strlit("completed");
        let views = fields_view(r@);
        let f_id = FieldView { name: "id"@, value: FieldValueView::Text(t.id@) };
        let f_title = FieldView { name: "title"@, value: FieldValueView::Text(t.title@) };
        let f_done = FieldView { name: "completed"@, value: FieldValueView::Flag(t.completed) };
        assert(views =~= seq![f_id, f_title, f_done]);
        assert("id"@.len() != "title"@.len());
        assert("id"@.len() != "completed"@.len());
        assert("title"@.len() != "completed"@.len());
        let tail1 = seq![f_title, f_done];
        let tail2 = seq![f_done];
        assert(views.first() == f_id);
        assert(views.drop_first() =~= tail1);
        assert(tail1.first() == f_title);
        assert(tail1.drop_first() =~= tail2);
        assert(tail2.first() == f_done);
        assert(field_lookup(views, "id"@) == Some(FieldValueView::Text(t.id@)));
        assert(field_lookup(tail1, "title"@) == Some(FieldValueView::Text(t.title@)));
        assert(field_lookup(views, "title"@) == Some(FieldValueView::Text(t.title@)));
        assert(field_lookup(tail2, "completed"@) == Some(FieldValueView::Flag(t.completed)));
        assert(field_lookup(tail1, "completed"@) == Some(FieldValueView::Flag(t.completed)));
        assert(field_lookup(views, "completed"@) == Some(FieldValueView::Flag(t.completed)));
    }
    r
}

} // verus!
