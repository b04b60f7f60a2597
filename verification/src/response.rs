use crate::codec::{decode_task, decoded_task, fields_view, task_decodable, Field, FieldView};
use crate::errors::{CreateError, DeleteError, GetError, ListError, ToggleError};
use crate::store::views_of;
use crate::task::{AffectedRows, TaskRecord, TaskView};
use vstd::prelude::*;

verus! {

/// What one store-level execution reported: the documents the statement
/// returned, or a failure to execute it.
#[derive(Debug)]
pub enum StoreResponse {
    Rows(Vec<Vec<Field>>),
    Failure,
}

/// The views of the returned documents.
pub open spec fn rows_view(rows: Seq<Vec<Field>>) -> Seq<Seq<FieldView>> {
    rows.map_values(|d: Vec<Field>| fields_view(d@))
}

/// Whether every returned document holds the task record shape.
pub open spec fn all_decodable(docs: Seq<Seq<FieldView>>) -> bool {
    forall|i: int| 0 <= i < docs.len() ==> task_decodable(#[trigger] docs[i])
}

/// The records the documents denote.
pub open spec fn decoded_all(docs: Seq<Seq<FieldView>>) -> Seq<TaskView> {
    docs.map_values(|d: Seq<FieldView>| decoded_task(d))
}

/// Interpret what the store reported for a create: the created record is
/// decoded from the first returned document; a failed execution, an empty
/// return, and a malformed return all mean the store did not confirm the
/// insert.
pub fn interpret_create(resp: StoreResponse) -> (r: Result<TaskRecord, CreateError>)
    ensures
        r is Ok <==> (resp matches StoreResponse::Rows(docs) && rows_view(docs@).len() > 0
            && task_decodable(rows_view(docs@)[0])),
        match r {
            Ok(t) => resp matches StoreResponse::Rows(docs) && t@ == decoded_task(
                rows_view(docs@)[0],
            ),
            Err(e) => e == CreateError::StoreWrite,
        },
{
    match resp {
        StoreResponse::Failure => Err(CreateError::StoreWrite),
        StoreResponse::Rows(docs) => {
            if docs.len() == 0 {
                Err(CreateError::StoreWrite)
            } else {
                proof {
                    assert(rows_view(docs@)[0] == fields_view(docs@[0]@));
                }
                match decode_task(&docs[0]) {
                    Ok(t) => Ok(t),
                    Err(_) => Err(CreateError::StoreWrite),
                }
            }
        },
    }
}

/// Interpret what the store reported for a get: an empty return means no
/// record bears the identifier, which is `NotFound`; a failed execution or
/// a malformed document means the lookup could not be answered, which is
/// `StoreRead`. The two stay distinct.
pub fn interpret_get(resp: StoreResponse) -> (r: Result<TaskRecord, GetError>)
    ensures
        match r {
            Ok(t) => resp matches StoreResponse::Rows(docs) && rows_view(docs@).len() > 0
                && task_decodable(rows_view(docs@)[0]) && t@ == decoded_task(rows_view(docs@)[0]),
            Err(GetError::NotFound) => resp matches StoreResponse::Rows(docs) && docs@.len() == 0,
            Err(GetError::StoreRead) => resp is Failure || (resp matches StoreResponse::Rows(docs)
                && docs@.len() > 0 && !task_decodable(rows_view(docs@)[0])),
        },
{
    match resp {
        StoreResponse::Failure => Err(GetError::StoreRead),
        StoreResponse::Rows(docs) => {
            if docs.len() == 0 {
                Err(GetError::NotFound)
            } else {
                proof {
                    assert(rows_view(docs@)[0] == fields_view(docs@[0]@));
                }
                match decode_task(&docs[0]) {
                    Ok(t) => Ok(t),
                    Err(_) => Err(GetError::StoreRead),
                }
            }
        },
    }
}

/// Interpret what the store reported for a listing: every returned
/// document is decoded, all or nothing. An empty return is a normal empty
/// listing, never an error.
#[verifier::loop_isolation(false)]
pub fn interpret_list(resp: StoreResponse) -> (r: Result<Vec<TaskRecord>, ListError>)
    ensures
        r is Ok <==> (resp matches StoreResponse::Rows(docs) && all_decodable(rows_view(docs@))),
        match r {
            Ok(v) => resp matches StoreResponse::Rows(docs) && views_of(v@) == decoded_all(
                rows_view(docs@),
            ),
            Err(e) => e == ListError::StoreRead,
        },
{
    match resp {
        StoreResponse::Failure => Err(ListError::StoreRead),
        StoreResponse::Rows(docs) => {
            let ghost dviews = rows_view(docs@);
            let n = docs.len();
            let mut out: Vec<TaskRecord> = Vec::new();
            let mut i: usize = 0;
            proof {
                assert(dviews.len() == n);
                assert(views_of(out@) =~= decoded_all(dviews).subrange(0, 0));
            }
            while i < n
                invariant
                    n == docs.len(),
                    dviews == rows_view(docs@),
                    dviews.len() == n,
                    0 <= i <= n,
                    forall|k: int| 0 <= k < i ==> task_decodable(#[trigger] dviews[k]),
                    views_of(out@) =~= decoded_all(dviews).subrange(0, i as int),
                decreases n - i,
            {
                proof {
                    assert(dviews[i as int] == fields_view(docs@[i as int]@));
                }
                match decode_task(&docs[i]) {
                    Ok(t) => {
                        let ghost prev = out@;
                        let ghost trec = t;
                        out.push(t);
                        proof {
                            assert(out@ == prev.push(trec));
                            assert(decoded_all(dviews).len() == dviews.len());
                            assert(views_of(prev).len() == prev.len());
                            assert(views_of(prev).len() == decoded_all(dviews).subrange(
                                0,
                                i as int,
                            ).len());
                            assert(prev.len() == i as int);
                            assert forall|k: int|
                                0 <= k < i as int + 1 implies views_of(out@)[k] == decoded_all(
                                dviews,
                            ).subrange(0, i as int + 1)[k] by {
                                assert(views_of(out@)[k] == out@[k]@);
                                if k < i as int {
                                    assert(out@[k] == prev[k]);
                                    assert(views_of(prev)[k] == decoded_all(dviews).subrange(
                                        0,
                                        i as int,
                                    )[k]);
                                } else {
                                    assert(out@[k] == trec);
                                    assert(decoded_all(dviews)[k] == decoded_task(dviews[k]));
                                }
                            }
                            assert(views_of(out@) =~= decoded_all(dviews).subrange(
                                0,
                                i as int + 1,
                            ));
                        }
                        i += 1;
                    },
                    Err(_) => {
                        proof {
                            assert(!task_decodable(dviews[i as int]));
                            assert(!all_decodable(dviews));
                        }
                        return Err(ListError::StoreRead);
                    },
                }
            }
            proof {
                assert(decoded_all(dviews).subrange(0, n as int) =~= decoded_all(dviews));
            }
            Ok(out)
        },
    }
}

/// Interpret what the store reported for a toggle: the affected-row count
/// is the number of returned documents, each of which must hold the record
/// shape. Zero documents is the normal "no record matched" outcome, not an
/// error; a failed execution is a failed transaction.
#[verifier::loop_isolation(false)]
pub fn interpret_toggle(resp: StoreResponse) -> (r: Result<AffectedRows, ToggleError>)
    ensures
        match r {
            Ok(n) => resp matches StoreResponse::Rows(docs) && all_decodable(rows_view(docs@))
                && n.rows == docs@.len(),
            Err(ToggleError::TransactionFailure) => resp is Failure,
            Err(ToggleError::DecodeFailure) => resp matches StoreResponse::Rows(docs)
                && !all_decodable(rows_view(docs@)),
            Err(ToggleError::NotFound) => false,
        },
{
    match resp {
        StoreResponse::Failure => Err(ToggleError::TransactionFailure),
        StoreResponse::Rows(docs) => {
            let ghost dviews = rows_view(docs@);
            let n = docs.len();
            let mut i: usize = 0;
            while i < n
                invariant
                    n == docs.len(),
                    dviews == rows_view(docs@),
                    dviews.len() == n,
                    0 <= i <= n,
                    forall|k: int| 0 <= k < i ==> task_decodable(#[trigger] dviews[k]),
                decreases n - i,
            {
                proof {
                    assert(dviews[i as int] == fields_view(docs@[i as int]@));
                }
                match decode_task(&docs[i]) {
                    Ok(_) => {
                        i += 1;
                    },
                    Err(_) => {
                        proof {
                            assert(!task_decodable(dviews[i as int]));
                            assert(!all_decodable(dviews));
                        }
                        return Err(ToggleError::DecodeFailure);
                    },
                }
            }
            Ok(AffectedRows { rows: n })
        },
    }
}

/// Interpret what the store reported for a delete: the affected-row count
/// is the number of removed documents; zero is the normal "nothing to
/// delete" outcome, and only a failed execution is an error.
pub fn interpret_delete(resp: StoreResponse) -> (r: Result<AffectedRows, DeleteError>)
    ensures
        match r {
            Ok(n) => resp matches StoreResponse::Rows(docs) && n.rows == docs@.len(),
            Err(e) => e == DeleteError::StoreWrite && resp is Failure,
        },
{
    match resp {
        StoreResponse::Failure => Err(DeleteError::StoreWrite),
        StoreResponse::Rows(docs) => Ok(AffectedRows { rows: docs.len() }),
    }
}

/// Demand that a mutation matched a record: the adapter for a caller to
/// whom a missing record is `NotFound` rather than a normal zero count.
pub fn require_affected(n: AffectedRows) -> (r: Result<AffectedRows, ToggleError>)
    ensures
        match r {
            Ok(m) => m == n && n.rows >= 1,
            Err(e) => e == ToggleError::NotFound && n.rows == 0,
        },
{
    if n.rows == 0 {
        Err(ToggleError::NotFound)
    } else {
        Ok(n)
    }
}

} // verus!
