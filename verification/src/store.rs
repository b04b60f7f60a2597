use crate::errors::{CreateError, DeleteError, GetError, ListError, ToggleError};
use crate::ids::{dec_str, lemma_dec_str_injective, render_dec};
use crate::task::{AffectedRows, TaskRecord, TaskView};
use vstd::prelude::*;

verus! {

/// The mathematical value of the store: the records in their natural
/// (insertion) order, every identifier the store has ever assigned, and
/// the counter from which the next identifier is taken.
pub struct StoreModel {
    pub records: Seq<TaskView>,
    pub assigned: Set<Seq<char>>,
    pub next: nat,
}

/// Whether some record in `records` bears the identifier `id`.
pub open spec fn contains_id(records: Seq<TaskView>, id: Seq<char>) -> bool {
    exists|i: int| 0 <= i < records.len() && records[i].id == id
}

/// The index of the record bearing `id`, where one exists.
pub open spec fn idx_of(records: Seq<TaskView>, id: Seq<char>) -> int {
    choose|i: int| 0 <= i < records.len() && records[i].id == id
}

/// No two records bear the same identifier.
pub open spec fn unique_ids(records: Seq<TaskView>) -> bool {
    forall|i: int, j: int|
        #![trigger records[i].id, records[j].id]
        0 <= i < j < records.len() ==> records[i].id != records[j].id
}

/// The records after a toggle of `id`: the completion flag of the record
/// bearing `id` is negated, every other record is unchanged, and the order
/// is kept.
pub open spec fn toggle_model(records: Seq<TaskView>, id: Seq<char>) -> Seq<TaskView> {
    records.map_values(
        |t: TaskView|
            if t.id == id {
                TaskView { id: t.id, title: t.title, completed: !t.completed }
            } else {
                t
            },
    )
}

/// The records after a delete of `id`: the record bearing `id` is gone,
/// every other record is unchanged, and the order is kept.
pub open spec fn delete_model(records: Seq<TaskView>, id: Seq<char>) -> Seq<TaskView> {
    if contains_id(records, id) {
        records.remove(idx_of(records, id))
    } else {
        records
    }
}

/// The views of a sequence of records.
pub open spec fn views_of(records: Seq<TaskRecord>) -> Seq<TaskView> {
    records.map_values(|t: TaskRecord| t@)
}

/// The embedded task store: an in-memory document table holding task
/// records, and a counter from which identifiers are assigned. Each
/// operation is one store-level transaction; calls are serialized by the
/// borrow they take. Identifiers are never reused after deletion.
pub struct TaskStore {
    records: Vec<TaskRecord>,
    next_id: u64,
    assigned: Ghost<Set<Seq<char>>>,
}

impl View for TaskStore {
    type V = StoreModel;

    closed spec fn view(&self) -> StoreModel {
        StoreModel {
            records: views_of(self.records@),
            assigned: self.assigned@,
            next: self.next_id as nat,
        }
    }
}

impl TaskStore {
    /// Well-formedness: identifiers are unique, every held identifier was
    /// assigned, and every assigned identifier came from the counter.
    pub closed spec fn inv(&self) -> bool {
        &&& unique_ids(self@.records)
        &&& forall|i: int|
            0 <= i < self@.records.len() ==> self@.assigned.contains(
                #[trigger] self@.records[i].id,
            )
        &&& forall|s: Seq<char>|
            #[trigger] self@.assigned.contains(s) ==> exists|m: nat|
                m < self.next_id && s == dec_str(m)
    }

    /// A fresh, empty store with no identifier assigned yet.
    pub fn new() -> (r: TaskStore)
        ensures
            r.inv(),
            r@.records == Seq::<TaskView>::empty(),
            r@.assigned == Set::<Seq<char>>::empty(),
            r@.next == 0,
    {
        let r = TaskStore { records: Vec::new(), next_id: 0, assigned: Ghost(Set::empty()) };
        proof {
            assert(r@.records =~= Seq::<TaskView>::empty());
        }
        r
    }

    /// The index of the record bearing `id`, or `None` when no record does.
    fn find_index(&self, id: &String) -> (r: Option<usize>)
        requires
            self.inv(),
        ensures
            match r {
                Some(i) => {
                    &&& i < self@.records.len()
                    &&& self@.records[i as int].id == id@
                    &&& contains_id(self@.records, id@)
                    &&& idx_of(self@.records, id@) == i as int
                },
                None => !contains_id(self@.records, id@),
            },
    {
        let n = self.records.len();
        let mut i: usize = 0;
        while i < n
            invariant
                self.inv(),
                n == self.records.len(),
                0 <= i <= n,
                forall|k: int| 0 <= k < i ==> self@.records[k].id != id@,
            decreases n - i,
        {
            if self.records[i].id == *id {
                proof {
                    assert(self@.records[i as int].id == id@);
                    assert(contains_id(self@.records, id@));
                    let j = idx_of(self@.records, id@);
                    assert(0 <= j < self@.records.len() && self@.records[j].id == id@);
                    if j != i as int {
                        assert(self@.records[j].id != self@.records[i as int].id);
                        assert(false);
                    }
                }
                return Some(i);
            }
            i += 1;
        }
        None
    }

    /// Create: insert a new record with the given title, a fresh
    /// store-assigned identifier, and `completed` false, and return the
    /// full created record. The store rejects the insert only when its
    /// identifier space is exhausted.
    pub fn add_task(&mut self, title: String) -> (r: Result<TaskRecord, CreateError>)
        requires
            old(self).inv(),
        ensures
            final(self).inv(),
            r is Ok <==> old(self)@.next < u64::MAX as nat,
            match r {
                Ok(t) => {
                    &&& t@.completed == false
                    &&& t@.title == title@
                    &&& !old(self)@.assigned.contains(t@.id)
                    &&& final(self)@.records == old(self)@.records.push(t@)
                    &&& final(self)@.assigned == old(self)@.assigned.insert(t@.id)
                    &&& final(self)@.next == old(self)@.next + 1
                },
                Err(e) => {
                    &&& e == CreateError::StoreWrite
                    &&& final(self)@ == old(self)@
                },
            },
    {
        if self.next_id == u64::MAX {
            return Err(CreateError::StoreWrite);
        }
        let id = render_dec(self.next_id);
        proof {
            if self@.assigned.contains(id@) {
                assert(exists|m: nat| m < self.next_id && id@ == dec_str(m));
                let m = choose|m: nat| m < self.next_id && id@ == dec_str(m);
                lemma_dec_str_injective(m, self.next_id as nat);
                assert(false);
            }
        }
        let ghost old_records = self@.records;
        let ghost old_assigned = self@.assigned;
        let ghost old_next = self.next_id as nat;
        let record = TaskRecord { id, title, completed: false };
        let returned = record.duplicate();
        self.records.push(record);
        self.next_id = self.next_id + 1;
        self.assigned = Ghost(self.assigned@.insert(returned@.id));
        proof {
            assert(self@.records =~= old_records.push(returned@));
            assert(returned@.id == dec_str(old_next));
            assert forall|k: int| 0 <= k < old_records.len() implies old_records[k].id
                != returned@.id by {
                assert(old_assigned.contains(old_records[k].id));
            }
            assert forall|i: int|
                0 <= i < self@.records.len() implies self@.assigned.contains(
                #[trigger] self@.records[i].id,
            ) by {
                if i < old_records.len() {
                    assert(self@.records[i] == old_records[i]);
                }
            }
            assert forall|s: Seq<char>| #[trigger]
                self@.assigned.contains(s) implies exists|m: nat|
                m < self.next_id && s == dec_str(m) by {
                if s == returned@.id {
                    assert(old_next < self.next_id && s == dec_str(old_next));
                } else {
                    assert(old_assigned.contains(s));
                    let m = choose|m: nat| m < old_next && s == dec_str(m);
                    assert(m < self.next_id && s == dec_str(m));
                }
            }
        }
        Ok(returned)
    }

    /// Get: look up exactly one record by identifier. Fails with
    /// `NotFound` when, and only when, no record bears the identifier.
    pub fn get_task(&self, id: &String) -> (r: Result<TaskRecord, GetError>)
        requires
            self.inv(),
        ensures
            r is Ok <==> contains_id(self@.records, id@),
            match r {
                Ok(t) => t@ == self@.records[idx_of(self@.records, id@)],
                Err(e) => e == GetError::NotFound,
            },
    {
        match self.find_index(id) {
            Some(i) => Ok(self.records[i].duplicate()),
            None => Err(GetError::NotFound),
        }
    }

    /// List: return every record currently stored, in the store's natural
    /// (insertion) order. An empty store yields an empty listing, never an
    /// error.
    pub fn get_all_tasks(&self) -> (r: Result<Vec<TaskRecord>, ListError>)
        requires
            self.inv(),
        ensures
            r is Ok,
            match r {
                Ok(v) => views_of(v@) == self@.records,
                Err(_) => false,
            },
    {
        let n = self.records.len();
        let mut out: Vec<TaskRecord> = Vec::new();
        let mut i: usize = 0;
        proof {
            assert(views_of(out@) =~= self@.records.subrange(0, 0));
        }
        while i < n
            invariant
                self.inv(),
                n == self.records.len(),
                0 <= i <= n,
                views_of(out@) =~= self@.records.subrange(0, i as int),
            decreases n - i,
        {
            let ghost prev = out@;
            let dup = self.records[i].duplicate();
            let ghost duprec = dup;
            let ghost dupv = dup@;
            out.push(dup);
            proof {
                assert(out@ == prev.push(duprec));
                assert(views_of(prev).len() == prev.len());
                assert(views_of(prev).len() == self@.records.subrange(0, i as int).len());
                assert(prev.len() == i as int);
                assert(out@.len() == i as int + 1);
                assert(dupv == self@.records[i as int]);
                assert forall|k: int|
                    0 <= k < i as int + 1 implies views_of(out@)[k] == self@.records.subrange(
                    0,
                    i as int + 1,
                )[k] by {
                    assert(views_of(out@)[k] == out@[k]@);
                    if k < i as int {
                        assert(out@[k] == prev[k]);
                        assert(views_of(prev)[k] == prev[k]@);
                        assert(views_of(prev)[k] == self@.records.subrange(0, i as int)[k]);
                    } else {
                        assert(out@[k] == duprec);
                        assert(out@[k]@ == dupv);
                    }
                }
                assert(views_of(out@).len() == i as int + 1);
                assert(views_of(out@) =~= self@.records.subrange(0, i as int + 1));
            }
            i += 1;
        }
        proof {
            assert(self@.records.subrange(0, n as int) =~= self@.records);
        }
        Ok(out)
    }

    /// Toggle: negate the completion flag of the record bearing `id` in
    /// one read-modify-write transaction. Reports one affected row when a
    /// record matched and zero when none did; a missing record is not an
    /// error.
    pub fn toggle_task(&mut self, id: &String) -> (r: Result<AffectedRows, ToggleError>)
        requires
            old(self).inv(),
        ensures
            final(self).inv(),
            r is Ok,
            match r {
                Ok(n) => {
                    &&& final(self)@.records == toggle_model(old(self)@.records, id@)
                    &&& final(self)@.assigned == old(self)@.assigned
                    &&& final(self)@.next == old(self)@.next
                    &&& n.rows == (if contains_id(old(self)@.records, id@) {
                        1usize
                    } else {
                        0usize
                    })
                },
                Err(_) => false,
            },
    {
        let ghost old_records = self@.records;
        match self.find_index(id) {
            Some(i) => {
                let flipped = {
                    let t = &self.records[i];
                    TaskRecord {
                        id: t.id.clone(),
                        title: t.title.clone(),
                        completed: !t.completed,
                    }
                };
                self.records[i] = flipped;
                proof {
                    assert forall|k: int|
                        0 <= k < old_records.len() implies self@.records[k] == toggle_model(
                        old_records,
                        id@,
                    )[k] by {
                        if k != i as int {
                            assert(old_records[k].id != old_records[i as int].id);
                        }
                    }
                    assert(self@.records =~= toggle_model(old_records, id@));
                    assert forall|k: int|
                        0 <= k < self@.records.len() implies self@.assigned.contains(
                        #[trigger] self@.records[k].id,
                    ) by {
                        assert(self@.records[k].id == old_records[k].id);
                        assert(old(self)@.assigned.contains(old_records[k].id));
                    }
                }
                Ok(AffectedRows { rows: 1 })
            },
            None => {
                proof {
                    assert(toggle_model(old_records, id@) =~= old_records);
                }
                Ok(AffectedRows { rows: 0 })
            },
        }
    }

    /// Delete: remove the record bearing `id`. Reports one affected row
    /// when a record was removed and zero when none matched; "nothing to
    /// delete" is not an error. The identifier stays assigned, so it is
    /// never reused.
    pub fn delete_task(&mut self, id: &String) -> (r: Result<AffectedRows, DeleteError>)
        requires
            old(self).inv(),
        ensures
            final(self).inv(),
            r is Ok,
            match r {
                Ok(n) => {
                    &&& final(self)@.records == delete_model(old(self)@.records, id@)
                    &&& final(self)@.assigned == old(self)@.assigned
                    &&& final(self)@.next == old(self)@.next
                    &&& n.rows == (if contains_id(old(self)@.records, id@) {
                        1usize
                    } else {
                        0usize
                    })
                },
                Err(_) => false,
            },
    {
        let ghost old_records = self@.records;
        match self.find_index(id) {
            Some(i) => {
                self.records.remove(i);
                proof {
                    assert(self@.records =~= old_records.remove(i as int));
                    assert forall|a: int, b: int|
                        #![trigger self@.records[a].id, self@.records[b].id]
                        0 <= a < b < self@.records.len() implies self@.records[a].id
                        != self@.records[b].id by {
                        assert(self@.records[a] == (if a < i as int {
                            old_records[a]
                        } else {
                            old_records[a + 1]
                        }));
                        assert(self@.records[b] == (if b < i as int {
                            old_records[b]
                        } else {
                            old_records[b + 1]
                        }));
                    }
                    assert forall|k: int|
                        0 <= k < self@.records.len() implies self@.assigned.contains(
                        #[trigger] self@.records[k].id,
                    ) by {
                        assert(self@.records[k] == (if k < i as int {
                            old_records[k]
                        } else {
                            old_records[k + 1]
                        }));
                        assert(old(self)@.assigned.contains(self@.records[k].id));
                    }
                }
                Ok(AffectedRows { rows: 1 })
            },
            None => Ok(AffectedRows { rows: 0 }),
        }
    }
}

/// Law: toggling the same identifier twice restores every completion flag,
/// so the double toggle is the identity on the stored records.
pub proof fn lemma_toggle_twice_restores(records: Seq<TaskView>, id: Seq<char>)
    ensures
        toggle_model(toggle_model(records, id), id) == records,
{
    let once = toggle_model(records, id);
    let twice = toggle_model(once, id);
    assert forall|k: int| 0 <= k < records.len() implies twice[k] == records[k] by {
        assert(once[k].id == records[k].id);
    }
    assert(twice =~= records);
}

/// Law: after a delete of `id`, no record bears `id`, so a subsequent get
/// of `id` reports the identifier as absent.
pub proof fn lemma_delete_then_absent(records: Seq<TaskView>, id: Seq<char>)
    requires
        unique_ids(records),
    ensures
        !contains_id(delete_model(records, id), id),
{
    if contains_id(records, id) {
        let i = idx_of(records, id);
        let after = records.remove(i);
        assert forall|k: int| 0 <= k < after.len() implies after[k].id != id by {
            assert(after[k] == (if k < i {
                records[k]
            } else {
                records[k + 1]
            }));
            assert(records[i].id == id);
        }
    }
}

/// Law: two toggles of one identifier, serialized by the store's
/// transactions, are both applied and neither is lost: the first flips the
/// flag, the second observes the flipped value and restores it, and each
/// matches exactly one record.
pub proof fn lemma_serialized_toggles(records: Seq<TaskView>, id: Seq<char>)
    requires
        unique_ids(records),
        contains_id(records, id),
    ensures
        ({
            let once = toggle_model(records, id);
            &&& contains_id(once, id)
            &&& idx_of(once, id) == idx_of(records, id)
            &&& once[idx_of(once, id)].completed == !records[idx_of(records, id)].completed
            &&& toggle_model(once, id) == records
        }),
{
    let once = toggle_model(records, id);
    let i = idx_of(records, id);
    assert(0 <= i < records.len() && records[i].id == id);
    assert(once[i].id == id);
    assert(contains_id(once, id));
    let j = idx_of(once, id);
    assert(0 <= j < once.len() && once[j].id == id);
    if j != i {
        assert(once[j].id == records[j].id);
        assert(records[j].id != records[i].id);
        assert(false);
    }
    lemma_toggle_twice_restores(records, id);
}

} // verus!
