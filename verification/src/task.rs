use vstd::prelude::*;

verus! {

/// The mathematical value of a task record: identifier and title as
/// character sequences, and the completion flag.
pub struct TaskView {
    pub id: Seq<char>,
    pub title: Seq<char>,
    pub completed: bool,
}

/// One task record as the store keeps it: a unique identifier assigned at
/// creation, a title set at creation and immutable thereafter, and a
/// completion flag that toggle operations flip.
#[derive(Debug)]
pub struct TaskRecord {
    pub id: String,
    pub title: String,
    pub completed: bool,
}

impl View for TaskRecord {
    type V = TaskView;

    open spec fn view(&self) -> TaskView {
        TaskView { id: self.id@, title: self.title@, completed: self.completed }
    }
}

impl TaskRecord {
    /// An equal record with freshly owned strings.
    pub fn duplicate(&self) -> (r: TaskRecord)
        ensures
            r@ == self@,
    {
        TaskRecord { id: self.id.clone(), title: self.title.clone(), completed: self.completed }
    }
}

/// How many records a write operation mutated: 0 or 1 for the
/// single-identifier operations of this store.
#[derive(Debug, Clone, Copy, PartialEq, Eq, Structural)]
pub struct AffectedRows {
    pub rows: usize,
}

} // verus!
