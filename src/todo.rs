//! The todo record and its mathematical view.

use vstd::prelude::*;

verus! {

/// One task of the list.
#[derive(Debug)]
pub struct Todo {
    pub id: String,
    pub title: String,
    pub completed: bool,
}

/// What a `Todo` holds, as sequences of characters.
pub struct TodoView {
    pub id: Seq<char>,
    pub title: Seq<char>,
    pub completed: bool,
}

impl View for Todo {
    type V = TodoView;

    open spec fn view(&self) -> TodoView {
        TodoView { id: self.id@, title: self.title@, completed: self.completed }
    }
}

impl Clone for Todo {
    fn clone(&self) -> (r: Self)
        ensures
            r == *self,
    {
        Todo { id: self.id.clone(), title: self.title.clone(), completed: self.completed }
    }
}

/// The views of the records of a list, in order.
pub open spec fn view_list(s: Seq<Todo>) -> Seq<TodoView> {
    s.map_values(|t: Todo| t@)
}

/// Some entry of `l` has the id `id`.
pub open spec fn has_id(l: Seq<TodoView>, id: Seq<char>) -> bool {
    exists|i: int| 0 <= i < l.len() && #[trigger] l[i].id == id
}

/// No two entries of `l` share an id.
pub open spec fn unique_ids(l: Seq<TodoView>) -> bool {
    forall|i: int, j: int|
        0 <= i < l.len() && 0 <= j < l.len() && i != j ==> #[trigger] l[i].id != #[trigger] l[j].id
}

} // verus!
