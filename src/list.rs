//! The transitions of a todo list: each takes the current list and returns a new one.

use vstd::prelude::*;

use crate::title::{is_valid_title, normalize_title, trimmed, valid_title};
use crate::ids::{dashes, first_free, fresh_id, new_todo_id};
use crate::todo::{Todo, TodoView, view_list, has_id};

verus! {

/// `t` with its completed flag flipped when its id is `id`.
pub open spec fn toggle_entry(t: TodoView, id: Seq<char>) -> TodoView {
    if t.id == id {
        TodoView { id: t.id, title: t.title, completed: !t.completed }
    } else {
        t
    }
}

/// `l` with the completed flag of the entries with id `id` flipped.
pub open spec fn toggled(l: Seq<TodoView>, id: Seq<char>) -> Seq<TodoView> {
    l.map_values(|t: TodoView| toggle_entry(t, id))
}

/// `t` with the title `title` when its id is `id`.
pub open spec fn rename_entry(t: TodoView, id: Seq<char>, title: Seq<char>) -> TodoView {
    if t.id == id {
        TodoView { id: t.id, title: title, completed: t.completed }
    } else {
        t
    }
}

/// `l` with the title of the entries with id `id` replaced by `title`.
pub open spec fn renamed(l: Seq<TodoView>, id: Seq<char>, title: Seq<char>) -> Seq<TodoView> {
    l.map_values(|t: TodoView| rename_entry(t, id, title))
}

/// Holds of the entries whose id is not `id`.
pub open spec fn keeps(id: Seq<char>) -> spec_fn(TodoView) -> bool {
    |t: TodoView| t.id != id
}

/// `l` without the entries with id `id`, the others in their order.
pub open spec fn removed(l: Seq<TodoView>, id: Seq<char>) -> Seq<TodoView> {
    l.filter(keeps(id))
}

/// `l` with a new entry of id `id` and title `title`, not completed, at its end.
pub open spec fn appended(l: Seq<TodoView>, id: Seq<char>, title: Seq<char>) -> Seq<TodoView> {
    l.push(TodoView { id: id, title: title, completed: false })
}

/// Whether `s` and `t` hold the same characters.
fn same_text(s: &String, t: &String) -> (r: bool)
    ensures
        r == (s@ == t@),
{
    *s == *t
}

/// The list with the entry of id `id` removed; the same list when no entry has it.
pub fn delete_todo(todos: &[Todo], id: &str) -> (r: Vec<Todo>)
    ensures
        view_list(r@) == removed(view_list(todos@), id@),
{
    let key = id.to_owned();
    let ghost l = view_list(todos@);
    let mut r: Vec<Todo> = Vec::new();
    let mut i: usize = 0;
    while i < todos.len()
        invariant
            i <= todos@.len(),
            l == view_list(todos@),
            key@ == id@,
            view_list(r@) == removed(l.subrange(0, i as int), id@),
        decreases todos@.len() - i,
    {
        proof {
            assert(l.subrange(0, i as int + 1) =~= l.subrange(0, i as int).push(l[i as int]));
            l.subrange(0, i as int).lemma_filter_push(l[i as int], keeps(id@));
        }
        if !same_text(&todos[i].id, &key) {
            r.push(todos[i].clone());
            assert(view_list(r@) =~= removed(l.subrange(0, i as int), id@).push(l[i as int]));
        }
        i = i + 1;
    }
    assert(l.subrange(0, todos@.len() as int) =~= l);
    r
}

/// The list with the completed flag of the entry of id `id` flipped, all else unchanged.
pub fn toggle_todo(todos: &[Todo], id: &str) -> (r: Vec<Todo>)
    ensures
        view_list(r@) == toggled(view_list(todos@), id@),
{
    let key = id.to_owned();
    let ghost l = view_list(todos@);
    let mut r: Vec<Todo> = Vec::new();
    let mut i: usize = 0;
    while i < todos.len()
        invariant
            i <= todos@.len(),
            l == view_list(todos@),
            key@ == id@,
            r@.len() == i,
            forall|k: int| 0 <= k < i ==> #[trigger] r@[k]@ == toggle_entry(l[k], id@),
        decreases todos@.len() - i,
    {
        let t = &todos[i];
        let flipped = if same_text(&t.id, &key) {
            Todo { id: t.id.clone(), title: t.title.clone(), completed: !t.completed }
        } else {
            t.clone()
        };
        r.push(flipped);
        i = i + 1;
    }
    assert(view_list(r@) =~= toggled(l, id@));
    r
}

/// The list with the title of the entry of id `id` replaced by the trimmed `title`,
/// all else unchanged.
pub fn update_todo_title(todos: &[Todo], id: &str, title: &str) -> (r: Vec<Todo>)
    requires
        valid_title(title@),
    ensures
        view_list(r@) == renamed(view_list(todos@), id@, trimmed(title@)),
{
    let key = id.to_owned();
    let new_title = normalize_title(title);
    let ghost l = view_list(todos@);
    let mut r: Vec<Todo> = Vec::new();
    let mut i: usize = 0;
    while i < todos.len()
        invariant
            i <= todos@.len(),
            l == view_list(todos@),
            key@ == id@,
            new_title@ == trimmed(title@),
            r@.len() == i,
            forall|k: int| 0 <= k < i ==> #[trigger] r@[k]@ == rename_entry(l[k], id@, trimmed(title@)),
        decreases todos@.len() - i,
    {
        let t = &todos[i];
        let entry = if same_text(&t.id, &key) {
            Todo { id: t.id.clone(), title: new_title.clone(), completed: t.completed }
        } else {
            t.clone()
        };
        r.push(entry);
        i = i + 1;
    }
    assert(view_list(r@) =~= renamed(l, id@, trimmed(title@)));
    r
}

/// A copy of `todos`.
fn copy_list(todos: &[Todo]) -> (r: Vec<Todo>)
    ensures
        r@ == todos@,
{
    let mut r: Vec<Todo> = Vec::with_capacity(todos.len());
    let mut i: usize = 0;
    while i < todos.len()
        invariant
            i <= todos@.len(),
            r@ == todos@.subrange(0, i as int),
        decreases todos@.len() - i,
    {
        r.push(todos[i].clone());
        assert(r@ =~= todos@.subrange(0, i as int + 1));
        i = i + 1;
    }
    assert(r@ =~= todos@);
    r
}

/// The list with a new entry at its end: not completed, titled with the trimmed
/// `title`, and with `candidate` as its id, or `candidate` with as few dashes
/// appended as make an id that no entry of `todos` has.
pub fn append_todo(todos: &[Todo], candidate: String, title: &str) -> (r: Vec<Todo>)
    requires
        valid_title(title@),
    ensures
        r@.len() == todos@.len() + 1,
        view_list(r@) == appended(view_list(todos@), r@.last().id@, trimmed(title@)),
        first_free(view_list(todos@), candidate@, r@.last().id@),
{
    let id = fresh_id(todos, candidate);
    let mut r = copy_list(todos);
    r.push(Todo { id: id, title: normalize_title(title), completed: false });
    assert(view_list(r@) =~= appended(view_list(todos@), r@.last().id@, trimmed(title@)));
    r
}

/// The list with a new entry at its end: not completed, titled with the trimmed
/// `title`, and with an id that no entry of `todos` has, made from the
/// random bytes `random`.
pub fn create_new_todo(todos: &[Todo], title: String, random: [u8; 16]) -> (r: Vec<Todo>)
    requires
        valid_title(title@),
    ensures
        r@.len() == todos@.len() + 1,
        view_list(r@) == appended(view_list(todos@), r@.last().id@, trimmed(title@)),
        !has_id(view_list(todos@), r@.last().id@),
{
    let id = new_todo_id(todos, random);
    let r = append_todo(todos, id, title.as_str());
    proof {
        let l = view_list(todos@);
        let k = choose|k: nat|
            {
                &&& r@.last().id@ == id@ + dashes(k)
                &&& !has_id(l, r@.last().id@)
                &&& forall|j: nat| j < k ==> has_id(l, #[trigger] (id@ + dashes(j)))
            };
        if k > 0 {
            assert(id@ + dashes(0) =~= id@);
            assert(has_id(l, id@ + dashes(0)));
        }
    }
    r
}

/// The list with a new entry titled with the trimmed `text`, or `None` when
/// `text` is empty once trimmed; the new id is made from the random bytes `random`.
pub fn submit_title(todos: &[Todo], text: &str, random: [u8; 16]) -> (r: Option<Vec<Todo>>)
    ensures
        r is None <==> !valid_title(text@),
        r matches Some(n) ==> {
            &&& n@.len() == todos@.len() + 1
            &&& view_list(n@) == appended(view_list(todos@), n@.last().id@, trimmed(text@))
            &&& !has_id(view_list(todos@), n@.last().id@)
        },
{
    if is_valid_title(text) {
        Some(create_new_todo(todos, text.to_owned(), random))
    } else {
        None
    }
}

/// The list with the entry of id `id` titled with the trimmed `text`, or `None`
/// when `text` is empty once trimmed.
pub fn save_title(todos: &[Todo], id: &str, text: &str) -> (r: Option<Vec<Todo>>)
    ensures
        r is None <==> !valid_title(text@),
        r matches Some(n) ==> view_list(n@) == renamed(view_list(todos@), id@, trimmed(text@)),
{
    if is_valid_title(text) {
        Some(update_todo_title(todos, id, text))
    } else {
        None
    }
}

} // verus!
