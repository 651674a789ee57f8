//! What holds of the transitions over whole lists.

use vstd::prelude::*;

use crate::list::{appended, keeps, removed, renamed, toggled};
use crate::title::{trimmed, valid_title};
use crate::todo::{TodoView, has_id, unique_ids};

verus! {

/// Removing an id that no entry has leaves the list as it is.
proof fn lemma_removed_absent(l: Seq<TodoView>, id: Seq<char>)
    requires
        !has_id(l, id),
    ensures
        removed(l, id) == l,
    decreases l.len(),
{
    if l.len() > 0 {
        let init = l.drop_last();
        assert(init.push(l.last()) =~= l);
        assert(l[l.len() - 1].id != id);
        assert forall|i: int| 0 <= i < init.len() implies #[trigger] init[i].id != id by {
            assert(l[i].id != id);
        }
        lemma_removed_absent(init, id);
        init.lemma_filter_push(l.last(), keeps(id));
    }
}

/// Removing the id of the entry at `k`, the only one with that id, removes
/// that entry and keeps the others in their order.
proof fn lemma_removed_one(l: Seq<TodoView>, id: Seq<char>, k: int)
    requires
        unique_ids(l),
        0 <= k < l.len(),
        l[k].id == id,
    ensures
        removed(l, id) == l.remove(k),
    decreases l.len(),
{
    let init = l.drop_last();
    assert(init.push(l.last()) =~= l);
    init.lemma_filter_push(l.last(), keeps(id));
    if k == l.len() - 1 {
        assert forall|i: int| 0 <= i < init.len() implies #[trigger] init[i].id != id by {
            assert(l[i].id != l[k].id);
        }
        lemma_removed_absent(init, id);
        assert(init =~= l.remove(k));
    } else {
        assert(l[l.len() - 1].id != l[k].id);
        lemma_removed_one(init, id, k);
        assert(init.remove(k).push(l.last()) =~= l.remove(k));
    }
}

/// Adding an entry whose id no entry has gives a list one longer, with the new
/// entry last, and keeps the ids unique.
pub proof fn add_law(l: Seq<TodoView>, id: Seq<char>, title: Seq<char>)
    requires
        unique_ids(l),
        !has_id(l, id),
    ensures
        appended(l, id, title).len() == l.len() + 1,
        appended(l, id, title).last() == (TodoView { id: id, title: title, completed: false }),
        appended(l, id, title).drop_last() == l,
        unique_ids(appended(l, id, title)),
{
    let r = appended(l, id, title);
    assert(r.drop_last() =~= l);
    assert forall|i: int, j: int|
        0 <= i < r.len() && 0 <= j < r.len() && i != j implies #[trigger] r[i].id != #[trigger] r[j].id by {
        if i < l.len() && j < l.len() {
            assert(l[i].id != l[j].id);
        } else if i < l.len() {
            assert(l[i].id != id);
        } else {
            assert(l[j].id != id);
        }
    }
}

/// Removing the id of an entry of a list with unique ids takes out exactly that
/// entry: the list is one shorter, no entry has the id any more, and the other
/// entries stay in their order.
pub proof fn remove_law(l: Seq<TodoView>, id: Seq<char>)
    requires
        unique_ids(l),
        has_id(l, id),
    ensures
        removed(l, id).len() == l.len() - 1,
        !has_id(removed(l, id), id),
        exists|k: int| 0 <= k < l.len() && l[k].id == id && removed(l, id) == l.remove(k),
{
    let k = choose|k: int| 0 <= k < l.len() && #[trigger] l[k].id == id;
    lemma_removed_one(l, id, k);
    let r = l.remove(k);
    assert forall|i: int| 0 <= i < r.len() implies #[trigger] r[i].id != id by {
        if i < k {
            assert(l[i].id != l[k].id);
        } else {
            assert(l[i + 1].id != l[k].id);
        }
    }
}

/// Toggling the id of an entry of a list with unique ids flips the completed
/// flag of that entry and of no other.
pub proof fn toggle_law(l: Seq<TodoView>, id: Seq<char>)
    requires
        unique_ids(l),
        has_id(l, id),
    ensures
        exists|k: int|
            {
                &&& 0 <= k < l.len()
                &&& l[k].id == id
                &&& toggled(l, id) == l.update(
                    k,
                    TodoView { id: l[k].id, title: l[k].title, completed: !l[k].completed },
                )
            },
{
    let k = choose|k: int| 0 <= k < l.len() && #[trigger] l[k].id == id;
    assert forall|i: int| 0 <= i < l.len() && i != k implies #[trigger] l[i].id != id by {
        assert(l[i].id != l[k].id);
    }
    assert(toggled(l, id) =~= l.update(
        k,
        TodoView { id: l[k].id, title: l[k].title, completed: !l[k].completed },
    ));
}

/// Toggling the same id twice gives back the list.
pub proof fn toggle_twice_law(l: Seq<TodoView>, id: Seq<char>)
    ensures
        toggled(toggled(l, id), id) == l,
{
    assert(toggled(toggled(l, id), id) =~= l);
}

/// Renaming the entry of an id in a list with unique ids, with an accepted
/// title, gives that entry the trimmed title and changes nothing else.
pub proof fn rename_law(l: Seq<TodoView>, id: Seq<char>, title: Seq<char>)
    requires
        unique_ids(l),
        has_id(l, id),
        valid_title(title),
    ensures
        trimmed(title).len() > 0,
        exists|k: int|
            {
                &&& 0 <= k < l.len()
                &&& l[k].id == id
                &&& renamed(l, id, trimmed(title)) == l.update(
                    k,
                    TodoView { id: l[k].id, title: trimmed(title), completed: l[k].completed },
                )
            },
{
    let k = choose|k: int| 0 <= k < l.len() && #[trigger] l[k].id == id;
    assert forall|i: int| 0 <= i < l.len() && i != k implies #[trigger] l[i].id != id by {
        assert(l[i].id != l[k].id);
    }
    assert(renamed(l, id, trimmed(title)) =~= l.update(
        k,
        TodoView { id: l[k].id, title: trimmed(title), completed: l[k].completed },
    ));
}

/// Removing, toggling or renaming an id that no entry has leaves the list as it is.
pub proof fn absent_id_law(l: Seq<TodoView>, id: Seq<char>, title: Seq<char>)
    requires
        !has_id(l, id),
    ensures
        removed(l, id) == l,
        toggled(l, id) == l,
        renamed(l, id, title) == l,
{
    lemma_removed_absent(l, id);
    assert forall|i: int| 0 <= i < l.len() implies #[trigger] l[i].id != id by {}
    assert(toggled(l, id) =~= l);
    assert(renamed(l, id, title) =~= l);
}

} // verus!
