//! Ids for new entries: a random uuid, made fresh against the ids in the list.

use vstd::prelude::*;

use crate::todo::{Todo, TodoView, view_list, has_id};

verus! {

/// `n` dashes.
pub open spec fn dashes(n: nat) -> Seq<char> {
    Seq::new(n, |i: int| '-')
}

/// `id` is `candidate` followed by the fewest dashes that make an id
/// that no entry of `l` has.
pub open spec fn first_free(l: Seq<TodoView>, candidate: Seq<char>, id: Seq<char>) -> bool {
    exists|k: nat|
        {
            &&& id == candidate + dashes(k)
            &&& !has_id(l, id)
            &&& forall|j: nat| j < k ==> has_id(l, #[trigger] (candidate + dashes(j)))
        }
}

/// The length of the longest id in `l` (0 for an empty list).
pub open spec fn longest_id(l: Seq<TodoView>) -> nat
    decreases l.len(),
{
    if l.len() == 0 {
        0
    } else {
        let rest = longest_id(l.drop_last());
        if l.last().id.len() > rest {
            l.last().id.len()
        } else {
            rest
        }
    }
}

proof fn lemma_longest_id(l: Seq<TodoView>, i: int)
    requires
        0 <= i < l.len(),
    ensures
        l[i].id.len() <= longest_id(l),
    decreases l.len(),
{
    if i < l.len() - 1 {
        lemma_longest_id(l.drop_last(), i);
    }
}

/// Whether some entry of `todos` has the id `id`.
pub fn contains_id(todos: &[Todo], id: &String) -> (r: bool)
    ensures
        r == has_id(view_list(todos@), id@),
{
    let mut i: usize = 0;
    while i < todos.len()
        invariant
            i <= todos@.len(),
            forall|k: int| 0 <= k < i ==> #[trigger] todos@[k].id@ != id@,
        decreases todos@.len() - i,
    {
        if todos[i].id == *id {
            assert(view_list(todos@)[i as int].id == id@);
            return true;
        }
        i = i + 1;
    }
    assert forall|k: int| 0 <= k < todos@.len() implies #[trigger] view_list(todos@)[k].id != id@ by {
        assert(todos@[k].id@ != id@);
    }
    false
}

/// `candidate` if no entry of `todos` has it; else `candidate` with as few
/// dashes appended as make it an id that no entry has.
pub fn fresh_id(todos: &[Todo], candidate: String) -> (r: String)
    ensures
        first_free(view_list(todos@), candidate@, r@),
        !has_id(view_list(todos@), r@),
        !has_id(view_list(todos@), candidate@) ==> r@ == candidate@,
{
    let ghost l = view_list(todos@);
    let ghost c = candidate@;
    let mut r = candidate;
    let ghost mut k: nat = 0;
    assert(c + dashes(0) =~= c);
    while contains_id(todos, &r)
        invariant
            l == view_list(todos@),
            r@ == c + dashes(k),
            forall|j: nat| j < k ==> has_id(l, #[trigger] (c + dashes(j))),
        decreases longest_id(l) + 1 - r@.len(),
    {
        proof {
            let i = choose|i: int| 0 <= i < l.len() && #[trigger] l[i].id == r@;
            lemma_longest_id(l, i);
            reveal_strlit("-");
            assert(c + dashes(k + 1) =~= r@ + "-"@);
        }
        r.append("-");
        proof {
            k = k + 1;
        }
    }
    r
}

/// Relies on `uuid::Builder::from_random_bytes` and the `Display` form of
/// `uuid::Uuid`: the version 4 uuid made of the given random bytes, written as
/// 36 lowercase hexadecimal digits and hyphens.
#[verifier::external_body]
fn uuid_text(random: [u8; 16]) -> (r: String)
    ensures
        r@.len() == 36,
{
    uuid::Builder::from_random_bytes(random).into_uuid().to_string()
}

/// An id that no entry of `todos` has: the version 4 uuid made of the
/// random bytes `random`, made fresh as `fresh_id` does.
pub fn new_todo_id(todos: &[Todo], random: [u8; 16]) -> (r: String)
    ensures
        !has_id(view_list(todos@), r@),
{
    fresh_id(todos, uuid_text(random))
}

} // verus!
