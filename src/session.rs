//! State beside the list: the error shown after loading or saving, and which
//! entry is being edited.

use vstd::prelude::*;

use crate::todo::Todo;

verus! {

/// `m` is a message that reads `text`.
pub open spec fn message_is(m: Option<String>, text: Seq<char>) -> bool {
    m matches Some(s) && s@ == text
}

/// The list to start from and the error to show, given what reading the stored
/// list gave: the stored list and no error, or an empty list and a message
/// that carries the failure's description.
pub fn load_outcome(outcome: Result<Vec<Todo>, String>) -> (r: (Vec<Todo>, Option<String>))
    ensures
        match outcome {
            Ok(l) => r.0@ == l@ && r.1 is None,
            Err(detail) => r.0@.len() == 0 && message_is(r.1, "Failed to load todos: "@ + detail@),
        },
{
    match outcome {
        Ok(l) => (l, None),
        Err(detail) => {
            let mut m = "Failed to load todos: ".to_owned();
            m.append(detail.as_str());
            (Vec::new(), Some(m))
        },
    }
}

/// The error to show after the list was written to storage: none when the
/// write succeeded, else a message that carries the failure's description.
pub fn save_outcome(outcome: Result<(), String>) -> (r: Option<String>)
    ensures
        match outcome {
            Ok(_) => r is None,
            Err(detail) => message_is(r, "Storage error: "@ + detail@),
        },
{
    match outcome {
        Ok(_) => None,
        Err(detail) => {
            let mut m = "Storage error: ".to_owned();
            m.append(detail.as_str());
            Some(m)
        },
    }
}

/// Which entry, if any, is being edited. It is not part of the list and is not stored.
pub struct EditState {
    editing: Option<String>,
}

impl View for EditState {
    type V = Option<Seq<char>>;

    closed spec fn view(&self) -> Option<Seq<char>> {
        match self.editing {
            Some(id) => Some(id@),
            None => None,
        }
    }
}

impl EditState {
    /// No entry is being edited.
    pub fn new() -> (r: EditState)
        ensures
            r@ is None,
    {
        EditState { editing: None }
    }

    /// The entry of id `id` is being edited.
    pub fn start(&mut self, id: &str)
        ensures
            final(self)@ == Some(id@),
    {
        self.editing = Some(id.to_owned());
    }

    /// Editing ends, saved or cancelled.
    pub fn clear(&mut self)
        ensures
            final(self)@ is None,
    {
        self.editing = None;
    }

    /// Whether the entry of id `id` is being edited.
    pub fn is_editing(&self, id: &String) -> (r: bool)
        ensures
            r == (self@ == Some(id@)),
    {
        match &self.editing {
            Some(e) => *e == *id,
            None => false,
        }
    }
}

} // verus!
