//! A todo list held as an ordered sequence of records with unique ids,
//! changed only through pure transitions whose results are stated exactly.

pub mod ids;
pub mod laws;
pub mod list;
pub mod session;
pub mod title;
pub mod todo;

pub use ids::{contains_id, fresh_id, new_todo_id};
pub use list::{
    append_todo, create_new_todo, delete_todo, save_title, submit_title, toggle_todo,
    update_todo_title,
};
pub use session::{load_outcome, save_outcome, EditState};
pub use title::{is_valid_title, normalize_title};
pub use todo::Todo;
