use todo_list::{
    append_todo, contains_id, create_new_todo, delete_todo, fresh_id, is_valid_title,
    load_outcome, new_todo_id, normalize_title, save_outcome, save_title, submit_title,
    toggle_todo, update_todo_title, EditState, Todo,
};

const RANDOM: [u8; 16] = [
    0x46, 0xeb, 0xd0, 0xee, 0x0e, 0x6d, 0x43, 0xc9, 0xb9, 0x0d, 0xcc, 0xc3, 0x5a, 0x91, 0x3f, 0x3e,
];

fn todo(id: &str, title: &str, completed: bool) -> Todo {
    Todo { id: id.to_string(), title: title.to_string(), completed }
}

fn two_tasks() -> Vec<Todo> {
    vec![todo("1", "Task 1", false), todo("2", "Task 2", true)]
}

fn same(a: &[Todo], b: &[Todo]) -> bool {
    a.len() == b.len()
        && a.iter().zip(b.iter()).all(|(x, y)| {
            x.id == y.id && x.title == y.title && x.completed == y.completed
        })
}

#[test]
fn should_add_new_todo_to_existing_list() {
    let todos = vec![Todo {
        id: "1".to_string(),
        title: "Create Yew + TW + Rust App".to_string(),
        completed: false,
    }];
    let new_todos = create_new_todo(&todos, "New Task".to_string(), RANDOM);
    assert_eq!(new_todos.len(), 2);
    assert_eq!(new_todos[1].title, "New Task");
    assert_eq!(new_todos[1].completed, false);
}

#[test]
fn should_validate_non_empty_title() {
    assert_eq!(is_valid_title("Welcom Rust"), true);
}

#[test]
fn should_invalidate_empty_or_whitespace_title() {
    assert_eq!(is_valid_title(""), false);
    assert_eq!(is_valid_title("  "), false);
}

#[test]
fn should_remove_todo_by_id() {
    let todos = vec![
        Todo { id: "1".to_string(), title: "Task 1".to_string(), completed: false },
        Todo { id: "2".to_string(), title: "Task 2".to_string(), completed: true },
    ];
    let new_todos = delete_todo(&todos, "1");
    assert_eq!(new_todos.len(), 1);
    assert_eq!(new_todos[0].id, "2");
    assert_eq!(new_todos[0].title, "Task 2");
    assert_eq!(new_todos[0].completed, true);
}

#[test]
fn should_toggle_todo_completion_status() {
    let todos = vec![
        Todo { id: "1".to_string(), title: "Task 1".to_string(), completed: false },
        Todo { id: "2".to_string(), title: "Task 2".to_string(), completed: true },
    ];
    let new_todos = toggle_todo(&todos, "1");
    assert_eq!(new_todos.len(), 2);
    assert_eq!(new_todos[0].id, "1");
    assert_eq!(new_todos[0].title, "Task 1");
    assert_eq!(new_todos[0].completed, true);
    assert_eq!(new_todos[1].id, "2");
    assert_eq!(new_todos[1].title, "Task 2");
    assert_eq!(new_todos[1].completed, true);
}

#[test]
fn should_update_todo_title_by_id() {
    let todos = vec![
        Todo { id: "1".to_string(), title: "Task 1".to_string(), completed: false },
        Todo { id: "2".to_string(), title: "Task 2".to_string(), completed: true },
    ];
    let new_todos = update_todo_title(&todos, "1", "Updated Task");
    assert_eq!(new_todos.len(), 2);
    assert_eq!(new_todos[0].id, "1");
    assert_eq!(new_todos[0].title, "Updated Task");
    assert_eq!(new_todos[0].completed, false);
    assert_eq!(new_todos[1].id, "2");
    assert_eq!(new_todos[1].title, "Task 2");
    assert_eq!(new_todos[1].completed, true);
}

#[test]
fn add_appends_trimmed_uncompleted_entry_with_fresh_id() {
    let todos = two_tasks();
    let new_todos = create_new_todo(&todos, "  New Task \t".to_string(), RANDOM);
    assert_eq!(new_todos.len(), 3);
    assert!(same(&new_todos[..2], &todos));
    assert_eq!(new_todos[2].title, "New Task");
    assert_eq!(new_todos[2].completed, false);
    assert!(todos.iter().all(|t| t.id != new_todos[2].id));
}

#[test]
fn add_to_empty_list() {
    let new_todos = create_new_todo(&[], "x".to_string(), RANDOM);
    assert_eq!(new_todos.len(), 1);
    assert_eq!(new_todos[0].title, "x");
}

#[test]
fn new_ids_are_version_4_uuids_of_the_bytes() {
    let todos = two_tasks();
    assert_eq!(new_todo_id(&todos, [0; 16]), "00000000-0000-4000-8000-000000000000");
    assert_eq!(new_todo_id(&todos, [0xff; 16]), "ffffffff-ffff-4fff-bfff-ffffffffffff");
    assert_eq!(new_todo_id(&todos, RANDOM), "46ebd0ee-0e6d-43c9-b90d-ccc35a913f3e");
}

#[test]
fn new_id_is_made_fresh_when_taken() {
    let todos = vec![todo("00000000-0000-4000-8000-000000000000", "A", false)];
    assert_eq!(new_todo_id(&todos, [0; 16]), "00000000-0000-4000-8000-000000000000-");
    let new_todos = create_new_todo(&todos, "B".to_string(), [0; 16]);
    assert_eq!(new_todos[1].id, "00000000-0000-4000-8000-000000000000-");
}

#[test]
fn append_keeps_a_fresh_candidate() {
    let todos = two_tasks();
    let new_todos = append_todo(&todos, "3".to_string(), "Task 3");
    assert_eq!(new_todos.len(), 3);
    assert_eq!(new_todos[2].id, "3");
    assert_eq!(new_todos[2].title, "Task 3");
}

#[test]
fn append_extends_a_taken_candidate_with_dashes() {
    let todos = vec![todo("a", "A", false), todo("a-", "B", false), todo("a---", "C", true)];
    let new_todos = append_todo(&todos, "a".to_string(), "D");
    assert_eq!(new_todos[3].id, "a--");
    assert_eq!(fresh_id(&todos, "a".to_string()), "a--");
    assert_eq!(fresh_id(&todos, "b".to_string()), "b");
}

#[test]
fn contains_id_finds_only_present_ids() {
    let todos = two_tasks();
    assert!(contains_id(&todos, &"2".to_string()));
    assert!(!contains_id(&todos, &"3".to_string()));
    assert!(!contains_id(&[], &"1".to_string()));
}

#[test]
fn title_validity_examples() {
    assert_eq!(is_valid_title(""), false);
    assert_eq!(is_valid_title("   "), false);
    assert_eq!(is_valid_title("x"), true);
    assert_eq!(is_valid_title("\t\n\r "), false);
    assert_eq!(is_valid_title("\u{3000}\u{a0}"), false);
    assert_eq!(is_valid_title("  a  "), true);
}

#[test]
fn normalize_title_trims_both_ends() {
    assert_eq!(normalize_title("  Buy milk \n"), "Buy milk");
    assert_eq!(normalize_title("a  b"), "a  b");
    assert_eq!(normalize_title("   "), "");
    assert_eq!(normalize_title("\u{2003}x\u{2003}"), "x");
}

#[test]
fn remove_keeps_order_of_the_rest() {
    let todos = vec![todo("1", "A", false), todo("2", "B", true), todo("3", "C", false)];
    let new_todos = delete_todo(&todos, "2");
    assert!(same(&new_todos, &[todo("1", "A", false), todo("3", "C", false)]));
}

#[test]
fn remove_absent_id_is_no_op() {
    let todos = two_tasks();
    assert!(same(&delete_todo(&todos, "9"), &todos));
    assert!(delete_todo(&[], "1").is_empty());
}

#[test]
fn toggle_twice_gives_back_the_list() {
    let todos = two_tasks();
    let once = toggle_todo(&todos, "2");
    assert_eq!(once[1].completed, false);
    assert_eq!(once[0].completed, false);
    assert!(same(&toggle_todo(&once, "2"), &todos));
}

#[test]
fn toggle_absent_id_is_no_op() {
    let todos = two_tasks();
    assert!(same(&toggle_todo(&todos, "9"), &todos));
}

#[test]
fn rename_trims_and_touches_one_entry() {
    let todos = two_tasks();
    let new_todos = update_todo_title(&todos, "2", "  Renamed  ");
    assert!(same(&new_todos, &[todo("1", "Task 1", false), todo("2", "Renamed", true)]));
}

#[test]
fn rename_absent_id_is_no_op() {
    let todos = two_tasks();
    assert!(same(&update_todo_title(&todos, "9", "Other"), &todos));
}

#[test]
fn example_list_transitions() {
    let l = two_tasks();
    assert!(same(&toggle_todo(&l, "1"), &[todo("1", "Task 1", true), todo("2", "Task 2", true)]));
    assert!(same(&delete_todo(&l, "1"), &[todo("2", "Task 2", true)]));
    assert!(same(
        &update_todo_title(&l, "1", "Updated Task"),
        &[todo("1", "Updated Task", false), todo("2", "Task 2", true)]
    ));
}

#[test]
fn submit_rejects_blank_and_adds_otherwise() {
    let todos = two_tasks();
    assert!(submit_title(&todos, "   ", RANDOM).is_none());
    assert!(submit_title(&todos, "", RANDOM).is_none());
    let added = submit_title(&todos, " Walk ", RANDOM).unwrap();
    assert_eq!(added.len(), 3);
    assert_eq!(added[2].title, "Walk");
    assert_eq!(added[2].completed, false);
}

#[test]
fn save_title_rejects_blank_and_renames_otherwise() {
    let todos = two_tasks();
    assert!(save_title(&todos, "1", " \t ").is_none());
    let renamed = save_title(&todos, "1", " New ").unwrap();
    assert!(same(&renamed, &[todo("1", "New", false), todo("2", "Task 2", true)]));
}

#[test]
fn load_outcome_falls_back_to_empty_list() {
    let (todos, error) = load_outcome(Ok(two_tasks()));
    assert!(same(&todos, &two_tasks()));
    assert!(error.is_none());
    let (todos, error) = load_outcome(Err("KeyNotFound".to_string()));
    assert!(todos.is_empty());
    assert_eq!(error.unwrap(), "Failed to load todos: KeyNotFound");
}

#[test]
fn save_outcome_sets_or_clears_the_error() {
    assert!(save_outcome(Ok(())).is_none());
    assert_eq!(save_outcome(Err("QuotaExceeded".to_string())).unwrap(), "Storage error: QuotaExceeded");
}

#[test]
fn edit_state_starts_and_clears() {
    let mut edit = EditState::new();
    assert!(!edit.is_editing(&"1".to_string()));
    edit.start("1");
    assert!(edit.is_editing(&"1".to_string()));
    assert!(!edit.is_editing(&"2".to_string()));
    edit.clear();
    assert!(!edit.is_editing(&"1".to_string()));
}
