use todo_leptos::error::StorageError;
use todo_leptos::models::todo::Todo;
use todo_leptos::pages::home::{shown, Home, MutationKind, VersionTokens};
use todo_leptos::server_functions::todo::{add_todo, delete_todo, get_todos, update_todo};
use todo_leptos::server_functions::Context;
use todo_leptos::store::TaskStore;

fn item(id: u32, text: &str, status: bool) -> Todo {
    Todo { id, task: text.to_string(), status }
}

#[test]
fn tokens_start_at_zero() {
    let tokens = VersionTokens::new();
    assert_eq!(tokens, VersionTokens { add: 0, delete: 0, update: 0 });
    assert_eq!(tokens.key(), (0, 0, 0));
    assert_eq!(tokens.get(MutationKind::Add), 0);
    assert_eq!(tokens.get(MutationKind::Delete), 0);
    assert_eq!(tokens.get(MutationKind::Update), 0);
}

#[test]
fn issue_bumps_one_token_by_one() {
    let mut tokens = VersionTokens { add: 3, delete: 5, update: 8 };
    tokens.issue(MutationKind::Add);
    assert_eq!(tokens.key(), (4, 5, 8));
    tokens.issue(MutationKind::Delete);
    assert_eq!(tokens.key(), (4, 6, 8));
    tokens.issue(MutationKind::Update);
    assert_eq!(tokens.key(), (4, 6, 9));
    assert_eq!(tokens.get(MutationKind::Add), 4);
    assert_eq!(tokens.get(MutationKind::Delete), 6);
    assert_eq!(tokens.get(MutationKind::Update), 9);
}

#[test]
fn can_issue_until_the_token_is_full() {
    let mut tokens = VersionTokens { add: usize::MAX - 1, delete: usize::MAX, update: 0 };
    assert!(tokens.can_issue(MutationKind::Add));
    assert!(!tokens.can_issue(MutationKind::Delete));
    assert!(tokens.can_issue(MutationKind::Update));
    tokens.issue(MutationKind::Add);
    assert_eq!(tokens.add, usize::MAX);
    assert!(!tokens.can_issue(MutationKind::Add));
}

#[test]
fn new_page_waits_for_its_first_read() {
    let page = Home::new();
    assert_eq!(page.key(), (0, 0, 0));
    assert!(page.stale());
    assert!(page.todos().is_empty());
    assert!(page.can_issue(MutationKind::Add));
}

#[test]
fn read_for_the_current_key_settles() {
    let mut page = Home::new();
    let read = vec![item(0, "a", false), item(1, "b", true)];
    assert!(page.settle((0, 0, 0), Ok(read.clone())));
    assert!(!page.stale());
    assert_eq!(page.todos(), &read);
    assert_eq!(page.key(), (0, 0, 0));
}

#[test]
fn failed_read_shows_no_task() {
    let mut page = Home::new();
    assert!(page.settle((0, 0, 0), Ok(vec![item(0, "a", false)])));
    let key = page.issue(MutationKind::Delete);
    assert!(page.settle(key, Err(StorageError::StorageUnavailable)));
    assert!(page.todos().is_empty());
    assert!(!page.stale());
    let key = page.issue(MutationKind::Add);
    assert!(page.settle(key, Err(StorageError::StorageOperationFailed("locked".to_string()))));
    assert!(page.todos().is_empty());
}

#[test]
fn issue_makes_the_page_stale() {
    let mut page = Home::new();
    assert!(page.settle((0, 0, 0), Ok(vec![item(0, "a", false)])));
    let key = page.issue(MutationKind::Update);
    assert_eq!(key, (0, 0, 1));
    assert_eq!(page.key(), (0, 0, 1));
    assert_eq!(page.version(MutationKind::Update), 1);
    assert_eq!(page.version(MutationKind::Add), 0);
    assert_eq!(page.version(MutationKind::Delete), 0);
    assert!(page.stale());
    assert_eq!(page.todos(), &vec![item(0, "a", false)]);
}

#[test]
fn read_for_an_old_key_is_dropped() {
    let mut page = Home::new();
    assert!(page.settle((0, 0, 0), Ok(vec![item(0, "a", false)])));
    let first = page.issue(MutationKind::Add);
    let second = page.issue(MutationKind::Add);
    assert_eq!(first, (1, 0, 0));
    assert_eq!(second, (2, 0, 0));
    assert!(!page.settle(first, Ok(vec![item(0, "a", false), item(1, "b", false)])));
    assert!(page.stale());
    assert_eq!(page.todos(), &vec![item(0, "a", false)]);
    let newest = vec![item(0, "a", false), item(1, "b", false), item(2, "c", false)];
    assert!(page.settle(second, Ok(newest.clone())));
    assert!(!page.stale());
    assert_eq!(page.todos(), &newest);
    assert!(!page.settle((0, 0, 0), Ok(Vec::new())));
    assert_eq!(page.todos(), &newest);
}

#[test]
fn add_bumps_the_add_token_and_the_next_read_shows_the_task() {
    let mut cx = Context::with_store(TaskStore::new());
    let mut page = Home::new();
    assert!(page.settle(page.key(), get_todos(&cx)));
    assert!(page.todos().is_empty());

    let before = page.version(MutationKind::Add);
    assert_eq!(add_todo(&mut cx, "Take out the trash".to_string()), Ok(()));
    let key = page.issue(MutationKind::Add);
    assert_eq!(page.version(MutationKind::Add), before + 1);
    assert_eq!(key, (1, 0, 0));
    assert!(page.stale());

    assert!(page.settle(key, get_todos(&cx)));
    assert_eq!(page.todos(), &vec![item(0, "Take out the trash", false)]);
}

#[test]
fn every_kind_of_mutation_leads_to_a_fresh_read() {
    let mut cx = Context::with_store(TaskStore::new());
    let mut page = Home::new();
    assert!(page.settle(page.key(), get_todos(&cx)));

    add_todo(&mut cx, "a".to_string()).unwrap();
    let key = page.issue(MutationKind::Add);
    add_todo(&mut cx, "b".to_string()).unwrap();
    let key_b = page.issue(MutationKind::Add);
    assert!(!page.settle(key, Ok(vec![item(0, "a", false)])));
    assert!(page.settle(key_b, get_todos(&cx)));
    assert_eq!(page.todos(), &vec![item(0, "a", false), item(1, "b", false)]);

    update_todo(&mut cx, 1, true).unwrap();
    let key = page.issue(MutationKind::Update);
    assert_eq!(key, (2, 0, 1));
    assert!(page.settle(key, get_todos(&cx)));
    assert_eq!(page.todos(), &vec![item(0, "a", false), item(1, "b", true)]);

    delete_todo(&mut cx, 0).unwrap();
    let key = page.issue(MutationKind::Delete);
    assert_eq!(key, (2, 1, 1));
    assert!(page.settle(key, get_todos(&cx)));
    assert_eq!(page.todos(), &vec![item(1, "b", true)]);
}

#[test]
fn failed_write_still_leads_to_a_read_of_the_unchanged_store() {
    let mut cx = Context::with_store(
        TaskStore::from_todos(vec![item(u32::MAX, "last", false)]).unwrap(),
    );
    let mut page = Home::new();
    assert!(page.settle(page.key(), get_todos(&cx)));
    assert!(add_todo(&mut cx, "one more".to_string()).is_err());
    let key = page.issue(MutationKind::Add);
    assert_eq!(key, (1, 0, 0));
    assert!(page.settle(key, get_todos(&cx)));
    assert_eq!(page.todos(), &vec![item(u32::MAX, "last", false)]);
}

#[test]
fn shown_is_the_list_read_or_nothing() {
    let read = vec![item(3, "a", true), item(1, "b", false)];
    assert_eq!(shown(Ok(read.clone())), read);
    assert_eq!(shown(Ok(Vec::new())), Vec::<Todo>::new());
    assert_eq!(shown(Err(StorageError::StorageUnavailable)), Vec::<Todo>::new());
    assert_eq!(
        shown(Err(StorageError::StorageOperationFailed("disk I/O error".to_string()))),
        Vec::<Todo>::new()
    );
}
