use todo_service::handlers::{STATUS_CREATED, STATUS_OK};
use todo_service::identifier::has_random_layout;
use todo_service::{get_todo_by_id, get_todos, save_todo, CreateTodo, Store, Todo};
use uuid::Uuid;

#[test]
fn save_note() {
    let todo1 = Todo {
        id: Uuid::new_v4().as_u128(),
        user: None,
        text: "todo 1".to_owned(),
        completed: false,
    };
    let todo2 = Todo {
        id: Uuid::new_v4().as_u128(),
        user: Some("user".to_owned()),
        text: "todo 2".to_owned(),
        completed: true,
    };
    let mut store = Store::new();
    assert_eq!(store.insert(todo1), Ok(()));
    assert_eq!(store.insert(todo2), Ok(()));

    let input = CreateTodo { text: "test todo".to_owned(), user: Some("user".to_owned()) };
    let (status, body) = save_todo(input, &mut store).unwrap();

    assert_eq!(status, 201);
    assert_eq!(status, STATUS_CREATED);
    assert_eq!(body.text, "test todo".to_owned());
    assert_eq!(body.user, Some("user".to_owned()));
}

#[test]
fn get_note_by_id() {
    let todo1 = Todo {
        id: Uuid::new_v4().as_u128(),
        user: None,
        text: "todo 1".to_owned(),
        completed: false,
    };
    let todo2 = Todo {
        id: Uuid::new_v4().as_u128(),
        user: Some("user".to_owned()),
        text: "todo 2".to_owned(),
        completed: true,
    };
    let search_todo = todo1.clone();
    let mut store = Store::new();
    assert_eq!(store.insert(todo1), Ok(()));
    assert_eq!(store.insert(todo2), Ok(()));

    let (status, body) = get_todo_by_id(search_todo.id, &store);

    assert_eq!(status, 200);
    let body = body.unwrap();
    assert_eq!(body.text, search_todo.text);
    assert_eq!(body.user, search_todo.user);
    assert_eq!(body.id, search_todo.id);
}

#[test]
fn empty_list() {
    let store = Store::new();

    let (status, body) = get_todos(&store);

    assert_eq!(status, 200);
    assert_eq!(status, STATUS_OK);
    assert!(body.is_empty());
}

#[test]
fn saved_todo_is_new_and_not_completed() {
    let mut store = Store::new();
    let input = CreateTodo { text: "test todo".to_owned(), user: Some("user".to_owned()) };

    let (status, body) = save_todo(input, &mut store).unwrap();

    assert_eq!(status, 201);
    assert_eq!(body.text, "test todo");
    assert_eq!(body.user, Some("user".to_owned()));
    assert!(!body.completed);
    assert_ne!(body.id, 0);
    assert!(has_random_layout(body.id));
    assert!(!Uuid::from_u128(body.id).to_string().is_empty());
    assert_eq!(store.get(body.id), Some(body));
}

#[test]
fn saving_into_an_empty_store_succeeds() {
    let mut store = Store::new();
    let input = CreateTodo { text: "first".to_owned(), user: None };

    let saved = save_todo(input, &mut store);

    assert!(saved.is_ok());
    let (status, body) = saved.unwrap();
    assert_eq!(status, 201);
    assert_eq!(get_todos(&store).1, vec![body]);
}

#[test]
fn saved_todo_without_user() {
    let mut store = Store::new();
    let input = CreateTodo { text: "alone".to_owned(), user: None };

    let (status, body) = save_todo(input, &mut store).unwrap();

    assert_eq!(status, 201);
    assert_eq!(body.user, None);
    assert_eq!(body.text, "alone");
    assert!(!body.completed);
}

#[test]
fn seeded_todo_is_returned_exactly() {
    let known = Todo {
        id: Uuid::new_v4().as_u128(),
        user: Some("user".to_owned()),
        text: "todo 2".to_owned(),
        completed: true,
    };
    let mut store = Store::new();
    assert_eq!(store.insert(known.clone()), Ok(()));

    let (status, body) = get_todo_by_id(known.id, &store);

    assert_eq!(status, 200);
    let body = body.unwrap();
    assert_eq!(body.id, known.id);
    assert_eq!(body.user, known.user);
    assert_eq!(body.text, known.text);
    assert_eq!(body.completed, known.completed);
    assert_eq!(body, known);
}

#[test]
fn missing_todo_is_answered_with_ok_and_no_value() {
    let mut store = Store::new();
    let input = CreateTodo { text: "todo 1".to_owned(), user: None };
    let (_, made) = save_todo(input, &mut store).unwrap();
    let mut unused = Uuid::new_v4().as_u128();
    if unused == made.id {
        unused = made.id ^ 1;
    }

    let (status, body) = get_todo_by_id(unused, &store);

    assert_eq!(status, 200);
    assert_eq!(body, None);
}

#[test]
fn listing_after_saving_holds_what_was_saved() {
    let mut store = Store::new();
    let (_, first) =
        save_todo(CreateTodo { text: "todo 1".to_owned(), user: None }, &mut store).unwrap();
    let (_, second) = save_todo(
        CreateTodo { text: "todo 2".to_owned(), user: Some("user".to_owned()) },
        &mut store,
    )
    .unwrap();

    let (status, body) = get_todos(&store);

    assert_eq!(status, 200);
    assert_eq!(body.len(), 2);
    assert!(body.contains(&first));
    assert!(body.contains(&second));
}
