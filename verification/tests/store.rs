use equater_cli::local_user::UserData;
use equater_cli::user_repository::StoreError;
use equater_cli::user_repository::UserRepository;

#[test]
fn it_works() {
    let result = 2 + 2;
    assert_eq!(result, 4);
}

#[test]
fn should_create_user() {
    let mut repository = UserRepository::new();
    let data = UserData {
        email: String::from("foo"),
        auth_token: String::from("bar"),
    };
    repository.create_user(&data).unwrap();
    let user = repository.find_user().unwrap();
    assert_eq!(user.get_email(), "foo");
}

#[test]
fn find_on_empty_store_reports_not_found() {
    let repository = UserRepository::new();
    assert!(matches!(repository.find_user(), Err(StoreError::NotFound)));
}

#[test]
fn create_always_leaves_exactly_the_most_recent_session() {
    let mut repository = UserRepository::new();
    let first = UserData {
        email: String::from("first@example.com"),
        auth_token: String::from("token-one"),
    };
    let second = UserData {
        email: String::from("second@example.com"),
        auth_token: String::from("token-two"),
    };
    repository.create_user(&first).unwrap();
    repository.create_user(&second).unwrap();
    let user = repository.find_user().unwrap();
    assert_eq!(user.get_email(), "second@example.com");
    assert_eq!(user.get_auth_token(), "token-two");
    // Exactly one row was in the store.
    assert_eq!(repository.truncate().unwrap(), 1);
}

#[test]
fn truncate_on_empty_store_returns_zero_and_leaves_it_empty() {
    let mut repository = UserRepository::new();
    assert_eq!(repository.truncate().unwrap(), 0);
    assert!(repository.find_user().is_err());
    assert_eq!(repository.truncate().unwrap(), 0);
}

#[test]
fn truncate_after_create_returns_one() {
    let mut repository = UserRepository::new();
    let data = UserData {
        email: String::from("someone@example.com"),
        auth_token: String::from("a-token"),
    };
    repository.create_user(&data).unwrap();
    assert_eq!(repository.truncate().unwrap(), 1);
    assert!(repository.find_user().is_err());
}

#[test]
fn created_row_carries_an_id() {
    let mut repository = UserRepository::new();
    let data = UserData {
        email: String::from("someone@example.com"),
        auth_token: String::from("a-token"),
    };
    let user = repository.create_user(&data).unwrap();
    let _ = user.get_id();
    assert_eq!(user.get_email(), "someone@example.com");
    assert_eq!(user.get_auth_token(), "a-token");
}
