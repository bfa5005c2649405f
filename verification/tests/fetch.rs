use equater_cli::authentication_api::RemoteAuthentication;
use equater_cli::authentication_api::SignInRequest;
use equater_cli::authentication_api_fake::AuthenticationApiFake;
use equater_cli::commands::Command;
use equater_cli::commands::FetchCommand;
use equater_cli::credentials::StoredCredentials;
use equater_cli::dispatch::execute_command;
use equater_cli::fetch_user_api_fake::FetchUserApiFake;
use equater_cli::fetch_users_command::FetchUsersCommand;
use equater_cli::fetch_users_response::FetchUsersResponse;
use equater_cli::fetch_users_ui::FetchUsersUi;
use equater_cli::fetch_vendors_api_fake::FetchVendorsApiFake;
use equater_cli::fetch_vendors_command::FetchVendorsCommand;
use equater_cli::fetch_vendors_ui::FetchVendorsUi;
use equater_cli::flag_command::FlagCommand;
use equater_cli::local_user::LocalUser;
use equater_cli::local_user::UserData;
use equater_cli::render::TableRendererFake;
use equater_cli::user::User;
use equater_cli::user::UserAccount;
use equater_cli::user_repository::UserRepository;
use equater_cli::vendor::Vendor;

fn sample_user() -> User {
    User::with_identity(
        12,
        String::from("uuid-12"),
        String::from("jane@example.com"),
        String::from("Jane"),
        String::from("Doe"),
    )
}

fn sample_vendor() -> Vendor {
    Vendor::with_identity(3, String::from("uuid-3"), String::from("Acme"), true, false)
}

fn local_user(email: &str, token: &str) -> LocalUser {
    LocalUser {
        id: 1,
        email: String::from(email),
        auth_token: String::from(token),
    }
}

fn ok_renderer() -> TableRendererFake {
    TableRendererFake {
        should_error: false,
        error_message: String::new(),
    }
}

fn failing_renderer(message: &str) -> TableRendererFake {
    TableRendererFake {
        should_error: true,
        error_message: String::from(message),
    }
}

#[test]
fn user_rows_project_the_displayed_fields() {
    let ui = FetchUsersUi::new(vec![sample_user()]);
    assert_eq!(
        ui.titles(),
        vec!["ID", "Email", "UUID", "First Name", "Last Name"]
    );
    assert_eq!(
        ui.rows(),
        vec![vec![
            String::from("12"),
            String::from("jane@example.com"),
            String::from("uuid-12"),
            String::from("Jane"),
            String::from("Doe"),
        ]]
    );
}

#[test]
fn vendor_rows_project_the_displayed_fields() {
    let ui = FetchVendorsUi::new(vec![sample_vendor()]);
    assert_eq!(
        ui.titles(),
        vec![
            "ID",
            "Name",
            "UUID",
            "Has Been Reviewed",
            "Identity Can't Be Determined"
        ]
    );
    assert_eq!(
        ui.rows(),
        vec![vec![
            String::from("3"),
            String::from("Acme"),
            String::from("uuid-3"),
            String::from("true"),
            String::from("false"),
        ]]
    );
}

#[test]
fn move_to_single_list_puts_users_before_friends() {
    let mut response = FetchUsersResponse {
        friends: vec![sample_user()],
        users: vec![User::with_identity(
            1,
            String::from("u"),
            String::from("first@example.com"),
            String::from("A"),
            String::from("B"),
        )],
    };
    let all = response.move_to_single_list();
    assert_eq!(all.len(), 2);
    assert_eq!(all[0].email, "first@example.com");
    assert_eq!(all[1].email, "jane@example.com");
    assert!(response.users.is_empty());
    assert!(response.friends.is_empty());
}

#[test]
fn fetch_and_show_users_is_silent_on_success() {
    let executor = FetchUsersCommand::new(FetchUserApiFake {
        should_error: false,
        users: vec![sample_user()],
    });
    let msg = executor.fetch_and_show_users(&ok_renderer(), &local_user("a@x.com", "t"), "jane");
    assert_eq!(msg, "");
}

#[test]
fn fetch_and_show_users_reports_no_users_when_the_fetch_fails() {
    let executor = FetchUsersCommand::new(FetchUserApiFake {
        should_error: true,
        users: vec![],
    });
    let msg = executor.fetch_and_show_users(&ok_renderer(), &local_user("a@x.com", "t"), "jane");
    assert_eq!(msg, "no users");
}

#[test]
fn fetch_and_show_users_surfaces_a_render_failure() {
    let executor = FetchUsersCommand::new(FetchUserApiFake {
        should_error: false,
        users: vec![sample_user()],
    });
    let msg = executor.fetch_and_show_users(
        &failing_renderer("broken pipe"),
        &local_user("a@x.com", "t"),
        "jane",
    );
    assert_eq!(msg, "broken pipe");
}

#[test]
fn fetch_and_show_vendors_needs_a_usable_flag() {
    let executor = FetchVendorsCommand::new(FetchVendorsApiFake {
        should_error: false,
        vendors: vec![sample_vendor()],
    });
    let no_flag = FlagCommand::new_from_clone(None, None);
    let msg = executor.fetch_and_show_vendors(&ok_renderer(), &local_user("a@x.com", "t"), &no_flag);
    assert_eq!(msg, "Could not map those flags to a valid operation");
}

#[test]
fn fetch_and_show_vendors_is_silent_on_success() {
    let executor = FetchVendorsCommand::new(FetchVendorsApiFake {
        should_error: false,
        vendors: vec![sample_vendor()],
    });
    let popular = String::from("--popular");
    let flag = FlagCommand::new_from_clone(Some(&popular), None);
    let msg = executor.fetch_and_show_vendors(&ok_renderer(), &local_user("a@x.com", "t"), &flag);
    assert_eq!(msg, "");
}

#[test]
fn fetch_and_show_vendors_reports_fetch_and_render_errors() {
    let failing_fetch = FetchVendorsCommand::new(FetchVendorsApiFake {
        should_error: true,
        vendors: vec![],
    });
    let popular = String::from("--popular");
    let flag = FlagCommand::new_from_clone(Some(&popular), None);
    let msg =
        failing_fetch.fetch_and_show_vendors(&ok_renderer(), &local_user("a@x.com", "t"), &flag);
    assert_eq!(msg, "Error fetching vendors Unauthorized");

    let failing_render = FetchVendorsCommand::new(FetchVendorsApiFake {
        should_error: false,
        vendors: vec![sample_vendor()],
    });
    let msg = failing_render.fetch_and_show_vendors(
        &failing_renderer("boom"),
        &local_user("a@x.com", "t"),
        &flag,
    );
    assert_eq!(msg, "Error: boom");
}

fn creds(email: &str, password: &str) -> StoredCredentials {
    StoredCredentials {
        email: String::from(email),
        password: String::from(password),
    }
}

#[test]
fn execute_login_reports_the_signed_in_identity() {
    let mut store = UserRepository::new();
    let result = execute_command(
        &Command::Login,
        &mut store,
        AuthenticationApiFake { should_error: false },
        FetchUserApiFake { should_error: false, users: vec![] },
        FetchVendorsApiFake { should_error: false, vendors: vec![] },
        &ok_renderer(),
        &creds("user-b@example.com", "pw-b"),
    );
    assert_eq!(result.unwrap(), "user-b@example.com is signed in");
    let cached = store.find_user().unwrap();
    assert_eq!(cached.get_email(), "user-b@example.com");
}

#[test]
fn execute_login_surfaces_a_remote_error() {
    let mut store = UserRepository::new();
    let result = execute_command(
        &Command::Login,
        &mut store,
        AuthenticationApiFake { should_error: true },
        FetchUserApiFake { should_error: false, users: vec![] },
        FetchVendorsApiFake { should_error: false, vendors: vec![] },
        &ok_renderer(),
        &creds("user-b@example.com", "pw-b"),
    );
    assert_eq!(result.unwrap_err(), "Invalid username or password");
    assert!(store.find_user().is_err());
}

#[test]
fn execute_logout_always_reports_success_text() {
    let mut store = UserRepository::new();
    let result = execute_command(
        &Command::Logout,
        &mut store,
        AuthenticationApiFake { should_error: false },
        FetchUserApiFake { should_error: false, users: vec![] },
        FetchVendorsApiFake { should_error: false, vendors: vec![] },
        &ok_renderer(),
        &creds("user@example.com", "pw"),
    );
    assert_eq!(result.unwrap(), "You are now signed out of the CLI");
    assert!(store.find_user().is_err());
}

#[test]
fn execute_help_returns_the_help_text() {
    let mut store = UserRepository::new();
    let result = execute_command(
        &Command::Help,
        &mut store,
        AuthenticationApiFake { should_error: false },
        FetchUserApiFake { should_error: false, users: vec![] },
        FetchVendorsApiFake { should_error: false, vendors: vec![] },
        &ok_renderer(),
        &creds("user@example.com", "pw"),
    );
    assert_eq!(result.unwrap(), Command::make_help_menu());
}

#[test]
fn execute_fetch_with_a_verified_session_renders_silently() {
    let mut store = UserRepository::new();
    store
        .create_user(&UserData {
            email: String::from("user@example.com"),
            auth_token: String::from("token:good"),
        })
        .unwrap();
    let result = execute_command(
        &Command::Fetch(FetchCommand::Users(String::from("jane"))),
        &mut store,
        AuthenticationApiFake { should_error: false },
        FetchUserApiFake { should_error: false, users: vec![sample_user()] },
        FetchVendorsApiFake { should_error: false, vendors: vec![] },
        &ok_renderer(),
        &creds("user@example.com", "pw"),
    );
    assert_eq!(result.unwrap(), "");
    // The cached session was left alone.
    let cached = store.find_user().unwrap();
    assert_eq!(cached.get_auth_token(), "token:good");
}

#[test]
fn failed_verification_truncates_the_cache_and_falls_back_to_login() {
    let mut store = UserRepository::new();
    store
        .create_user(&UserData {
            email: String::from("stale@example.com"),
            auth_token: String::from("stale-token"),
        })
        .unwrap();
    let result = execute_command(
        &Command::Fetch(FetchCommand::Users(String::from("jane"))),
        &mut store,
        // The stale token below was not issued by the fake, so verification
        // fails while the forced sign-in still succeeds.
        AuthenticationApiFake { should_error: false },
        FetchUserApiFake { should_error: false, users: vec![] },
        FetchVendorsApiFake { should_error: false, vendors: vec![] },
        &ok_renderer(),
        &creds("fresh@example.com", "fresh-pw"),
    );
    // The fetch itself is not retried: the forced login's outcome is reported.
    assert_eq!(result.unwrap(), "fresh@example.com is signed in");
    let cached = store.find_user().unwrap();
    assert_eq!(cached.get_email(), "fresh@example.com");
    assert_eq!(cached.get_auth_token(), "token:fresh-pw");
}

#[test]
fn failed_verification_and_failed_login_leave_the_cache_empty() {
    let mut store = UserRepository::new();
    store
        .create_user(&UserData {
            email: String::from("stale@example.com"),
            auth_token: String::from("stale-token"),
        })
        .unwrap();
    let result = execute_command(
        &Command::Fetch(FetchCommand::Users(String::from("jane"))),
        &mut store,
        AuthenticationApiFake { should_error: true },
        FetchUserApiFake { should_error: false, users: vec![] },
        FetchVendorsApiFake { should_error: false, vendors: vec![] },
        &ok_renderer(),
        &creds("fresh@example.com", "fresh-pw"),
    );
    assert_eq!(result.unwrap_err(), "Invalid username or password");
    // The stale session was truncated before the login attempt.
    assert!(store.find_user().is_err());
}

#[test]
fn sign_in_response_carries_accounts_through() {
    let api = AuthenticationApiFake { should_error: false };
    let request = SignInRequest {
        email: String::from("user@example.com"),
        password: String::from("pw"),
    };
    let response = api.sign_in(&request).unwrap();
    let accounts: Vec<UserAccount> = response.user_accounts;
    assert!(accounts.is_empty());
}
