use equater_cli::commands::Command;
use equater_cli::commands::FetchCommand;
use equater_cli::dispatch::parse_input;
use equater_cli::flag_command::FlagCommand;

fn args(words: &[&str]) -> Vec<String> {
    words.iter().map(|w| String::from(*w)).collect()
}

#[test]
fn login_logout_and_help_parse() {
    assert!(matches!(
        Command::from(&args(&["equater", "login"])),
        Ok(Command::Login)
    ));
    assert!(matches!(
        Command::from(&args(&["equater", "logout"])),
        Ok(Command::Logout)
    ));
    assert!(matches!(
        Command::from(&args(&["equater", "--help"])),
        Ok(Command::Help)
    ));
    assert!(matches!(
        Command::from(&args(&["equater", "-h"])),
        Ok(Command::Help)
    ));
}

#[test]
fn command_words_are_trimmed_and_lowered() {
    assert!(matches!(
        Command::from(&args(&["equater", " LoGin "])),
        Ok(Command::Login)
    ));
    assert!(matches!(
        Command::from(&args(&["equater", "LOGOUT\t"])),
        Ok(Command::Logout)
    ));
}

#[test]
fn unknown_commands_are_rejected() {
    assert_eq!(
        Command::from(&args(&["equater", "launch"])).unwrap_err(),
        "Please enter a valid command"
    );
    assert_eq!(
        Command::from(&args(&["equater"])).unwrap_err(),
        "Please enter a valid command"
    );
}

#[test]
fn fetch_users_needs_a_search_flag_with_a_value() {
    let parsed = Command::from(&args(&["equater", "fetch", "users", "--search", "jane"]));
    match parsed {
        Ok(Command::Fetch(FetchCommand::Users(term))) => assert_eq!(term, "jane"),
        _ => panic!("expected a users fetch"),
    }
    let missing_value = Command::from(&args(&["equater", "fetch", "users", "--search"]));
    assert_eq!(
        missing_value.unwrap_err(),
        "Please specify a search term like equater fetch users --search foo"
    );
    let wrong_flag = Command::from(&args(&["equater", "fetch", "users", "--popular"]));
    assert_eq!(
        wrong_flag.unwrap_err(),
        "Please specify a search term like equater fetch users --search foo"
    );
}

#[test]
fn fetch_vendors_keeps_its_flag_pair() {
    let parsed = Command::from(&args(&["equater", "fetch", "vendors", "--popular"]));
    match parsed {
        Ok(Command::Fetch(FetchCommand::Vendors(fc))) => {
            assert_eq!(fc.flag.as_deref(), Some("--popular"));
            assert!(fc.value.is_none());
        }
        _ => panic!("expected a vendors fetch"),
    }
    let bare = Command::from(&args(&["equater", "fetch", "vendors"]));
    match bare {
        Ok(Command::Fetch(FetchCommand::Vendors(fc))) => {
            assert!(fc.flag.is_none());
            assert!(fc.value.is_none());
        }
        _ => panic!("expected a vendors fetch"),
    }
}

#[test]
fn fetch_without_a_subcommand_is_rejected() {
    assert_eq!(
        Command::from(&args(&["equater", "fetch"])).unwrap_err(),
        "Please enter a valid command"
    );
    assert_eq!(
        Command::from(&args(&["equater", "fetch", "boxes"])).unwrap_err(),
        "Please enter a valid command"
    );
}

#[test]
fn parse_input_answers_a_bare_invocation_with_the_help_text() {
    let result = parse_input(&args(&["equater"]));
    assert_eq!(result.unwrap_err(), Command::make_help_menu());
}

#[test]
fn parse_input_passes_commands_through() {
    assert!(matches!(
        parse_input(&args(&["equater", "login"])),
        Ok(Command::Login)
    ));
    assert_eq!(
        parse_input(&args(&["equater", "nonsense"])).unwrap_err(),
        "Please enter a valid command"
    );
}

#[test]
fn flag_command_reports_its_flag_and_value() {
    let flag = String::from("--search");
    let value = String::from("acme");
    let fc = FlagCommand::new_from_clone(Some(&flag), Some(&value));
    assert!(fc.has_flag());
    assert!(fc.has_value());
    assert!(fc.flag_is("--search"));
    assert!(!fc.flag_is("--popular"));
    assert_eq!(fc.flag_or("missing"), Ok(String::from("--search")));
    assert_eq!(fc.value_or("missing"), Ok(String::from("acme")));
}

#[test]
fn flag_command_without_values_reports_absence() {
    let fc = FlagCommand::new_from_clone(None, None);
    assert!(!fc.has_flag());
    assert!(!fc.has_value());
    assert!(!fc.flag_is("--search"));
    assert_eq!(fc.flag_or("missing"), Err("missing"));
    assert_eq!(fc.value_or("missing"), Err("missing"));
}

#[test]
fn empty_flag_strings_do_not_count() {
    let empty = String::new();
    let fc = FlagCommand::new_from_clone(Some(&empty), Some(&empty));
    assert!(!fc.has_flag());
    assert!(!fc.has_value());
}
