//! The command surface: turning the raw argument list into a structured
//! command. Keywords are matched after trimming and ASCII lowering.

use vstd::prelude::*;

use crate::flag_command::FlagCommand;
use crate::text::lower;
use crate::text::matches_keyword;
use crate::text::trimmed;

verus! {

#[derive(Debug)]
pub enum Command {
    Login,
    Logout,
    Fetch(FetchCommand),
    Help,
}

#[derive(Debug)]
pub enum FetchCommand {
    /// Search parameter.
    Users(String),
    /// Search / popular / review-required flags.
    Vendors(FlagCommand),
}

/// The static help text.
pub open spec fn help_text() -> Seq<char> {
    "Commands: login | logout | fetch users --search <term> | fetch vendors [--search <term> | --popular | --review-required] | --help (-h)"@
}

/// What a given argument list parses to, as a value a contract can speak of.
pub ghost enum CommandParse {
    Login,
    Logout,
    FetchUsers(Seq<char>),
    FetchVendors(Option<Seq<char>>, Option<Seq<char>>),
    Help,
    Rejected(Seq<char>),
}

/// How the tail of a `fetch` argument list parses.
pub ghost enum FetchParse {
    Users(Seq<char>),
    Vendors(Option<Seq<char>>, Option<Seq<char>>),
    Rejected(Seq<char>),
}

/// The parse of `fetch ...` arguments: `args` is the whole argument list,
/// the subcommand word is the third entry, and an optional flag/value pair
/// follows.
pub open spec fn parse_fetch(args: Seq<Seq<char>>) -> FetchParse {
    if args.len() < 3 {
        FetchParse::Rejected("Please enter a valid command"@)
    } else {
        let word = lower(trimmed(args[2]));
        let flag = if args.len() > 3 {
            Some(args[3])
        } else {
            None
        };
        let value = if args.len() > 4 {
            Some(args[4])
        } else {
            None
        };
        if word == "users"@ {
            if flag == Some("--search"@) && (value matches Some(v) && v.len() > 0) {
                FetchParse::Users(value->0)
            } else {
                FetchParse::Rejected(
                    "Please specify a search term like equater fetch users --search foo"@,
                )
            }
        } else if word == "vendors"@ {
            FetchParse::Vendors(flag, value)
        } else {
            FetchParse::Rejected("Please enter a valid command"@)
        }
    }
}

/// The parse of a whole argument list: the command word is the second entry.
pub open spec fn parse_command(args: Seq<Seq<char>>) -> CommandParse {
    if args.len() < 2 {
        CommandParse::Rejected("Please enter a valid command"@)
    } else {
        let word = lower(trimmed(args[1]));
        if word == "login"@ {
            CommandParse::Login
        } else if word == "logout"@ {
            CommandParse::Logout
        } else if word == "fetch"@ {
            match parse_fetch(args) {
                FetchParse::Users(term) => CommandParse::FetchUsers(term),
                FetchParse::Vendors(flag, value) => CommandParse::FetchVendors(flag, value),
                FetchParse::Rejected(msg) => CommandParse::Rejected(msg),
            }
        } else if word == "--help"@ || word == "-h"@ {
            CommandParse::Help
        } else {
            CommandParse::Rejected("Please enter a valid command"@)
        }
    }
}

impl Command {
    pub fn from(input: &Vec<String>) -> (r: Result<Self, &'static str>)
        ensures
            match parse_command(input.deep_view()) {
                CommandParse::Login => r matches Ok(c) && c is Login,
                CommandParse::Logout => r matches Ok(c) && c is Logout,
                CommandParse::FetchUsers(term) => r matches Ok(c) && c matches Command::Fetch(
                    FetchCommand::Users(t),
                ) && t@ == term,
                CommandParse::FetchVendors(flag, value) => r matches Ok(c) && c matches
                    Command::Fetch(FetchCommand::Vendors(fc)) && fc.flag.deep_view() == flag
                    && fc.value.deep_view() == value,
                CommandParse::Help => r matches Ok(c) && c is Help,
                CommandParse::Rejected(msg) => r matches Err(e) && e@ == msg,
            },
    {
        proof {
            assert(input.deep_view().len() == input@.len());
        }
        if input.len() < 2 {
            return Err(Command::make_default_error());
        }
        let command = &input[1];
        proof {
            assert(input.deep_view()[1] == input@[1]@);
        }
        if matches_keyword(command.as_str(), "login") {
            Ok(Self::Login)
        } else if matches_keyword(command.as_str(), "logout") {
            Ok(Self::Logout)
        } else if matches_keyword(command.as_str(), "fetch") {
            match FetchCommand::from(input) {
                Ok(fetched) => Ok(Self::Fetch(fetched)),
                Err(e) => Err(e),
            }
        } else if matches_keyword(command.as_str(), "--help") {
            Ok(Self::Help)
        } else if matches_keyword(command.as_str(), "-h") {
            Ok(Self::Help)
        } else {
            Err(Command::make_default_error())
        }
    }

    pub fn make_default_error() -> (r: &'static str)
        ensures
            r@ == "Please enter a valid command"@,
    {
        "Please enter a valid command"
    }

    pub fn make_help_menu() -> (r: &'static str)
        ensures
            r@ == help_text(),
    {
        "Commands: login | logout | fetch users --search <term> | fetch vendors [--search <term> | --popular | --review-required] | --help (-h)"
    }
}

impl FetchCommand {
    pub fn from(input: &Vec<String>) -> (r: Result<Self, &'static str>)
        ensures
            match parse_fetch(input.deep_view()) {
                FetchParse::Users(term) => r matches Ok(c) && c matches FetchCommand::Users(t)
                    && t@ == term,
                FetchParse::Vendors(flag, value) => r matches Ok(c) && c matches
                    FetchCommand::Vendors(fc) && fc.flag.deep_view() == flag && fc.value.deep_view()
                    == value,
                FetchParse::Rejected(msg) => r matches Err(e) && e@ == msg,
            },
    {
        proof {
            assert(input.deep_view().len() == input@.len());
        }
        if input.len() < 3 {
            return Err(Command::make_default_error());
        }
        let command = &input[2];
        proof {
            assert(input.deep_view()[2] == input@[2]@);
        }
        let flag_ref = if input.len() > 3 {
            proof {
                assert(input.deep_view()[3] == input@[3]@);
            }
            Some(&input[3])
        } else {
            None
        };
        let value_ref = if input.len() > 4 {
            proof {
                assert(input.deep_view()[4] == input@[4]@);
            }
            Some(&input[4])
        } else {
            None
        };
        if matches_keyword(command.as_str(), "users") {
            let search_term_error =
                "Please specify a search term like equater fetch users --search foo";
            let flag_command = FlagCommand::new_from_clone(flag_ref, value_ref);
            if !flag_command.flag_is("--search") || !flag_command.has_value() {
                return Err(search_term_error);
            }
            let value = match flag_command.value_or(search_term_error) {
                Ok(v) => v,
                Err(e) => {
                    return Err(e);
                },
            };
            Ok(Self::Users(value))
        } else if matches_keyword(command.as_str(), "vendors") {
            let flag_command = FlagCommand::new_from_clone(flag_ref, value_ref);
            Ok(Self::Vendors(flag_command))
        } else {
            Err(Command::make_default_error())
        }
    }
}

} // verus!
