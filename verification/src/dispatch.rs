//! Routing a parsed command to its action. `Login` runs the full sign-in
//! flow; `Logout` truncates the store unconditionally; `Fetch` verifies the
//! cached session first and, when that fails, truncates the cache and runs
//! a forced login in its place — the original fetch is not retried.

use vstd::prelude::*;

use crate::authentication_api::RemoteAuthentication;
use crate::authentication_controller::AuthenticationController;
use crate::commands::help_text;
use crate::commands::parse_command;
use crate::commands::Command;
use crate::commands::CommandParse;
use crate::commands::FetchCommand;
use crate::credentials::ProvidesCredentials;
use crate::fetch_users_command::FetchUsersCommand;
use crate::fetch_users_command::FetchesUsers;
use crate::fetch_users_ui::user_rows;
use crate::fetch_users_ui::user_titles;
use crate::fetch_vendors_command::vendor_fetch_outcome;
use crate::fetch_vendors_command::vendor_operation_of;
use crate::fetch_vendors_command::FetchVendorsCommand;
use crate::fetch_vendors_command::FetchesVendors;
use crate::fetch_vendors_ui::vendor_rows;
use crate::fetch_vendors_ui::vendor_titles;
use crate::local_user::SessionSnapshot;
use crate::render::TableRenderer;
use crate::user_repository::UserRepository;

verus! {

use vstd::string::StringExecFns;

/// How a login attempt with the given credential source must come out
/// against the given service: the message and the store contents afterwards
/// on success, the propagated error message on failure.
pub open spec fn login_outcome_matches<A: RemoteAuthentication, C: ProvidesCredentials>(
    auth: &A,
    credentials: &C,
    store_after: Seq<SessionSnapshot>,
    r: Result<String, String>,
) -> bool {
    match auth.sign_in_outcome(credentials.provided_email(), credentials.provided_password()) {
        Ok(s) => r matches Ok(msg) && msg@ == s.email + " is signed in"@ && store_after
            =~= seq![s],
        Err(m) => r matches Err(e) && e@ == m,
    }
}

/// The argument list as a structured command. An invocation without any
/// argument is answered with the help text (as an error, so the caller
/// exits non-zero, as before).
pub fn parse_input(input: &Vec<String>) -> (r: Result<Command, String>)
    ensures
        input@.len() == 1 ==> (r matches Err(e) && e@ == help_text()),
        input@.len() != 1 ==> match parse_command(input.deep_view()) {
            CommandParse::Login => r matches Ok(c) && c is Login,
            CommandParse::Logout => r matches Ok(c) && c is Logout,
            CommandParse::FetchUsers(term) => r matches Ok(c) && c matches Command::Fetch(
                FetchCommand::Users(t),
            ) && t@ == term,
            CommandParse::FetchVendors(flag, value) => r matches Ok(c) && c matches Command::Fetch(
                FetchCommand::Vendors(fc),
            ) && fc.flag.deep_view() == flag && fc.value.deep_view() == value,
            CommandParse::Help => r matches Ok(c) && c is Help,
            CommandParse::Rejected(msg) => r matches Err(e) && e@ == msg,
        },
{
    if input.len() == 1 {
        return Err(String::from_str(Command::make_help_menu()));
    }
    match Command::from(input) {
        Ok(command) => Ok(command),
        Err(e) => Err(String::from_str(e)),
    }
}

/// Run one command against the store and the collaborators, and say what
/// came of it: `Ok` with the text to report (possibly empty), or `Err` with
/// the failure to report.
pub fn execute_command<
    A: RemoteAuthentication,
    U: FetchesUsers,
    V: FetchesVendors,
    R: TableRenderer,
    C: ProvidesCredentials,
>(
    command: &Command,
    local_user_repository: &mut UserRepository,
    remote_repository: A,
    fetch_users_repository: U,
    fetch_vendor_repository: V,
    renderer: &R,
    credentials: &C,
) -> (r: Result<String, String>)
    requires
        old(local_user_repository).wf(),
    ensures
        final(local_user_repository).wf(),
        match command {
            Command::Login => login_outcome_matches(
                &remote_repository,
                credentials,
                final(local_user_repository)@,
                r,
            ) && (r is Err ==> final(local_user_repository)@ == old(local_user_repository)@),
            Command::Logout => r matches Ok(msg) && msg@ == "You are now signed out of the CLI"@
                && final(local_user_repository)@ =~= Seq::<SessionSnapshot>::empty(),
            Command::Help => r matches Ok(msg) && msg@ == help_text()
                && final(local_user_repository)@ == old(local_user_repository)@,
            Command::Fetch(subcommand) => {
                if old(local_user_repository)@.len() == 1 && remote_repository.token_is_valid(
                    old(local_user_repository)@[0].auth_token,
                ) {
                    let token = old(local_user_repository)@[0].auth_token;
                    &&& final(local_user_repository)@ == old(local_user_repository)@
                    &&& match subcommand {
                        FetchCommand::Users(term) => r matches Ok(msg) && (
                        match fetch_users_repository.fetch_outcome(token, term@) {
                            Ok(users) => match renderer.render_result(
                                user_titles(),
                                user_rows(users),
                            ) {
                                Ok(_) => msg@ == Seq::<char>::empty(),
                                Err(e) => msg@ == e,
                            },
                            Err(_) => msg@ == "no users"@,
                        }),
                        FetchCommand::Vendors(fc) => r matches Ok(msg) && (
                        match vendor_operation_of(fc.flag.deep_view(), fc.value.deep_view()) {
                            None => msg@ == "Could not map those flags to a valid operation"@,
                            Some(op) => match vendor_fetch_outcome(
                                &fetch_vendor_repository,
                                token,
                                op,
                            ) {
                                Ok(vendors) => match renderer.render_result(
                                    vendor_titles(),
                                    vendor_rows(vendors),
                                ) {
                                    Ok(_) => msg@ == Seq::<char>::empty(),
                                    Err(e) => msg@ == "Error: "@ + e,
                                },
                                Err(e) => msg@ == "Error fetching vendors "@ + e,
                            },
                        }),
                    }
                } else {
                    // The cached session could not be verified: the cache is
                    // cleared and a forced login takes the fetch's place.
                    &&& login_outcome_matches(
                        &remote_repository,
                        credentials,
                        final(local_user_repository)@,
                        r,
                    )
                    &&& (r is Err ==> final(local_user_repository)@ =~= Seq::<
                        SessionSnapshot,
                    >::empty())
                }
            },
        },
{
    match command {
        Command::Login => {
            let controller = AuthenticationController::new(remote_repository);
            run_login(&controller, local_user_repository, credentials)
        },
        Command::Logout => {
            match local_user_repository.truncate() {
                Ok(_rows_deleted) => Ok(String::from_str("You are now signed out of the CLI")),
                Err(err) => Err(String::from_str("Error signing out: ").concat(err.message())),
            }
        },
        Command::Fetch(subcommand) => {
            let controller = AuthenticationController::new(remote_repository);
            match controller.find_and_verify_local_user(local_user_repository) {
                Ok(local_user) => {
                    match subcommand {
                        FetchCommand::Users(search_term) => {
                            let executor = FetchUsersCommand::new(fetch_users_repository);
                            let msg = executor.fetch_and_show_users(
                                renderer,
                                &local_user,
                                search_term.as_str(),
                            );
                            Ok(msg)
                        },
                        FetchCommand::Vendors(flag_command) => {
                            let executor = FetchVendorsCommand::new(fetch_vendor_repository);
                            let msg = executor.fetch_and_show_vendors(
                                renderer,
                                &local_user,
                                flag_command,
                            );
                            Ok(msg)
                        },
                    }
                },
                Err(_) => {
                    // Prevent an unnecessary duplicate request to the server
                    // to verify an auth token that has already been refused.
                    let _deleted = local_user_repository.truncate();
                    run_login(&controller, local_user_repository, credentials)
                },
            }
        },
        Command::Help => Ok(String::from_str(Command::make_help_menu())),
    }
}

/// The full sign-in flow: obtain credentials, sign in, and report the
/// signed-in identity.
fn run_login<A: RemoteAuthentication, C: ProvidesCredentials>(
    controller: &AuthenticationController<A>,
    local_user_repository: &mut UserRepository,
    credentials: &C,
) -> (r: Result<String, String>)
    requires
        old(local_user_repository).wf(),
    ensures
        final(local_user_repository).wf(),
        login_outcome_matches(
            &controller.remote_repository,
            credentials,
            final(local_user_repository)@,
            r,
        ),
        r is Err ==> final(local_user_repository)@ == old(local_user_repository)@,
{
    let request = credentials.obtain_credentials();
    match controller.sign_in(local_user_repository, &request) {
        Ok(response) => Ok(response.email.concat(" is signed in")),
        Err(e) => Err(e),
    }
}

} // verus!
