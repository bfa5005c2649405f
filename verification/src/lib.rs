//! A command-line client core: a single-row local session cache, a sign-in /
//! verification controller, and the command routing around them. Remote
//! collaborators (the authentication service, the search services, the table
//! renderer, the credential prompt) are traits; deterministic in-crate fakes
//! implement them for testing, while unverified adapters may implement them
//! over real transports.

// Re-exported so that adapters outside this crate can spell out the
// specification-only items of the collaborator traits.
pub use vstd::seq::Seq;

pub mod authentication_api;
pub mod authentication_api_fake;
pub mod authentication_controller;
pub mod commands;
pub mod credentials;
pub mod dispatch;
pub mod fetch_user_api_fake;
pub mod fetch_users_command;
pub mod fetch_users_response;
pub mod fetch_users_ui;
pub mod fetch_vendors_api_fake;
pub mod fetch_vendors_command;
pub mod fetch_vendors_ui;
pub mod flag_command;
pub mod local_user;
pub mod render;
pub mod text;
pub mod user;
pub mod user_repository;
pub mod vendor;
