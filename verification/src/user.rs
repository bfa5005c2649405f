//! The rich user objects returned by the remote service. Only `email` (and,
//! on sign-in, the session's `auth_token`) feed the local cache; the other
//! fields are pass-through display data.

use vstd::prelude::*;

verus! {

use vstd::string::StringExecFns;

/// What a successful remote sign-in returns.
#[derive(Debug)]
pub struct SignInResponse {
    pub auth_token: String,
    pub user: User,
    pub user_accounts: Vec<UserAccount>,
}

#[derive(Debug)]
pub struct User {
    pub id: u32,
    pub uuid: String,
    pub email: String,
    pub first_name: String,
    pub last_name: String,
    pub email_is_confirmed: bool,
    pub can_receive_funds: bool,
    pub profile_photo_url: Option<String>,
    pub profile_photo_upload_completed: bool,
    pub profile_photo_sha256_hash: Option<String>,
    pub cover_photo_upload_completed: bool,
    pub cover_photo_sha256_hash: Option<String>,
    pub date_time_created: String,
    pub address_one: Option<String>,
    pub address_two: Option<String>,
    pub city: Option<String>,
    pub state: Option<String>,
    pub postal_code: Option<String>,
    pub pre_signed_photo_download_url: Option<String>,
    pub pre_signed_cover_photo_download_url: Option<String>,
    pub accepted_terms_of_service: bool,
    pub accepted_privacy_policy: bool,
    pub link_tokens: Vec<PlaidLinkToken>,
    pub dwolla_reverification_needed: bool,
}

/// The fields of a user that the rest of the client reads: the identity
/// shown in tables and the email that feeds the session cache.
pub ghost struct UserSummary {
    pub id: u32,
    pub uuid: Seq<char>,
    pub email: Seq<char>,
    pub first_name: Seq<char>,
    pub last_name: Seq<char>,
}

impl User {
    pub open spec fn summary(&self) -> UserSummary {
        UserSummary {
            id: self.id,
            uuid: self.uuid@,
            email: self.email@,
            first_name: self.first_name@,
            last_name: self.last_name@,
        }
    }

    /// A user whose identity fields are given and whose pass-through fields
    /// are empty.
    pub fn with_identity(id: u32, uuid: String, email: String, first_name: String, last_name: String) -> (r: User)
        ensures
            r.summary() == (UserSummary {
                id,
                uuid: uuid@,
                email: email@,
                first_name: first_name@,
                last_name: last_name@,
            }),
    {
        User {
            id,
            uuid,
            email,
            first_name,
            last_name,
            email_is_confirmed: false,
            can_receive_funds: false,
            profile_photo_url: None,
            profile_photo_upload_completed: false,
            profile_photo_sha256_hash: None,
            cover_photo_upload_completed: false,
            cover_photo_sha256_hash: None,
            date_time_created: String::new(),
            address_one: None,
            address_two: None,
            city: None,
            state: None,
            postal_code: None,
            pre_signed_photo_download_url: None,
            pre_signed_cover_photo_download_url: None,
            accepted_terms_of_service: false,
            accepted_privacy_policy: false,
            link_tokens: Vec::new(),
            dwolla_reverification_needed: false,
        }
    }

    /// A copy whose identity fields match; the pass-through fields are
    /// copied too, though nothing is claimed of them.
    pub fn duplicate(&self) -> (r: User)
        ensures
            r.summary() == self.summary(),
    {
        User {
            id: self.id,
            uuid: self.uuid.clone(),
            email: self.email.clone(),
            first_name: self.first_name.clone(),
            last_name: self.last_name.clone(),
            email_is_confirmed: self.email_is_confirmed,
            can_receive_funds: self.can_receive_funds,
            profile_photo_url: self.profile_photo_url.clone(),
            profile_photo_upload_completed: self.profile_photo_upload_completed,
            profile_photo_sha256_hash: self.profile_photo_sha256_hash.clone(),
            cover_photo_upload_completed: self.cover_photo_upload_completed,
            cover_photo_sha256_hash: self.cover_photo_sha256_hash.clone(),
            date_time_created: self.date_time_created.clone(),
            address_one: self.address_one.clone(),
            address_two: self.address_two.clone(),
            city: self.city.clone(),
            state: self.state.clone(),
            postal_code: self.postal_code.clone(),
            pre_signed_photo_download_url: self.pre_signed_photo_download_url.clone(),
            pre_signed_cover_photo_download_url: self.pre_signed_cover_photo_download_url.clone(),
            accepted_terms_of_service: self.accepted_terms_of_service,
            accepted_privacy_policy: self.accepted_privacy_policy,
            link_tokens: self.link_tokens.clone(),
            dwolla_reverification_needed: self.dwolla_reverification_needed,
        }
    }
}

#[derive(Clone, Debug)]
pub struct PlaidLinkToken {
    pub id: u32,
    pub user_id: u32,
    pub user_account_id: Option<u32>,
    pub token_type: PlaidTokenType,
    pub plaid_link_token: String,
    /// ISO8601 string.
    pub date_time_token_created: String,
    /// ISO8601 string.
    pub date_time_token_expires: String,
}

#[derive(Clone, Debug)]
pub enum PlaidTokenType {
    DepositoryOnly,
    CreditAndDepository,
    AndroidDepositoryOnly,
    AndroidCreditAndDepository,
    ItemUpdate,
    AndroidItemUpdate,
}

#[derive(Clone, Debug)]
pub struct UserAccount {
    pub id: u32,
    pub user_id: u32,
    pub account_id: String,
    pub account_name: String,
    pub account_sub_type: String,
    pub account_type: String,
    pub institution_id: String,
    pub institution_name: String,
    pub is_active: bool,
    pub has_removed_funding_source: bool,
    pub dwolla_funding_source_id: Option<String>,
    /// ISO8601 string.
    pub date_of_last_plaid_transaction_pull: Option<String>,
    pub requires_plaid_re_authentication: bool,
    pub institution: Institution,
    pub link_tokens: Vec<PlaidLinkToken>,
}

#[derive(Clone, Debug)]
pub struct Institution {
    pub id: u32,
    pub uuid: String,
    pub institution_id: String,
    pub name: String,
    pub website_url: String,
    pub primary_color_hex_code: String,
    pub logo_url: Option<String>,
    pub logo_sha256_hash: Option<String>,
}

} // verus!
