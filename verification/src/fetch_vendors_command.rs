//! Fetching vendors and showing them as a table. The flag pair on the
//! command line picks one of three remote operations; unusable flags yield
//! a message instead of a fetch.

use vstd::prelude::*;

use crate::fetch_vendors_ui::vendor_rows;
use crate::fetch_vendors_ui::vendor_titles;
use crate::fetch_vendors_ui::FetchVendorsUi;
use crate::flag_command::FlagCommand;
use crate::local_user::LocalUser;
use crate::render::TableRenderer;
use crate::text::str_eq;
use crate::vendor::Vendor;
use crate::vendor::VendorSummary;

verus! {

use vstd::string::StringExecFns;

/// The vendor search capability: three operations, each yielding vendors
/// or an error message, keyed by the session's bearer token.
pub trait FetchesVendors: Sized {
    spec fn search_outcome(&self, auth_token: Seq<char>, search_term: Seq<char>) -> Result<
        Seq<VendorSummary>,
        Seq<char>,
    >;

    spec fn popular_outcome(&self, auth_token: Seq<char>) -> Result<Seq<VendorSummary>, Seq<char>>;

    spec fn review_outcome(&self, auth_token: Seq<char>) -> Result<Seq<VendorSummary>, Seq<char>>;

    fn search_vendors(&self, local_user: &LocalUser, search_term: &str) -> (r: Result<
        Vec<Vendor>,
        String,
    >)
        ensures
            match r {
                Ok(vendors) => self.search_outcome(local_user.auth_token@, search_term@) == Ok::<
                    Seq<VendorSummary>,
                    Seq<char>,
                >(vendors@.map_values(|v: Vendor| v.summary())),
                Err(e) => self.search_outcome(local_user.auth_token@, search_term@) == Err::<
                    Seq<VendorSummary>,
                    Seq<char>,
                >(e@),
            },
    ;

    fn fetch_popular_vendors(&self, local_user: &LocalUser) -> (r: Result<Vec<Vendor>, String>)
        ensures
            match r {
                Ok(vendors) => self.popular_outcome(local_user.auth_token@) == Ok::<
                    Seq<VendorSummary>,
                    Seq<char>,
                >(vendors@.map_values(|v: Vendor| v.summary())),
                Err(e) => self.popular_outcome(local_user.auth_token@) == Err::<
                    Seq<VendorSummary>,
                    Seq<char>,
                >(e@),
            },
    ;

    fn fetch_vendors_that_require_review(&self, local_user: &LocalUser) -> (r: Result<
        Vec<Vendor>,
        String,
    >)
        ensures
            match r {
                Ok(vendors) => self.review_outcome(local_user.auth_token@) == Ok::<
                    Seq<VendorSummary>,
                    Seq<char>,
                >(vendors@.map_values(|v: Vendor| v.summary())),
                Err(e) => self.review_outcome(local_user.auth_token@) == Err::<
                    Seq<VendorSummary>,
                    Seq<char>,
                >(e@),
            },
    ;
}

/// Which remote vendor operation a flag pair asks for.
pub enum FetchVendorOperationType {
    Search(String),
    ReviewRequired,
    Popular,
    Default,
}

/// The spec-level mirror of `FetchVendorOperationType`.
pub ghost enum VendorOperation {
    Search(Seq<char>),
    ReviewRequired,
    Popular,
    Default,
}

impl FetchVendorOperationType {
    pub open spec fn model(&self) -> VendorOperation {
        match self {
            FetchVendorOperationType::Search(term) => VendorOperation::Search(term@),
            FetchVendorOperationType::ReviewRequired => VendorOperation::ReviewRequired,
            FetchVendorOperationType::Popular => VendorOperation::Popular,
            FetchVendorOperationType::Default => VendorOperation::Default,
        }
    }
}

/// Which operation a flag/value pair maps to; `None` when no flag was given.
pub open spec fn vendor_operation_of(flag: Option<Seq<char>>, value: Option<Seq<char>>) -> Option<
    VendorOperation,
> {
    match flag {
        None => None,
        Some(f) => if f == "--review-required"@ {
            Some(VendorOperation::ReviewRequired)
        } else if f == "--search"@ {
            match value {
                Some(term) => Some(VendorOperation::Search(term)),
                None => Some(VendorOperation::Default),
            }
        } else if f == "--popular"@ {
            Some(VendorOperation::Popular)
        } else {
            Some(VendorOperation::Default)
        },
    }
}

/// What a given operation fetches: the popular list also serves as the
/// default.
pub open spec fn vendor_fetch_outcome<T: FetchesVendors>(
    api: &T,
    auth_token: Seq<char>,
    op: VendorOperation,
) -> Result<Seq<VendorSummary>, Seq<char>> {
    match op {
        VendorOperation::Search(term) => api.search_outcome(auth_token, term),
        VendorOperation::ReviewRequired => api.review_outcome(auth_token),
        VendorOperation::Popular => api.popular_outcome(auth_token),
        VendorOperation::Default => api.popular_outcome(auth_token),
    }
}

pub struct FetchVendorsCommand<T: FetchesVendors> {
    pub remote_repository: T,
}

impl<T: FetchesVendors> FetchVendorsCommand<T> {
    pub fn new(remote_repository: T) -> (r: Self)
        ensures
            r.remote_repository == remote_repository,
    {
        Self { remote_repository }
    }

    /// Map the flags to an operation, fetch, and render. The returned
    /// string is what there is to tell the user: empty when the table was
    /// rendered, otherwise the applicable message.
    pub fn fetch_and_show_vendors<R: TableRenderer>(
        &self,
        renderer: &R,
        local_user: &LocalUser,
        flag_command: &FlagCommand,
    ) -> (msg: String)
        ensures
            match vendor_operation_of(flag_command.flag.deep_view(), flag_command.value.deep_view()) {
                None => msg@ == "Could not map those flags to a valid operation"@,
                Some(op) => match vendor_fetch_outcome(
                    &self.remote_repository,
                    local_user.auth_token@,
                    op,
                ) {
                    Ok(vendors) => match renderer.render_result(
                        vendor_titles(),
                        vendor_rows(vendors),
                    ) {
                        Ok(_) => msg@ == Seq::<char>::empty(),
                        Err(e) => msg@ == "Error: "@ + e,
                    },
                    Err(e) => msg@ == "Error fetching vendors "@ + e,
                },
            },
    {
        if let Some(operation) = self.map_command_to_operation(flag_command) {
            let maybe_vendors = self.fetch_vendors(local_user, &operation);
            match maybe_vendors {
                Ok(vendors) => match FetchVendorsUi::new(vendors).render(renderer) {
                    Ok(_) => String::new(),
                    Err(err) => String::from_str("Error: ").concat(err.as_str()),
                },
                Err(err) => String::from_str("Error fetching vendors ").concat(err.as_str()),
            }
        } else {
            String::from_str("Could not map those flags to a valid operation")
        }
    }

    fn fetch_vendors(&self, local_user: &LocalUser, operation: &FetchVendorOperationType) -> (r:
        Result<Vec<Vendor>, String>)
        ensures
            match r {
                Ok(vendors) => vendor_fetch_outcome(
                    &self.remote_repository,
                    local_user.auth_token@,
                    operation.model(),
                ) == Ok::<Seq<VendorSummary>, Seq<char>>(
                    vendors@.map_values(|v: Vendor| v.summary()),
                ),
                Err(e) => vendor_fetch_outcome(
                    &self.remote_repository,
                    local_user.auth_token@,
                    operation.model(),
                ) == Err::<Seq<VendorSummary>, Seq<char>>(e@),
            },
    {
        match operation {
            FetchVendorOperationType::Search(search_term) => self.remote_repository.search_vendors(
                local_user,
                search_term.as_str(),
            ),
            FetchVendorOperationType::ReviewRequired => {
                self.remote_repository.fetch_vendors_that_require_review(local_user)
            },
            FetchVendorOperationType::Popular => {
                self.remote_repository.fetch_popular_vendors(local_user)
            },
            FetchVendorOperationType::Default => {
                self.remote_repository.fetch_popular_vendors(local_user)
            },
        }
    }

    fn map_command_to_operation(&self, flag_command: &FlagCommand) -> (r: Option<
        FetchVendorOperationType,
    >)
        ensures
            match vendor_operation_of(flag_command.flag.deep_view(), flag_command.value.deep_view()) {
                None => r is None,
                Some(op) => r matches Some(o) && o.model() == op,
            },
    {
        let flag = match &flag_command.flag {
            Some(f) => f,
            None => {
                return None;
            },
        };
        if str_eq(flag.as_str(), "--review-required") {
            Some(FetchVendorOperationType::ReviewRequired)
        } else if str_eq(flag.as_str(), "--search") {
            match &flag_command.value {
                Some(term) => Some(FetchVendorOperationType::Search(term.clone())),
                None => Some(FetchVendorOperationType::Default),
            }
        } else if str_eq(flag.as_str(), "--popular") {
            Some(FetchVendorOperationType::Popular)
        } else {
            Some(FetchVendorOperationType::Default)
        }
    }
}

} // verus!
