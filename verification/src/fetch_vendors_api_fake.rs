//! A deterministic stand-in for the vendor search service, for testing: it
//! answers every operation with a canned list of vendors, or fails every
//! call when `should_error` is set.

use vstd::prelude::*;

use crate::fetch_vendors_command::FetchesVendors;
use crate::local_user::LocalUser;
use crate::vendor::Vendor;
use crate::vendor::VendorSummary;

verus! {

use vstd::string::StringExecFns;

pub struct FetchVendorsApiFake {
    pub should_error: bool,
    pub vendors: Vec<Vendor>,
}

impl FetchVendorsApiFake {
    pub open spec fn canned_outcome(&self) -> Result<Seq<VendorSummary>, Seq<char>> {
        if self.should_error {
            Err("Unauthorized"@)
        } else {
            Ok(self.vendors@.map_values(|v: Vendor| v.summary()))
        }
    }

    fn canned_vendors(&self) -> (r: Result<Vec<Vendor>, String>)
        ensures
            match r {
                Ok(vendors) => self.canned_outcome() == Ok::<Seq<VendorSummary>, Seq<char>>(
                    vendors@.map_values(|v: Vendor| v.summary()),
                ),
                Err(e) => self.canned_outcome() == Err::<Seq<VendorSummary>, Seq<char>>(e@),
            },
    {
        if self.should_error {
            return Err(String::from_str("Unauthorized"));
        }
        let mut out: Vec<Vendor> = Vec::new();
        let mut i: usize = 0;
        while i < self.vendors.len()
            invariant
                i <= self.vendors.len(),
                out@.len() == i,
                forall|j: int| 0 <= j < i ==> (#[trigger] out@[j].summary())
                    == self.vendors@[j].summary(),
            decreases self.vendors.len() - i,
        {
            out.push(self.vendors[i].duplicate());
            i += 1;
        }
        proof {
            assert(out@.map_values(|v: Vendor| v.summary()) =~= self.vendors@.map_values(
                |v: Vendor| v.summary(),
            ));
        }
        Ok(out)
    }
}

impl FetchesVendors for FetchVendorsApiFake {
    open spec fn search_outcome(&self, auth_token: Seq<char>, search_term: Seq<char>) -> Result<
        Seq<VendorSummary>,
        Seq<char>,
    > {
        self.canned_outcome()
    }

    open spec fn popular_outcome(&self, auth_token: Seq<char>) -> Result<
        Seq<VendorSummary>,
        Seq<char>,
    > {
        self.canned_outcome()
    }

    open spec fn review_outcome(&self, auth_token: Seq<char>) -> Result<
        Seq<VendorSummary>,
        Seq<char>,
    > {
        self.canned_outcome()
    }

    fn search_vendors(&self, local_user: &LocalUser, search_term: &str) -> (r: Result<
        Vec<Vendor>,
        String,
    >) {
        self.canned_vendors()
    }

    fn fetch_popular_vendors(&self, local_user: &LocalUser) -> (r: Result<Vec<Vendor>, String>) {
        self.canned_vendors()
    }

    fn fetch_vendors_that_require_review(&self, local_user: &LocalUser) -> (r: Result<
        Vec<Vendor>,
        String,
    >) {
        self.canned_vendors()
    }
}

} // verus!
