//! Vendor records returned by the vendor search service: pass-through
//! display data.

use vstd::prelude::*;

verus! {

use vstd::string::StringExecFns;

#[derive(Debug)]
pub struct Vendor {
    pub id: u32,
    pub uuid: String,
    pub ppd_id: Option<String>,
    /// ISO8601 string.
    pub date_time_added: Option<String>,
    /// ISO8601 string.
    pub date_time_modified: Option<String>,
    pub total_number_of_expense_sharing_agreements: u32,
    pub has_been_reviewed_internally: bool,
    pub vendor_identity_cannot_be_determined: bool,
    pub friendly_name: String,
    pub logo_s3_bucket: Option<String>,
    pub logo_s3_key: Option<String>,
    pub logo_url: Option<String>,
    pub logo_upload_completed: bool,
    pub logo_sha256_hash: Option<String>,
}

#[derive(Debug)]
pub struct VendorResponse {
    pub vendors: Vec<Vendor>,
}

/// The fields of a vendor that the rest of the client reads: what the
/// vendor table shows.
pub ghost struct VendorSummary {
    pub id: u32,
    pub uuid: Seq<char>,
    pub friendly_name: Seq<char>,
    pub has_been_reviewed_internally: bool,
    pub vendor_identity_cannot_be_determined: bool,
}

impl Vendor {
    pub open spec fn summary(&self) -> VendorSummary {
        VendorSummary {
            id: self.id,
            uuid: self.uuid@,
            friendly_name: self.friendly_name@,
            has_been_reviewed_internally: self.has_been_reviewed_internally,
            vendor_identity_cannot_be_determined: self.vendor_identity_cannot_be_determined,
        }
    }

    /// A vendor whose displayed fields are given and whose pass-through
    /// fields are empty.
    pub fn with_identity(
        id: u32,
        uuid: String,
        friendly_name: String,
        has_been_reviewed_internally: bool,
        vendor_identity_cannot_be_determined: bool,
    ) -> (r: Vendor)
        ensures
            r.summary() == (VendorSummary {
                id,
                uuid: uuid@,
                friendly_name: friendly_name@,
                has_been_reviewed_internally,
                vendor_identity_cannot_be_determined,
            }),
    {
        Vendor {
            id,
            uuid,
            ppd_id: None,
            date_time_added: None,
            date_time_modified: None,
            total_number_of_expense_sharing_agreements: 0,
            has_been_reviewed_internally,
            vendor_identity_cannot_be_determined,
            friendly_name,
            logo_s3_bucket: None,
            logo_s3_key: None,
            logo_url: None,
            logo_upload_completed: false,
            logo_sha256_hash: None,
        }
    }

    /// A copy whose displayed fields match.
    pub fn duplicate(&self) -> (r: Vendor)
        ensures
            r.summary() == self.summary(),
    {
        Vendor {
            id: self.id,
            uuid: self.uuid.clone(),
            ppd_id: self.ppd_id.clone(),
            date_time_added: self.date_time_added.clone(),
            date_time_modified: self.date_time_modified.clone(),
            total_number_of_expense_sharing_agreements: self.total_number_of_expense_sharing_agreements,
            has_been_reviewed_internally: self.has_been_reviewed_internally,
            vendor_identity_cannot_be_determined: self.vendor_identity_cannot_be_determined,
            friendly_name: self.friendly_name.clone(),
            logo_s3_bucket: self.logo_s3_bucket.clone(),
            logo_s3_key: self.logo_s3_key.clone(),
            logo_url: self.logo_url.clone(),
            logo_upload_completed: self.logo_upload_completed,
            logo_sha256_hash: self.logo_sha256_hash.clone(),
        }
    }
}

} // verus!
