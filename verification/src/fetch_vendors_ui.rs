//! The vendors table: which columns it has and what each vendor's row says.

use vstd::prelude::*;

use crate::render::TableRenderer;
use crate::text::bool_str;
use crate::text::bool_to_string;
use crate::text::dec_str;
use crate::text::u32_to_string;
use crate::vendor::Vendor;
use crate::vendor::VendorSummary;

verus! {

use vstd::string::StringExecFns;

/// The column titles of the vendors table.
pub open spec fn vendor_titles() -> Seq<Seq<char>> {
    seq!["ID"@, "Name"@, "UUID"@, "Has Been Reviewed"@, "Identity Can't Be Determined"@]
}

/// One vendor's row: id in decimal, name, uuid, and the two review flags.
pub open spec fn vendor_row(v: VendorSummary) -> Seq<Seq<char>> {
    seq![
        dec_str(v.id as nat),
        v.friendly_name,
        v.uuid,
        bool_str(v.has_been_reviewed_internally),
        bool_str(v.vendor_identity_cannot_be_determined),
    ]
}

/// The rows for a list of vendors, in order.
pub open spec fn vendor_rows(vendors: Seq<VendorSummary>) -> Seq<Seq<Seq<char>>> {
    vendors.map_values(|v: VendorSummary| vendor_row(v))
}

pub struct FetchVendorsUi {
    items: Vec<Vendor>,
}

impl View for FetchVendorsUi {
    type V = Seq<VendorSummary>;

    closed spec fn view(&self) -> Seq<VendorSummary> {
        self.items@.map_values(|v: Vendor| v.summary())
    }
}

impl FetchVendorsUi {
    pub fn new(vendors: Vec<Vendor>) -> (r: FetchVendorsUi)
        ensures
            r@ == vendors@.map_values(|v: Vendor| v.summary()),
    {
        FetchVendorsUi { items: vendors }
    }

    pub fn titles(&self) -> (r: Vec<String>)
        ensures
            r.deep_view() == vendor_titles(),
    {
        let mut titles: Vec<String> = Vec::new();
        titles.push(String::from_str("ID"));
        titles.push(String::from_str("Name"));
        titles.push(String::from_str("UUID"));
        titles.push(String::from_str("Has Been Reviewed"));
        titles.push(String::from_str("Identity Can't Be Determined"));
        proof {
            assert(titles.deep_view() =~= vendor_titles());
        }
        titles
    }

    pub fn rows(&self) -> (r: Vec<Vec<String>>)
        ensures
            r.deep_view() == vendor_rows(self@),
    {
        let mut rows: Vec<Vec<String>> = Vec::new();
        let mut i: usize = 0;
        while i < self.items.len()
            invariant
                i <= self.items.len(),
                rows@.len() == i,
                forall|j: int| 0 <= j < i ==> (#[trigger] rows@[j]).deep_view() == vendor_row(
                    self@[j],
                ),
            decreases self.items.len() - i,
        {
            let vendor = &self.items[i];
            let row = self.vendor_to_cell(vendor);
            rows.push(row);
            i += 1;
        }
        proof {
            assert forall|j: int| 0 <= j < rows@.len() implies rows.deep_view()[j] == vendor_rows(
                self@,
            )[j] by {
                assert(rows@[j].deep_view() == vendor_row(self@[j]));
            }
            assert(rows.deep_view() =~= vendor_rows(self@));
        }
        rows
    }

    /// Render this table through the given renderer.
    pub fn render<R: TableRenderer>(&self, renderer: &R) -> (r: Result<(), String>)
        ensures
            match r {
                Ok(_) => renderer.render_result(vendor_titles(), vendor_rows(self@)) is Ok,
                Err(e) => renderer.render_result(vendor_titles(), vendor_rows(self@)) == Err::<
                    (),
                    Seq<char>,
                >(e@),
            },
    {
        let titles = self.titles();
        let rows = self.rows();
        renderer.render(&titles, &rows)
    }

    fn vendor_to_cell(&self, vendor: &Vendor) -> (r: Vec<String>)
        ensures
            r.deep_view() == vendor_row(vendor.summary()),
    {
        let mut row: Vec<String> = Vec::new();
        row.push(u32_to_string(vendor.id));
        row.push(vendor.friendly_name.clone());
        row.push(vendor.uuid.clone());
        row.push(bool_to_string(vendor.has_been_reviewed_internally));
        row.push(bool_to_string(vendor.vendor_identity_cannot_be_determined));
        proof {
            assert(row.deep_view() =~= vendor_row(vendor.summary()));
        }
        row
    }
}

} // verus!
