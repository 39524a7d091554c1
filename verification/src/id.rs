//! Internal connection IDs: the numeric identifiers the portal uses for
//! meters, and their resolution from an EAN via the listing page.
//!
//! The listing endpoint reads its search filter from a URL-scoped
//! cookie; the page it returns carries one anchor element per
//! connection, whose EAN stands in a fixed-width cell and whose link
//! ends in the numeric ID.

use vstd::prelude::*;

use crate::ean::Ean;
use crate::encode::{base64_encode, base64_of};
use crate::scrape::{scraped_rows, select_rows, ListRow, ListRowModel};
use crate::text::{all_digits, dec_value, last_segment, parse_u32, trimmed};

verus! {

/// What resolving an ID from the listing page can fail with.
#[derive(Clone, Copy, Debug, PartialEq, Eq)]
pub enum Error {
    /// The transport failed; raised by the caller that performs the
    /// page fetch.
    Request,
    /// No listed connection carried the requested EAN, or the matching
    /// row had no link.
    ValueMissing,
    /// The fetched page was not UTF-8; raised by the caller that
    /// performs the page fetch.
    Utf8,
    /// The filter cookie's URL could not be built; raised by the caller
    /// that installs the cookie.
    UrlParse,
    /// The matching row's link did not end in a number that fits.
    ParseInt,
}

/// An internal numeric meter/connection identifier.
#[derive(Clone, Copy, Debug, PartialEq, Eq, Hash, Structural)]
pub struct Id(pub u32);

/// Does a listing row carry the requested EAN? Cells are padded, so the
/// cell text is compared trimmed.
pub open spec fn row_matches(row: ListRowModel, ean: Seq<char>) -> bool {
    match row.cell_text {
        Some(t) => trimmed(t) == ean,
        None => false,
    }
}

/// The first listing row carrying the requested EAN, in document order.
pub open spec fn first_match(rows: Seq<ListRowModel>, ean: Seq<char>) -> Option<ListRowModel>
    decreases rows.len(),
{
    if rows.len() == 0 {
        None
    } else if row_matches(rows[0], ean) {
        Some(rows[0])
    } else {
        first_match(rows.drop_first(), ean)
    }
}

/// What ID resolution returns for a given row list: the number at the
/// end of the first matching row's link, or the precise error.
pub open spec fn id_outcome(rows: Seq<ListRowModel>, ean: Seq<char>) -> Result<Id, Error> {
    match first_match(rows, ean) {
        None => Err(Error::ValueMissing),
        Some(row) => match row.href {
            None => Err(Error::ValueMissing),
            Some(h) => {
                let seg = last_segment(h);
                if seg.len() > 0 && all_digits(seg) && dec_value(seg) <= u32::MAX {
                    Ok(Id(dec_value(seg) as u32))
                } else {
                    Err(Error::ParseInt)
                }
            },
        },
    }
}

/// A scan that saw no match up to `i` pins `first_match` down.
proof fn lemma_first_match_scan(rows: Seq<ListRowModel>, ean: Seq<char>, i: int)
    requires
        0 <= i <= rows.len(),
        forall|j: int| 0 <= j < i ==> !row_matches(rows[j], ean),
        i == rows.len() || row_matches(rows[i], ean),
    ensures
        first_match(rows, ean) == (if i < rows.len() {
            Some(rows[i])
        } else {
            None::<ListRowModel>
        }),
    decreases i,
{
    if i == 0 {
    } else {
        lemma_first_match_scan(rows.drop_first(), ean, i - 1);
    }
}

impl Id {
    /// The numeric value of the identifier.
    pub fn value(&self) -> (r: u32)
        ensures
            r == self.0,
    {
        self.0
    }

    /// Pick the first listed connection whose cell spells `ean` and
    /// read the ID off the end of its link.
    pub fn from_rows(rows: &Vec<ListRow>, ean: &Ean) -> (r: Result<Id, Error>)
        ensures
            r == id_outcome(rows.deep_view(), ean@),
    {
        let ghost model = rows.deep_view();
        let n = rows.len();
        let mut i: usize = 0;
        while i < n && !row_has_ean(&rows[i], ean)
            invariant
                0 <= i <= n,
                n == rows.len(),
                model == rows.deep_view(),
                forall|j: int| 0 <= j < i ==> !row_matches(#[trigger] model[j], ean@),
            decreases n - i,
        {
            i = i + 1;
        }
        proof {
            lemma_first_match_scan(model, ean@, i as int);
        }
        if i == n {
            return Err(Error::ValueMissing);
        }
        match &rows[i].href {
            None => Err(Error::ValueMissing),
            Some(h) => {
                let seg = crate::text::take_last_segment(h.as_str());
                match parse_u32(seg.as_str()) {
                    Some(v) => Ok(Id(v)),
                    None => Err(Error::ParseInt),
                }
            },
        }
    }

    /// Resolve the ID for `ean` out of a fetched listing page: take
    /// every `a.list-row-visible` row, find the first whose
    /// `.row-cell.width-140` cell spells the EAN, and parse the trailing
    /// path segment of its `href`.
    pub fn from_list_page(page: &str, ean: &Ean) -> (r: Result<Id, Error>)
        ensures
            r == id_outcome(
                scraped_rows(page@, "a.list-row-visible"@, ".row-cell.width-140"@, "href"@),
                ean@,
            ),
    {
        let rows = select_rows(page, "a.list-row-visible", ".row-cell.width-140", "href");
        Id::from_rows(&rows, ean)
    }
}

/// Does this row's cell spell the requested EAN (after trimming)?
fn row_has_ean(row: &ListRow, ean: &Ean) -> (r: bool)
    ensures
        r == row_matches(row.deep_view(), ean@),
{
    match &row.cell_text {
        Some(t) => ean.matches_trimmed(t.as_str()),
        None => false,
    }
}

/// The URL of the listing endpoint the filter cookie is scoped to and
/// the rows are fetched from.
pub fn list_url() -> (r: &'static str)
    ensures
        r@ == "https://www.dbenergie.nl/Connections/List/Index"@,
{
    "https://www.dbenergie.nl/Connections/List/Index"
}

/// The `PersonalFilter` cookie that narrows the listing to one EAN: the
/// portal's fixed percent-encoded JSON filter template with the EAN
/// spliced into its `eanSearch` field.
pub fn filter_cookie(ean: &Ean) -> (r: String)
    ensures
        r@ == "PersonalFilter=%7B%22mainPortalId%22%3A1%2C%22portalId%22%3A6%2C%22productId%22%3A%5B1%5D%2C%22statusId%22%3A%5B%5D%2C%22providerId%22%3A0%2C%22gridId%22%3A0%2C%22meterreadingcompanyId%22%3A0%2C%22customerId%22%3A%5B50%5D%2C%22departmentId%22%3A%5B%5D%2C%22gvkvId%22%3A0%2C%22monitoringTypesId%22%3A0%2C%22characteristicId%22%3A0%2C%22consumptionCategoryId%22%3A0%2C%22consumptionTypeId%22%3A%5B%5D%2C%22costplaceId%22%3A0%2C%22energytaxationclusterId%22%3A0%2C%22classificationId%22%3A0%2C%22labelId%22%3A0%2C%22ConnectionTypeId%22%3A0%2C%22meterNumber%22%3A%22%22%2C%22eanSearch%22%3A%22"@
            + ean@
            + "%22%2C%22meterDeleted%22%3Afalse%2C%22ListMap%22%3Afalse%2C%22pageSize%22%3A15%2C%22pageNumber%22%3A1%2C%22orderBy%22%3A%22%22%2C%22orderDirection%22%3A%22asc%22%7D"@,
{
    let mut s = String::new();
    s.append(
        "PersonalFilter=%7B%22mainPortalId%22%3A1%2C%22portalId%22%3A6%2C%22productId%22%3A%5B1%5D%2C%22statusId%22%3A%5B%5D%2C%22providerId%22%3A0%2C%22gridId%22%3A0%2C%22meterreadingcompanyId%22%3A0%2C%22customerId%22%3A%5B50%5D%2C%22departmentId%22%3A%5B%5D%2C%22gvkvId%22%3A0%2C%22monitoringTypesId%22%3A0%2C%22characteristicId%22%3A0%2C%22consumptionCategoryId%22%3A0%2C%22consumptionTypeId%22%3A%5B%5D%2C%22costplaceId%22%3A0%2C%22energytaxationclusterId%22%3A0%2C%22classificationId%22%3A0%2C%22labelId%22%3A0%2C%22ConnectionTypeId%22%3A0%2C%22meterNumber%22%3A%22%22%2C%22eanSearch%22%3A%22",
    );
    s.append(ean.value());
    s.append(
        "%22%2C%22meterDeleted%22%3Afalse%2C%22ListMap%22%3Afalse%2C%22pageSize%22%3A15%2C%22pageNumber%22%3A1%2C%22orderBy%22%3A%22%22%2C%22orderDirection%22%3A%22asc%22%7D",
    );
    s
}

/// The `request` header value the listing endpoint insists on: the
/// base64 encoding of the literal text `false`, a fixed quirk of the
/// portal's AJAX contract rather than a real toggle.
pub fn list_request_header() -> (r: String)
    ensures
        r@ == base64_of("false"@),
{
    base64_encode("false")
}

} // verus!
