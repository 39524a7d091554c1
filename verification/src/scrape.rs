//! HTML extraction, behind trusted wrappers around the `scraper` crate.
//!
//! The portal exposes no API: values are read out of its pages with CSS
//! selectors. Parsing and selection are the `scraper` crate's work; what
//! each page's extract means is interpreted by verified code in the
//! modules that call these wrappers.

use vstd::prelude::*;

verus! {

/// What scraping a page for one element yields: `None` when no element
/// matches the selector, `Some(None)` when the first match lacks the
/// attribute, `Some(Some(v))` for the attribute's value. A function of
/// the page and the two query strings alone.
pub uninterp spec fn scraped_attr(
    page: Seq<char>,
    selector: Seq<char>,
    attr: Seq<char>,
) -> Option<Option<Seq<char>>>;

/// Relies on scraper's `Html::parse_document`, `Selector::parse`,
/// `Html::select` and `ElementRef::attr`: parses `page` as an HTML
/// document, takes the first element matching the CSS `selector` in
/// document order, and reads its attribute `attr`. Deterministic in its
/// inputs; an unparsable selector (none is passed from this crate)
/// counts as no match.
#[verifier::external_body]
pub fn select_first_attr(page: &str, selector: &str, attr: &str) -> (r: Option<Option<String>>)
    ensures
        r.deep_view() == scraped_attr(page@, selector@, attr@),
{
    let html = scraper::Html::parse_document(page);
    let sel = match scraper::Selector::parse(selector) {
        Ok(s) => s,
        Err(_) => return None,
    };
    let element = match html.select(&sel).next() {
        Some(e) => e,
        None => return None,
    };
    Some(element.attr(attr).map(|v| v.to_owned()))
}

/// One row-like element of a listing page: the first text node of its
/// first cell matching the cell selector, and one attribute of the row
/// element itself.
pub struct ListRow {
    pub cell_text: Option<String>,
    pub href: Option<String>,
}

/// The mathematical shadow of a `ListRow`.
pub struct ListRowModel {
    pub cell_text: Option<Seq<char>>,
    pub href: Option<Seq<char>>,
}

impl DeepView for ListRow {
    type V = ListRowModel;

    open spec fn deep_view(&self) -> ListRowModel {
        ListRowModel { cell_text: self.cell_text.deep_view(), href: self.href.deep_view() }
    }
}

/// What scraping a page for its rows yields, in document order. A
/// function of the page and the three query strings alone.
pub uninterp spec fn scraped_rows(
    page: Seq<char>,
    row_selector: Seq<char>,
    cell_selector: Seq<char>,
    attr: Seq<char>,
) -> Seq<ListRowModel>;

/// Relies on scraper's `Html::parse_document`, `Selector::parse`,
/// `select`, `ElementRef::text` and `ElementRef::attr`: every element
/// matching `row_selector` in document order, each paired with the first
/// text node of its first `cell_selector` descendant and with its own
/// `attr` attribute. Deterministic in its inputs; an unparsable selector
/// (none is passed from this crate) yields no rows.
#[verifier::external_body]
pub fn select_rows(page: &str, row_selector: &str, cell_selector: &str, attr: &str) -> (r: Vec<
    ListRow,
>)
    ensures
        r.deep_view() == scraped_rows(page@, row_selector@, cell_selector@, attr@),
{
    let html = scraper::Html::parse_document(page);
    let sels = (scraper::Selector::parse(row_selector), scraper::Selector::parse(cell_selector));
    let (Ok(row_sel), Ok(cell_sel)) = sels else { return Vec::new() };
    html.select(&row_sel).map(
        |row| ListRow {
            cell_text: row.select(&cell_sel).next().and_then(|c| c.text().next()).map(
                |t| t.to_owned(),
            ),
            href: row.attr(attr).map(|v| v.to_owned()),
        },
    ).collect()
}

} // verus!
