//! EAN codes: the external meter identifiers the portal lists.
//!
//! An EAN is an opaque string value; equality is exact string equality.
//! The portal's connection-edit page carries a meter's EAN as the
//! `value` attribute of its `#Mod_ean` input, padded with whitespace.

use vstd::prelude::*;

use crate::scrape::{scraped_attr, select_first_attr};
use crate::text::{append_decimal, dec_digits, trim_chars, trimmed};

verus! {

/// What resolving an EAN from a page can fail with.
#[derive(Clone, Copy, Debug, PartialEq, Eq)]
pub enum Error {
    /// The transport failed; raised by the caller that performs the
    /// page fetch.
    Request,
    /// The page held no usable EAN value.
    ValueMissing,
    /// The fetched page was not UTF-8; raised by the caller that
    /// performs the page fetch.
    Utf8,
}

/// An external meter identifier, kept exactly as the portal rendered it.
/// In verified code, compare with `same_as`, whose meaning is pinned
/// down; the derived equality serves unverified callers.
#[derive(Clone, Debug, PartialEq, Eq)]
pub struct Ean {
    value: String,
}

impl View for Ean {
    type V = Seq<char>;

    closed spec fn view(&self) -> Seq<char> {
        self.value@
    }
}

impl DeepView for Ean {
    type V = Seq<char>;

    open spec fn deep_view(&self) -> Seq<char> {
        self.view()
    }
}

impl Ean {
    /// Wrap a raw identifier string.
    pub fn new(value: String) -> (r: Ean)
        ensures
            r@ == value@,
    {
        Ean { value }
    }

    /// The identifier as text.
    pub fn value(&self) -> (r: &str)
        ensures
            r@ == self@,
    {
        self.value.as_str()
    }

    /// An owned copy with the same value.
    pub fn duplicate(&self) -> (r: Ean)
        ensures
            r@ == self@,
    {
        Ean { value: self.value.clone() }
    }

    /// Does `raw`, once trimmed, spell exactly this identifier? The
    /// listing page pads its cells, so cells are compared trimmed while
    /// the stored identifier is compared as is.
    pub fn matches_trimmed(&self, raw: &str) -> (r: bool)
        ensures
            r == (trimmed(raw@) == self@),
    {
        let t = trim_chars(raw);
        t == self.value
    }

    /// Exact string equality of two identifiers.
    pub fn same_as(&self, other: &Ean) -> (r: bool)
        ensures
            r == (self@ == other@),
    {
        self.value == other.value
    }

    /// The URL of the connection-edit page for an internal ID, whose
    /// HTML carries the corresponding EAN.
    pub fn edit_page_url(id: u32) -> (r: String)
        ensures
            r@ == "https://www.dbenergie.nl/Connections/Edit/Index/"@ + dec_digits(id as nat),
    {
        let mut s = String::new();
        s.append("https://www.dbenergie.nl/Connections/Edit/Index/");
        append_decimal(&mut s, id as u64);
        proof {
            assert(s@ =~= "https://www.dbenergie.nl/Connections/Edit/Index/"@ + dec_digits(
                id as nat,
            ));
        }
        s
    }

    /// Read the EAN out of a fetched connection-edit page: the `value`
    /// attribute of the first `#Mod_ean` element, trimmed. Fails when
    /// the element or its attribute is absent.
    pub fn from_edit_page(page: &str) -> (r: Result<Ean, Error>)
        ensures
            match r {
                Ok(ean) => scraped_attr(page@, "#Mod_ean"@, "value"@) matches Some(Some(v))
                    && ean@ == trimmed(v),
                Err(e) => e == Error::ValueMissing && !(scraped_attr(
                    page@,
                    "#Mod_ean"@,
                    "value"@,
                ) matches Some(Some(_))),
            },
    {
        match select_first_attr(page, "#Mod_ean", "value") {
            None => Err(Error::ValueMissing),
            Some(None) => Err(Error::ValueMissing),
            Some(Some(raw)) => Ok(Ean { value: trim_chars(raw.as_str()) }),
        }
    }
}

} // verus!
