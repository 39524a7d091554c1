//! Logging in to the portal: anti-forgery token extraction and the
//! login form.
//!
//! The portal's login page hides a verification token in a form input;
//! a login is a form POST carrying the credentials and that token. The
//! portal answers 200 regardless, so success shows only once the first
//! authenticated request works; the transport must capture and replay
//! the cookies the response sets.

use vstd::prelude::*;

use crate::scrape::{scraped_attr, select_first_attr};

verus! {

/// What logging in can fail with.
#[derive(Clone, Copy, Debug, PartialEq, Eq)]
pub enum Error {
    /// The transport failed; raised by the caller that performs the
    /// requests.
    FailedRequest,
    /// The login page held no element named like the verification
    /// token.
    MissingVerificationToken,
    /// The token element was present but carried no value.
    TokenHasNoValue,
    /// The fetched page was not UTF-8; raised by the caller that
    /// performs the requests.
    Utf8,
}

/// The URL of the login page the token is extracted from.
pub fn login_page_url() -> (r: &'static str)
    ensures
        r@ == "https://www.dbenergie.nl/Authorization/Login/Default"@,
{
    "https://www.dbenergie.nl/Authorization/Login/Default"
}

/// The URL the login form is posted to.
pub fn login_post_url() -> (r: &'static str)
    ensures
        r@ == "https://www.dbenergie.nl/Home/Login"@,
{
    "https://www.dbenergie.nl/Home/Login"
}

/// Read the anti-forgery token out of a fetched login page: the `value`
/// attribute of the first element whose `name` is
/// `__RequestVerificationToken`, exactly as the page carries it.
pub fn verification_token_from_page(page: &str) -> (r: Result<String, Error>)
    ensures
        match r {
            Ok(token) => scraped_attr(
                page@,
                "[name=\"__RequestVerificationToken\"]"@,
                "value"@,
            ) == Some(Some(token@)),
            Err(e) => match scraped_attr(
                page@,
                "[name=\"__RequestVerificationToken\"]"@,
                "value"@,
            ) {
                None => e == Error::MissingVerificationToken,
                Some(None) => e == Error::TokenHasNoValue,
                Some(Some(_)) => false,
            },
        },
{
    match select_first_attr(page, "[name=\"__RequestVerificationToken\"]", "value") {
        None => Err(Error::MissingVerificationToken),
        Some(None) => Err(Error::TokenHasNoValue),
        Some(Some(token)) => Ok(token),
    }
}

/// The three form fields of a login POST, in the order they are sent:
/// the mail address, the password, and the verification token.
pub fn login_form(mail: &str, password: &str, token: &str) -> (r: Vec<(String, String)>)
    ensures
        r@.len() == 3,
        r@[0].0@ == "user[emailAddress]"@ && r@[0].1@ == mail@,
        r@[1].0@ == "user[passWord]"@ && r@[1].1@ == password@,
        r@[2].0@ == "__RequestVerificationToken"@ && r@[2].1@ == token@,
{
    let mut form: Vec<(String, String)> = Vec::new();
    form.push((String::from_str("user[emailAddress]"), mail.to_owned()));
    form.push((String::from_str("user[passWord]"), password.to_owned()));
    form.push((String::from_str("__RequestVerificationToken"), token.to_owned()));
    form
}

} // verus!
