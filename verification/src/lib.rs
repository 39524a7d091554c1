//! Client-side logic for pulling tabular energy-usage reports from the
//! DB Energie web portal: request payload construction, response
//! interpretation, identifier resolution, and the polling pipeline that
//! ties them together.

pub mod backoff;
pub mod date;
pub mod ean;
pub mod id;
pub mod login;
pub mod pipeline;
pub mod report;
pub mod roster;
pub mod encode;
pub mod scrape;
pub mod text;

use vstd::prelude::*;

verus! {

/// The settings the program runs with: the credentials to log in with
/// and where downloaded reports go (a directory path or an upload URL).
pub struct Args {
    /// The email to use to log in at DB Energie.
    pub mail: String,
    /// The password to use to log in at DB Energie.
    pub password: String,
    /// The directory path or URL to write received reports to.
    pub output: String,
}

impl Args {
    pub fn new(mail: String, password: String, output: String) -> (r: Args)
        ensures
            r.mail@ == mail@,
            r.password@ == password@,
            r.output@ == output@,
    {
        Args { mail, password, output }
    }
}

} // verus!
