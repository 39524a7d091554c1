//! The portal's header encoding, behind a trusted wrapper around the
//! `base64` crate.
//!
//! Every AJAX-style export request carries its payload as base64-encoded
//! text in a custom `request` header; this is the one encoding step the
//! whole protocol shares.

use vstd::prelude::*;

verus! {

/// The padded standard-alphabet base64 rendering of the UTF-8 bytes of
/// `s`: a function of `s` alone. An empty input encodes to the empty
/// string.
pub uninterp spec fn base64_of(s: Seq<char>) -> Seq<char>;

/// Relies on the `base64` crate's `STANDARD` engine (`Engine::encode`):
/// padded base64 over the standard alphabet, computed from the input
/// bytes alone. Its only panic is on an output-length overflow near
/// `usize::MAX` input bytes, beyond what any allocated string can reach.
#[verifier::external_body]
pub fn base64_encode(s: &str) -> (r: String)
    ensures
        r@ == base64_of(s@),
        s@.len() == 0 ==> r@.len() == 0,
{
    base64::Engine::encode(&base64::engine::general_purpose::STANDARD, s)
}

} // verus!
