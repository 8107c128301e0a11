//! What guards the routes.
use vstd::prelude::*;
use vstd::string::*;
use vstd::utf8::is_char_boundary;

verus! {

/// Checks that a request carries the signature of someone who knows the secret.
#[derive(Clone, Copy, Debug)]
pub struct VerifySignature;

/// How many bytes of a signature header name the scheme.
pub const SCHEME_LEN: usize = 5;

impl VerifySignature {
    /// The signature in a signature header: what follows the scheme.
    ///
    /// `None` exactly where the header cannot be cut behind its first
    /// [`SCHEME_LEN`] bytes.
    pub fn signature<'a>(&self, header: &'a str) -> (sig: Option<&'a str>)
        ensures
            sig is Some <==> is_char_boundary(header.spec_bytes(), SCHEME_LEN as int),
            sig is Some ==> sig->0.spec_bytes() == header.spec_bytes().subrange(
                SCHEME_LEN as int,
                header.spec_bytes().len() as int,
            ),
    {
        if header.is_char_boundary(SCHEME_LEN) {
            let (_, sig) = header.split_at(SCHEME_LEN);
            Some(sig)
        } else {
            None
        }
    }
}

} // verus!
