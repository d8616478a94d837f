//! The client object: an inbox address, validated once at construction and
//! interpolated into every endpoint URL.

use vstd::prelude::*;

verus! {

/// Well-formedness of an email address string, exactly as the
/// `email_address` crate's parser decides it.  The result depends on the
/// characters alone.
pub uninterp spec fn valid_email(s: Seq<char>) -> bool;

/// Relies on `email_address::EmailAddress::is_valid`: a pure syntactic check
/// of the address string, true exactly when the string parses as an email
/// address.
#[verifier::external_body]
fn email_syntax_ok(email: &str) -> (r: bool)
    ensures
        r == valid_email(email@),
{
    email_address::EmailAddress::is_valid(email)
}

/// The fixed base address of the service.
pub open spec fn api_url() -> Seq<char> {
    "https://api.barid.site"@
}

/// The client: holds the validated inbox address every URL is built from.
/// The HTTP transport that issues the requests lives outside the library
/// and is paired with this value by the caller.
#[derive(Debug, Clone)]
pub struct Client {
    /// The email which the client uses
    pub email: String,
}

impl Client {
    /// Create a new instance of `Client`.
    ///
    /// Returns `None` exactly when the email is syntactically malformed; on
    /// success the client holds that exact address.  Domain allow-listing is
    /// not checked here: it is enforced server-side.
    pub fn new(email: &str) -> (r: Option<Self>)
        ensures
            r is Some <==> valid_email(email@),
            r matches Some(c) ==> c.email@ == email@,
    {
        if !email_syntax_ok(email) {
            return None;
        }
        Some(Client { email: email.to_owned() })
    }
}

} // verus!
