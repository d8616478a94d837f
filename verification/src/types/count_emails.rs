//! Count the messages held for the client's email address.

use vstd::prelude::*;

use crate::client::{api_url, Client};
use crate::types::errors::{domain_keyed_error, EmailsError};
use crate::types::{ApiError, SupportedDomainsNote};

verus! {

/// The response shape of the message-count endpoint.
#[derive(Debug, Clone)]
pub struct CountResponse {
    pub success: bool,
    pub result: Option<CountResult>,
    pub error: Option<ApiError>,
    pub note: Option<SupportedDomainsNote>,
}

#[derive(Debug, Clone, Copy)]
pub struct CountResult {
    pub count: u32,
}

impl CountResponse {
    /// The server's wire contract: a success response carries a result, a
    /// failure response carries an error.
    pub open spec fn wf(self) -> bool {
        &&& self.success ==> self.result is Some
        &&& !self.success ==> self.error is Some
    }

    /// Classify a decoded count response: unwrap the count on success, map
    /// the error by domain-note precedence on failure.
    pub fn classify(self) -> (r: Result<u32, EmailsError>)
        requires
            self.wf(),
        ensures
            self.success ==> r == Ok::<u32, EmailsError>(self.result->Some_0.count),
            !self.success ==> r == Err::<u32, EmailsError>(
                domain_keyed_error(self.error->Some_0, self.note),
            ),
    {
        if self.success {
            Ok(self.result.unwrap().count)
        } else {
            Err(EmailsError::from_email_count(self))
        }
    }
}

impl Client {
    /// The URL of the message-count endpoint for this client's address.
    pub fn email_count_url(&self) -> (u: String)
        ensures
            u@ == api_url() + "/emails/count/"@ + self.email@,
    {
        let mut u = String::new();
        u.append("https://api.barid.site");
        u.append("/emails/count/");
        u.append(self.email.as_str());
        proof {
            assert(u@ =~= api_url() + "/emails/count/"@ + self.email@);
        }
        u
    }
}

impl EmailsError {
    /// Map a failed count response to its domain error: a response that
    /// carries a `supportedDomains` note is a domain error, any other a
    /// validation error.
    pub fn from_email_count(response: CountResponse) -> (e: Self)
        requires
            response.error is Some,
        ensures
            e == domain_keyed_error(response.error->Some_0, response.note),
    {
        let error = response.error.unwrap();
        match response.note {
            Some(note) => Self::DomainError {
                name: error.name,
                message: error.description,
                supported_domains: note.supported_domains,
            },
            None => Self::ValidationError { name: error.name, message: error.description },
        }
    }
}

} // verus!
