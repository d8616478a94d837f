//! List the attachments held for the client's email address.

use vstd::prelude::*;

use crate::client::{api_url, Client};
use crate::digits::{dec_digits, push_u32};
use crate::types::errors::{domain_keyed_error, EmailsError};
use crate::types::{ApiError, Attachment, SupportedDomainsNote};

verus! {

/// The response shape of the attachment-listing-by-email endpoint.
#[derive(Debug, Clone)]
pub struct GetEmailAttachmentsResponse {
    pub success: bool,
    pub result: Option<Vec<Attachment>>,
    pub error: Option<ApiError>,
    pub note: Option<SupportedDomainsNote>,
}

impl GetEmailAttachmentsResponse {
    /// The server's wire contract: a success response carries a result, a
    /// failure response carries an error.
    pub open spec fn wf(self) -> bool {
        &&& self.success ==> self.result is Some
        &&& !self.success ==> self.error is Some
    }

    /// Classify a decoded attachment listing: hand the attachments through
    /// unchanged on success, map the error by domain-note precedence on
    /// failure.
    pub fn classify(self) -> (r: Result<Vec<Attachment>, EmailsError>)
        requires
            self.wf(),
        ensures
            self.success ==> r == Ok::<Vec<Attachment>, EmailsError>(self.result->Some_0),
            !self.success ==> r == Err::<Vec<Attachment>, EmailsError>(
                domain_keyed_error(self.error->Some_0, self.note),
            ),
    {
        if self.success {
            Ok(self.result.unwrap())
        } else {
            Err(EmailsError::from_get_email_attachments(self))
        }
    }
}

impl Client {
    /// The URL of the attachment-listing endpoint for this client's address,
    /// with the given pagination window.  The documented bounds (limit 1 to
    /// 100, offset at least 0) are not checked locally.
    pub fn get_email_attachments_url(&self, limit: u8, offset: u32) -> (u: String)
        ensures
            u@ == api_url() + "/emails/"@ + self.email@ + "/attachments?limit="@ + dec_digits(
                limit as nat,
            ) + "&offset="@ + dec_digits(offset as nat),
    {
        let mut u = String::new();
        u.append("https://api.barid.site");
        u.append("/emails/");
        u.append(self.email.as_str());
        u.append("/attachments?limit=");
        push_u32(&mut u, limit as u32);
        u.append("&offset=");
        push_u32(&mut u, offset);
        proof {
            assert(u@ =~= api_url() + "/emails/"@ + self.email@ + "/attachments?limit="@
                + dec_digits(limit as nat) + "&offset="@ + dec_digits(offset as nat));
        }
        u
    }
}

impl EmailsError {
    /// Map a failed attachment listing to its domain error: a response that
    /// carries a `supportedDomains` note is a domain error, any other a
    /// validation error.
    pub fn from_get_email_attachments(response: GetEmailAttachmentsResponse) -> (e: Self)
        requires
            response.error is Some,
        ensures
            e == domain_keyed_error(response.error->Some_0, response.note),
    {
        let error = response.error.unwrap();
        match response.note {
            Some(note) => Self::DomainError {
                name: error.name,
                message: error.description,
                supported_domains: note.supported_domains,
            },
            None => Self::ValidationError { name: error.name, message: error.description },
        }
    }
}

} // verus!
