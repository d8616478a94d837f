//! List one message's attachments by the message's id.

use vstd::prelude::*;

use crate::client::{api_url, Client};
use crate::types::errors::{id_keyed_error, is_empty_id_error, EmailsError};
use crate::types::{ApiError, Attachment};

verus! {

/// The response shape of the attachment-listing-by-message endpoint.
#[derive(Debug, Clone)]
pub struct GetAttachmentsResponse {
    pub success: bool,
    pub result: Option<Vec<Attachment>>,
    pub error: Option<ApiError>,
}

impl GetAttachmentsResponse {
    /// The server's wire contract: a success response carries a result, a
    /// failure response carries an error.
    pub open spec fn wf(self) -> bool {
        &&& self.success ==> self.result is Some
        &&& !self.success ==> self.error is Some
    }

    /// Classify a decoded attachment listing: hand the attachments through
    /// unchanged on success, map the error by its name on failure.
    pub fn classify(self) -> (r: Result<Vec<Attachment>, EmailsError>)
        requires
            self.wf(),
        ensures
            self.success ==> r == Ok::<Vec<Attachment>, EmailsError>(self.result->Some_0),
            !self.success ==> r == Err::<Vec<Attachment>, EmailsError>(
                id_keyed_error(self.error->Some_0),
            ),
    {
        if self.success {
            Ok(self.result.unwrap())
        } else {
            Err(EmailsError::from_get_attachment(self))
        }
    }
}

impl Client {
    /// The attachment-listing request for the given message id: the
    /// endpoint's URL, or the fixed not-found error with which an empty id
    /// is short-circuited before any network call.
    pub fn get_attachments_request(&self, email_id: &str) -> (r: Result<String, EmailsError>)
        ensures
            email_id@.len() == 0 ==> (r matches Err(e) && is_empty_id_error(
                e,
                "Attachment not found"@,
            )),
            email_id@.len() > 0 ==> (r matches Ok(u) && u@ == api_url() + "/inbox/"@ + email_id@
                + "/attachments"@),
    {
        if email_id.is_empty() {
            return Err(
                EmailsError::NotFoundError {
                    name: "NotFound".to_owned(),
                    message: "Attachment not found".to_owned(),
                },
            );
        }
        let mut u = String::new();
        u.append("https://api.barid.site");
        u.append("/inbox/");
        u.append(email_id);
        u.append("/attachments");
        proof {
            assert(u@ =~= api_url() + "/inbox/"@ + email_id@ + "/attachments"@);
        }
        Ok(u)
    }
}

impl EmailsError {
    /// Map a failed attachment listing to its domain error: an error named
    /// `NotFound` is a not-found error, any other a validation error.
    pub fn from_get_attachment(response: GetAttachmentsResponse) -> (e: Self)
        requires
            response.error is Some,
        ensures
            e == id_keyed_error(response.error->Some_0),
    {
        let error = response.error.unwrap();
        let not_found: String = "NotFound".to_owned();
        if error.name == not_found {
            Self::NotFoundError { name: error.name, message: error.description }
        } else {
            Self::ValidationError { name: error.name, message: error.description }
        }
    }
}

} // verus!
