//! Delete one attachment by its id.

use vstd::prelude::*;

use crate::client::{api_url, Client};
use crate::types::errors::{is_empty_id_error, plain_error, EmailsError};
use crate::types::ApiError;

verus! {

/// The response shape of the delete-attachment endpoint.
#[derive(Debug, Clone)]
pub struct DeleteAttachmentResponse {
    pub success: bool,
    pub error: Option<ApiError>,
}

impl DeleteAttachmentResponse {
    /// The server's wire contract: a failure response carries an error.
    pub open spec fn wf(self) -> bool {
        !self.success ==> self.error is Some
    }

    /// Classify a decoded deletion response: unit on success, a validation
    /// error on every failure.
    pub fn classify(self) -> (r: Result<(), EmailsError>)
        requires
            self.wf(),
        ensures
            self.success ==> r is Ok,
            !self.success ==> r == Err::<(), EmailsError>(plain_error(self.error->Some_0)),
    {
        if self.success {
            Ok(())
        } else {
            Err(EmailsError::from_delete_attachment(self))
        }
    }
}

impl Client {
    /// The delete-attachment request for the given attachment id (requested
    /// with the DELETE method): the endpoint's URL, or the fixed not-found
    /// error with which an empty id is short-circuited before any network
    /// call.
    pub fn delete_attachment_request(&self, attachment_id: &str) -> (r: Result<
        String,
        EmailsError,
    >)
        ensures
            attachment_id@.len() == 0 ==> (r matches Err(e) && is_empty_id_error(
                e,
                "Attachment not found"@,
            )),
            attachment_id@.len() > 0 ==> (r matches Ok(u) && u@ == api_url() + "/attachments/"@
                + attachment_id@),
    {
        if attachment_id.is_empty() {
            return Err(
                EmailsError::NotFoundError {
                    name: "NotFound".to_owned(),
                    message: "Attachment not found".to_owned(),
                },
            );
        }
        let mut u = String::new();
        u.append("https://api.barid.site");
        u.append("/attachments/");
        u.append(attachment_id);
        proof {
            assert(u@ =~= api_url() + "/attachments/"@ + attachment_id@);
        }
        Ok(u)
    }
}

impl EmailsError {
    /// Map a failed attachment deletion to its domain error: every failure
    /// of this endpoint is a validation error.
    pub fn from_delete_attachment(response: DeleteAttachmentResponse) -> (e: Self)
        requires
            response.error is Some,
        ensures
            e == plain_error(response.error->Some_0),
    {
        let error = response.error.unwrap();
        Self::ValidationError { name: error.name, message: error.description }
    }
}

} // verus!
