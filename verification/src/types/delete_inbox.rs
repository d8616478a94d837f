//! Delete one message by its id.

use vstd::prelude::*;

use crate::client::{api_url, Client};
use crate::types::errors::{plain_error, EmailsError};
use crate::types::ApiError;

verus! {

/// The response shape of the delete-one-message endpoint.
#[derive(Debug, Clone)]
pub struct DeleteResponse {
    pub success: bool,
    pub error: Option<ApiError>,
}

impl DeleteResponse {
    /// The server's wire contract: a failure response carries an error.
    pub open spec fn wf(self) -> bool {
        !self.success ==> self.error is Some
    }

    /// Classify a decoded deletion response: unit on success, a validation
    /// error on every failure.
    pub fn classify(self) -> (r: Result<(), EmailsError>)
        requires
            self.wf(),
        ensures
            self.success ==> r is Ok,
            !self.success ==> r == Err::<(), EmailsError>(plain_error(self.error->Some_0)),
    {
        if self.success {
            Ok(())
        } else {
            Err(EmailsError::from_delete_inbox(self))
        }
    }
}

impl Client {
    /// The URL of the delete-one-message endpoint for the given message id
    /// (requested with the DELETE method).  No local check is made on the
    /// id.
    pub fn delete_inbox_url(&self, email_id: &str) -> (u: String)
        ensures
            u@ == api_url() + "/inbox/"@ + email_id@,
    {
        let mut u = String::new();
        u.append("https://api.barid.site");
        u.append("/inbox/");
        u.append(email_id);
        proof {
            assert(u@ =~= api_url() + "/inbox/"@ + email_id@);
        }
        u
    }
}

impl EmailsError {
    /// Map a failed single deletion to its domain error: every failure of
    /// this endpoint is a validation error.
    pub fn from_delete_inbox(response: DeleteResponse) -> (e: Self)
        requires
            response.error is Some,
        ensures
            e == plain_error(response.error->Some_0),
    {
        let error = response.error.unwrap();
        Self::ValidationError { name: error.name, message: error.description }
    }
}

} // verus!
