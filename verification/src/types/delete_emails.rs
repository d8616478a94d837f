//! Delete every message held for the client's email address.

use vstd::prelude::*;

use crate::client::{api_url, Client};
use crate::types::errors::{plain_error, EmailsError};
use crate::types::ApiError;

verus! {

/// The response shape of the delete-all-messages endpoint.
#[derive(Debug, Clone)]
pub struct DeleteResponse {
    pub success: bool,
    pub error: Option<ApiError>,
    pub result: Option<DeleteResult>,
}

#[derive(Debug, Clone, Copy)]
pub struct DeleteResult {
    pub deleted_count: u32,
}

impl DeleteResponse {
    /// The server's wire contract: a success response carries a result, a
    /// failure response carries an error.
    pub open spec fn wf(self) -> bool {
        &&& self.success ==> self.result is Some
        &&& !self.success ==> self.error is Some
    }

    /// Classify a decoded deletion response: unwrap the deleted count on
    /// success, map every failure to a validation error.
    pub fn classify(self) -> (r: Result<u32, EmailsError>)
        requires
            self.wf(),
        ensures
            self.success ==> r == Ok::<u32, EmailsError>(self.result->Some_0.deleted_count),
            !self.success ==> r == Err::<u32, EmailsError>(plain_error(self.error->Some_0)),
    {
        if self.success {
            Ok(self.result.unwrap().deleted_count)
        } else {
            Err(EmailsError::from_delete_emails(self))
        }
    }
}

impl Client {
    /// The URL of the delete-all-messages endpoint for this client's
    /// address (requested with the DELETE method).
    pub fn delete_all_emails_url(&self) -> (u: String)
        ensures
            u@ == api_url() + "/emails/"@ + self.email@,
    {
        let mut u = String::new();
        u.append("https://api.barid.site");
        u.append("/emails/");
        u.append(self.email.as_str());
        proof {
            assert(u@ =~= api_url() + "/emails/"@ + self.email@);
        }
        u
    }
}

impl EmailsError {
    /// Map a failed bulk deletion to its domain error: every failure of this
    /// endpoint is a validation error.
    pub fn from_delete_emails(response: DeleteResponse) -> (e: Self)
        requires
            response.error is Some,
        ensures
            e == plain_error(response.error->Some_0),
    {
        let error = response.error.unwrap();
        Self::ValidationError { name: error.name, message: error.description }
    }
}

} // verus!
