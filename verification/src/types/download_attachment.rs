//! Download one attachment's raw bytes by its id.
//!
//! This endpoint signals success by its HTTP status alone: a 2xx response
//! body is the raw bytes, handed to the caller unchanged, and any other
//! status carries the error shape below, classified here.

use vstd::prelude::*;

use crate::client::{api_url, Client};
use crate::types::errors::{id_keyed_error, is_empty_id_error, EmailsError};
use crate::types::ApiError;

verus! {

/// The error shape a non-2xx download response carries.
#[derive(Debug, Clone)]
pub struct DownloadAttachmentResponse {
    pub error: Option<ApiError>,
}

impl Client {
    /// The download-attachment request for the given attachment id: the
    /// endpoint's URL, or the fixed not-found error with which an empty id
    /// is short-circuited before any network call.
    pub fn download_attachment_request(&self, attachment_id: &str) -> (r: Result<
        String,
        EmailsError,
    >)
        ensures
            attachment_id@.len() == 0 ==> (r matches Err(e) && is_empty_id_error(
                e,
                "Attachment not found"@,
            )),
            attachment_id@.len() > 0 ==> (r matches Ok(u) && u@ == api_url() + "/attachments/"@
                + attachment_id@),
    {
        if attachment_id.is_empty() {
            return Err(
                EmailsError::NotFoundError {
                    name: "NotFound".to_owned(),
                    message: "Attachment not found".to_owned(),
                },
            );
        }
        let mut u = String::new();
        u.append("https://api.barid.site");
        u.append("/attachments/");
        u.append(attachment_id);
        proof {
            assert(u@ =~= api_url() + "/attachments/"@ + attachment_id@);
        }
        Ok(u)
    }
}

impl EmailsError {
    /// Map a failed download to its domain error: an error named `NotFound`
    /// is a not-found error, any other a validation error.
    pub fn from_download_attachment(response: DownloadAttachmentResponse) -> (e: Self)
        requires
            response.error is Some,
        ensures
            e == id_keyed_error(response.error->Some_0),
    {
        let error = response.error.unwrap();
        let not_found: String = "NotFound".to_owned();
        if error.name == not_found {
            Self::NotFoundError { name: error.name, message: error.description }
        } else {
            Self::ValidationError { name: error.name, message: error.description }
        }
    }
}

} // verus!
