//! The domain error taxonomy, and the classification rules that turn a raw
//! wire error into exactly one of its variants.

use vstd::prelude::*;

use crate::types::{ApiError, SupportedDomainsNote};

verus! {

/// The error taxonomy of the service.  Every failed call produces exactly one
/// variant; the classification precedence lives in [`domain_keyed_error`] and
/// [`id_keyed_error`].
#[derive(Debug, PartialEq, Eq, Clone)]
pub enum EmailsError {
    /// The given input is in bad format, for both emails and inbox IDs.
    ValidationError { name: String, message: String },
    /// The request used an email domain that the service does not support.
    /// Carries the list of domains that are supported.
    DomainError { name: String, message: String, supported_domains: Vec<String> },
    /// The requested inbox, message or attachment does not exist.
    NotFoundError { name: String, message: String },
}

/// Classification for endpoints keyed on the caller's email domain: a failure
/// that carries a `supportedDomains` note is a [`EmailsError::DomainError`];
/// any other failure is a [`EmailsError::ValidationError`].
pub open spec fn domain_keyed_error(err: ApiError, note: Option<SupportedDomainsNote>) -> EmailsError {
    match note {
        Some(n) => EmailsError::DomainError {
            name: err.name,
            message: err.description,
            supported_domains: n.supported_domains,
        },
        None => EmailsError::ValidationError { name: err.name, message: err.description },
    }
}

/// Classification for endpoints keyed on a resource id: an error named
/// `NotFound` is a [`EmailsError::NotFoundError`]; any other failure is a
/// [`EmailsError::ValidationError`].  These endpoints never consult the
/// domain note.
pub open spec fn id_keyed_error(err: ApiError) -> EmailsError {
    if err.name@ == "NotFound"@ {
        EmailsError::NotFoundError { name: err.name, message: err.description }
    } else {
        EmailsError::ValidationError { name: err.name, message: err.description }
    }
}

/// Classification for endpoints whose failures carry neither a domain note
/// nor a distinguished `NotFound` name: every failure is a
/// [`EmailsError::ValidationError`].
pub open spec fn plain_error(err: ApiError) -> EmailsError {
    EmailsError::ValidationError { name: err.name, message: err.description }
}

/// True of the error that an empty resource id is short-circuited to before
/// any network call: a [`EmailsError::NotFoundError`] with the fixed name
/// `NotFound` and the given fixed message.
pub open spec fn is_empty_id_error(e: EmailsError, msg: Seq<char>) -> bool {
    &&& e matches EmailsError::NotFoundError { name, message }
    &&& name@ == "NotFound"@
    &&& message@ == msg
}

} // verus!
