//! The data model shared by every endpoint: messages, attachments, and the
//! raw error / note shapes that failure responses carry on the wire.

use vstd::prelude::*;

pub mod errors;
pub mod health;

pub mod count_emails;
pub mod delete_attachment;
pub mod delete_emails;
pub mod delete_inbox;
pub mod download_attachment;
pub mod get_domains;
pub mod get_email_attachments;
pub mod get_emails;
pub mod get_inbox;
pub mod get_inbox_attachments;

verus! {

/// A received message.  Values of this type are produced only by decoding
/// server responses; the library never builds one itself.
#[derive(Debug, Clone, PartialEq, Eq)]
pub struct Email {
    /// Message's ID
    pub id: String,
    /// Sender's address
    pub from_address: String,
    /// Receiver's address
    pub to_address: String,
    /// Message subject
    pub subject: String,
    /// Message received date (Unix epoch seconds)
    pub received_at: i64,
    /// Message content formatted as html
    pub html_content: Option<String>,
    /// Message content formatted as text
    pub text_content: Option<String>,
    /// Indicates whether the email has attachments or not
    pub has_attachments: bool,
    /// How many attachments the email carries
    pub attachment_count: u32,
}

/// A binary object associated with a message.
#[derive(Debug, Clone, PartialEq, Eq)]
pub struct Attachment {
    /// The MIME type of the attachment.
    pub content_type: String,
    /// The timestamp when the attachment was created (Unix epoch).
    pub created_at: i64,
    /// The original filename of the attachment.
    pub filename: String,
    /// The unique identifier for the attachment.
    pub id: String,
    /// The size of the attachment in bytes.
    pub size: u64,
}

/// The raw error shape of a failure response: a machine-readable name and a
/// human-readable description.  Never exposed to callers directly; always
/// mapped to an [`crate::EmailsError`] variant.
#[derive(Debug, Clone, PartialEq, Eq)]
pub struct ApiError {
    /// Error name
    pub name: String,
    /// Error description (the wire field is called `message`)
    pub description: String,
}

/// The optional note that domain-keyed endpoints attach to a failure caused
/// by an unsupported email domain (wire field `supportedDomains`).
#[derive(Debug, Clone, PartialEq, Eq)]
pub struct SupportedDomainsNote {
    /// The domains the service does accept.
    pub supported_domains: Vec<String>,
}

} // verus!
