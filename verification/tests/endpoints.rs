use tmapi::types::count_emails::{CountResponse, CountResult};
use tmapi::types::delete_attachment::DeleteAttachmentResponse;
use tmapi::types::delete_emails::{DeleteResponse as DeleteEmailsResponse, DeleteResult};
use tmapi::types::delete_inbox::DeleteResponse as DeleteInboxResponse;
use tmapi::types::get_emails::GetEmailsResponse;
use tmapi::types::get_inbox::GetInboxResponse;
use tmapi::types::get_inbox_attachments::GetAttachmentsResponse;
use tmapi::types::{ApiError, Attachment, Email, SupportedDomainsNote};
use tmapi::{Client, EmailsError};

fn client() -> Client {
    Client::new("y@iusearch.lol").unwrap()
}

fn sample_email() -> Email {
    Email {
        id: "usm2sw0qfv9a5ku9z4xmh8og".into(),
        from_address: "a@example.com".into(),
        to_address: "y@iusearch.lol".into(),
        subject: "hello".into(),
        received_at: 1700000000,
        html_content: Some("<p>hi</p>".into()),
        text_content: None,
        has_attachments: true,
        attachment_count: 2,
    }
}

fn sample_attachment() -> Attachment {
    Attachment {
        content_type: "image/png".into(),
        created_at: 1700000001,
        filename: "cat.png".into(),
        id: "att_usm2sw0qfv9a5ku9z4xmh8og".into(),
        size: 12345,
    }
}

#[test]
fn email_count_url_is_exact() {
    assert_eq!(
        client().email_count_url(),
        "https://api.barid.site/emails/count/y@iusearch.lol"
    );
}

#[test]
fn get_emails_url_is_exact() {
    assert_eq!(
        client().get_emails_url(10, 0),
        "https://api.barid.site/emails/y@iusearch.lol?limit=10&offset=0"
    );
}

#[test]
fn get_emails_url_largest_window() {
    assert_eq!(
        client().get_emails_url(255, 4294967295),
        "https://api.barid.site/emails/y@iusearch.lol?limit=255&offset=4294967295"
    );
}

#[test]
fn get_email_attachments_url_is_exact() {
    assert_eq!(
        client().get_email_attachments_url(100, 7),
        "https://api.barid.site/emails/y@iusearch.lol/attachments?limit=100&offset=7"
    );
}

#[test]
fn delete_all_emails_url_is_exact() {
    assert_eq!(
        client().delete_all_emails_url(),
        "https://api.barid.site/emails/y@iusearch.lol"
    );
}

#[test]
fn delete_inbox_url_is_exact() {
    assert_eq!(
        client().delete_inbox_url("usm2sw0qfv9a5ku9z4xmh8og"),
        "https://api.barid.site/inbox/usm2sw0qfv9a5ku9z4xmh8og"
    );
}

#[test]
fn get_domains_url_is_exact() {
    assert_eq!(client().get_domains_url(), "https://api.barid.site/domains");
}

#[test]
fn server_health_url_is_exact() {
    assert_eq!(client().server_health_url(), "https://api.barid.site/health");
}

#[test]
fn get_inbox_request_url_is_exact() {
    assert_eq!(
        client().get_inbox_request("usm2sw0qfv9a5ku9z4xmh8og"),
        Ok("https://api.barid.site/inbox/usm2sw0qfv9a5ku9z4xmh8og".into())
    );
}

#[test]
fn get_attachments_request_url_is_exact() {
    assert_eq!(
        client().get_attachments_request("usm2sw0qfv9a5ku9z4xmh8og"),
        Ok("https://api.barid.site/inbox/usm2sw0qfv9a5ku9z4xmh8og/attachments".into())
    );
}

#[test]
fn download_attachment_request_url_is_exact() {
    assert_eq!(
        client().download_attachment_request("att_usm2sw0qfv9a5ku9z4xmh8og"),
        Ok("https://api.barid.site/attachments/att_usm2sw0qfv9a5ku9z4xmh8og".into())
    );
}

#[test]
fn delete_attachment_request_url_is_exact() {
    assert_eq!(
        client().delete_attachment_request("att_usm2sw0qfv9a5ku9z4xmh8og"),
        Ok("https://api.barid.site/attachments/att_usm2sw0qfv9a5ku9z4xmh8og".into())
    );
}

#[test]
fn get_inbox_request_empty_id_short_circuits() {
    assert_eq!(
        client().get_inbox_request(""),
        Err(EmailsError::NotFoundError {
            name: "NotFound".into(),
            message: "Email not found".into(),
        })
    );
}

#[test]
fn get_attachments_request_empty_id_short_circuits() {
    assert_eq!(
        client().get_attachments_request(""),
        Err(EmailsError::NotFoundError {
            name: "NotFound".into(),
            message: "Attachment not found".into(),
        })
    );
}

#[test]
fn download_attachment_request_empty_id_short_circuits() {
    assert_eq!(
        client().download_attachment_request(""),
        Err(EmailsError::NotFoundError {
            name: "NotFound".into(),
            message: "Attachment not found".into(),
        })
    );
}

#[test]
fn delete_attachment_request_empty_id_short_circuits() {
    assert_eq!(
        client().delete_attachment_request(""),
        Err(EmailsError::NotFoundError {
            name: "NotFound".into(),
            message: "Attachment not found".into(),
        })
    );
}

#[test]
fn count_success_unwraps_the_count() {
    let response = CountResponse {
        success: true,
        result: Some(CountResult { count: 7 }),
        error: None,
        note: None,
    };
    assert_eq!(response.classify(), Ok(7));
}

#[test]
fn get_emails_success_hands_messages_through_unchanged() {
    let response = GetEmailsResponse {
        success: true,
        result: Some(vec![sample_email()]),
        error: None,
        note: None,
    };
    assert_eq!(response.classify(), Ok(vec![sample_email()]));
}

#[test]
fn get_inbox_success_hands_message_through_unchanged() {
    let response = GetInboxResponse {
        success: true,
        result: Some(sample_email()),
        error: None,
    };
    assert_eq!(response.classify(), Ok(sample_email()));
}

#[test]
fn get_attachments_success_hands_attachments_through_unchanged() {
    let response = GetAttachmentsResponse {
        success: true,
        result: Some(vec![sample_attachment()]),
        error: None,
    };
    assert_eq!(response.classify(), Ok(vec![sample_attachment()]));
}

#[test]
fn delete_emails_success_unwraps_the_deleted_count() {
    let response = DeleteEmailsResponse {
        success: true,
        error: None,
        result: Some(DeleteResult { deleted_count: 3 }),
    };
    assert_eq!(response.classify(), Ok(3));
}

#[test]
fn delete_inbox_success_is_unit() {
    let response = DeleteInboxResponse {
        success: true,
        error: None,
    };
    assert_eq!(response.classify(), Ok(()));
}

#[test]
fn delete_attachment_success_is_unit() {
    let response = DeleteAttachmentResponse {
        success: true,
        error: None,
    };
    assert_eq!(response.classify(), Ok(()));
}

#[test]
fn domain_error_carries_the_exact_domain_list() {
    let response = CountResponse {
        success: false,
        result: None,
        error: Some(ApiError {
            name: "DomainError".into(),
            description: "Invalid domain".into(),
        }),
        note: Some(SupportedDomainsNote {
            supported_domains: vec!["iusearch.lol".into(), "barid.site".into()],
        }),
    };
    assert_eq!(
        response.classify(),
        Err(EmailsError::DomainError {
            name: "DomainError".into(),
            message: "Invalid domain".into(),
            supported_domains: vec!["iusearch.lol".into(), "barid.site".into()],
        })
    );
}

#[test]
fn domain_note_takes_precedence_over_notfound_name() {
    // A domain-keyed endpoint never consults the error name: with a note
    // present, even an error named NotFound is a domain error.
    let response = CountResponse {
        success: false,
        result: None,
        error: Some(ApiError {
            name: "NotFound".into(),
            description: "Inbox not found".into(),
        }),
        note: Some(SupportedDomainsNote {
            supported_domains: vec![],
        }),
    };
    assert_eq!(
        response.classify(),
        Err(EmailsError::DomainError {
            name: "NotFound".into(),
            message: "Inbox not found".into(),
            supported_domains: vec![],
        })
    );
}

#[test]
fn id_keyed_endpoint_maps_notfound_by_name() {
    let response = GetInboxResponse {
        success: false,
        result: None,
        error: Some(ApiError {
            name: "NotFound".into(),
            description: "Inbox not found".into(),
        }),
    };
    assert_eq!(
        response.classify(),
        Err(EmailsError::NotFoundError {
            name: "NotFound".into(),
            message: "Inbox not found".into(),
        })
    );
}
