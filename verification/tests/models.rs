//! Tests of the message builder and the status names.

use acs_email::models::{
    BuildEmailError, EmailAddress, EmailAttachment, EmailContent, Header, Recipients,
    SentEmailBuilder,
};
use acs_email::status::{EmailSendStatus, EmailSendStatusType};

fn sample_content() -> EmailContent {
    EmailContent {
        subject: Some("An exciting offer".to_string()),
        plain_text: Some("plain".to_string()),
        html: Some("<p>html</p>".to_string()),
    }
}

fn sample_recipients() -> Recipients {
    Recipients {
        to: Some(vec![EmailAddress {
            email: Some("to@example.com".to_string()),
            display_name: Some("To".to_string()),
        }]),
        cc: None,
        b_cc: None,
    }
}

#[test]
fn builder_assembles_a_full_message() {
    let email = SentEmailBuilder::new()
        .sender("from@example.com".to_string())
        .content(sample_content())
        .recipients(sample_recipients())
        .headers(vec![Header {
            name: Some("x-custom".to_string()),
            value: Some("1".to_string()),
        }])
        .attachments(vec![EmailAttachment {
            name: Some("a.txt".to_string()),
            attachment_type: Some("text/plain".to_string()),
            content_bytes_base64: Some("QUJD".to_string()),
        }])
        .reply_to(vec![EmailAddress {
            email: Some("reply@example.com".to_string()),
            display_name: None,
        }])
        .user_engagement_tracking_disabled(false)
        .build()
        .unwrap();
    assert_eq!(email.sender, "from@example.com");
    assert_eq!(email.content.subject.unwrap(), "An exciting offer");
    assert_eq!(
        email.recipients.to.unwrap()[0].email.as_deref(),
        Some("to@example.com")
    );
    assert_eq!(email.headers.unwrap().len(), 1);
    assert_eq!(email.attachments.unwrap().len(), 1);
    assert_eq!(email.reply_to.unwrap().len(), 1);
    assert_eq!(email.user_engagement_tracking_disabled, Some(false));
}

#[test]
fn builder_rejects_a_message_without_sender() {
    let r = SentEmailBuilder::new()
        .content(sample_content())
        .recipients(sample_recipients())
        .build();
    assert_eq!(r.unwrap_err(), BuildEmailError::MissingSender);
}

#[test]
fn builder_rejects_a_message_without_content() {
    let r = SentEmailBuilder::new()
        .sender("from@example.com".to_string())
        .recipients(sample_recipients())
        .build();
    assert_eq!(r.unwrap_err(), BuildEmailError::MissingContent);
}

#[test]
fn builder_rejects_a_message_without_recipients() {
    let r = SentEmailBuilder::new()
        .sender("from@example.com".to_string())
        .content(sample_content())
        .build();
    assert_eq!(r.unwrap_err(), BuildEmailError::MissingRecipients);
}

#[test]
fn builder_errors_spell_out_what_is_missing() {
    assert_eq!(BuildEmailError::MissingSender.message(), "Sender is required");
    assert_eq!(BuildEmailError::MissingContent.message(), "Content is required");
    assert_eq!(
        BuildEmailError::MissingRecipients.message(),
        "Recipients are required"
    );
}

#[test]
fn optional_parts_stay_unset_when_never_given() {
    let email = SentEmailBuilder::new()
        .sender("from@example.com".to_string())
        .content(sample_content())
        .recipients(sample_recipients())
        .build()
        .unwrap();
    assert!(email.headers.is_none());
    assert!(email.attachments.is_none());
    assert!(email.reply_to.is_none());
    assert!(email.user_engagement_tracking_disabled.is_none());
}

#[test]
fn status_wrapper_unwraps_to_its_state() {
    let s = EmailSendStatus(EmailSendStatusType::Succeeded);
    assert_eq!(s.to_type(), EmailSendStatusType::Succeeded);
}

#[test]
fn status_names_round_trip() {
    let all = [
        EmailSendStatusType::Unknown,
        EmailSendStatusType::Canceled,
        EmailSendStatusType::Failed,
        EmailSendStatusType::NotStarted,
        EmailSendStatusType::Running,
        EmailSendStatusType::Succeeded,
    ];
    for s in all {
        assert_eq!(EmailSendStatusType::from_name(&s.name()), s);
    }
    assert_eq!(
        EmailSendStatusType::from_name("SomethingElse"),
        EmailSendStatusType::Unknown
    );
    assert_eq!(EmailSendStatusType::from_name(""), EmailSendStatusType::Unknown);
}

#[test]
fn terminal_states_are_exactly_the_four() {
    assert!(EmailSendStatusType::Succeeded.is_terminal());
    assert!(EmailSendStatusType::Failed.is_terminal());
    assert!(EmailSendStatusType::Canceled.is_terminal());
    assert!(EmailSendStatusType::Unknown.is_terminal());
    assert!(!EmailSendStatusType::NotStarted.is_terminal());
    assert!(!EmailSendStatusType::Running.is_terminal());
}
