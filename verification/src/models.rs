//! The email message model and the builder that assembles one for sending.

use vstd::prelude::*;
use vstd::string::StringExecFns;

use crate::errors::ErrorDetail;
use crate::status::EmailSendStatus;

verus! {

/// One address with an optional display name.
#[derive(Debug, Clone)]
pub struct EmailAddress {
    pub email: Option<String>,
    pub display_name: Option<String>,
}

/// The recipient lists of a message.
#[derive(Debug, Clone)]
pub struct Recipients {
    pub to: Option<Vec<EmailAddress>>,
    pub cc: Option<Vec<EmailAddress>>,
    pub b_cc: Option<Vec<EmailAddress>>,
}

/// Subject and body text of a message.
#[derive(Debug, Clone)]
pub struct EmailContent {
    pub subject: Option<String>,
    pub plain_text: Option<String>,
    pub html: Option<String>,
}

/// One custom header carried with a message.
#[derive(Debug, Clone)]
pub struct Header {
    pub name: Option<String>,
    pub value: Option<String>,
}

/// One attachment: a name, a content type, and base64-encoded bytes.
#[derive(Debug, Clone)]
pub struct EmailAttachment {
    pub name: Option<String>,
    pub attachment_type: Option<String>,
    pub content_bytes_base64: Option<String>,
}

/// A message ready for submission.
#[derive(Debug, Clone)]
pub struct SentEmail {
    pub headers: Option<Vec<Header>>,
    pub sender: String,
    pub content: EmailContent,
    pub recipients: Recipients,
    pub attachments: Option<Vec<EmailAttachment>>,
    pub reply_to: Option<Vec<EmailAddress>>,
    pub user_engagement_tracking_disabled: Option<bool>,
}

/// The body of a success response from the send or status endpoint.
#[derive(Debug, Clone)]
pub struct SentEmailResponse {
    pub id: Option<String>,
    pub status: Option<EmailSendStatus>,
    pub error: Option<ErrorDetail>,
}

/// The host and access key a connection string resolves to.
#[derive(Debug, Clone)]
pub struct EndPointParams {
    pub host_name: String,
    pub access_key: String,
}

/// What a builder could not supply when asked for the finished message.
#[derive(Clone, Copy, Debug, PartialEq, Eq, Structural)]
pub enum BuildEmailError {
    MissingSender,
    MissingContent,
    MissingRecipients,
}

impl BuildEmailError {
    /// The human-readable account of the missing piece.
    pub fn message(&self) -> (r: String)
        ensures
            r@ == spec_build_email_error_message(*self),
    {
        match self {
            BuildEmailError::MissingSender => String::from_str("Sender is required"),
            BuildEmailError::MissingContent => String::from_str("Content is required"),
            BuildEmailError::MissingRecipients => String::from_str("Recipients are required"),
        }
    }
}

/// The message text of each builder error.
pub open spec fn spec_build_email_error_message(e: BuildEmailError) -> Seq<char> {
    match e {
        BuildEmailError::MissingSender => "Sender is required"@,
        BuildEmailError::MissingContent => "Content is required"@,
        BuildEmailError::MissingRecipients => "Recipients are required"@,
    }
}

/// Assembles a [`SentEmail`] step by step; `build` refuses a message whose
/// sender, content, or recipients were never given.
#[derive(Debug)]
pub struct SentEmailBuilder {
    pub headers: Option<Vec<Header>>,
    pub sender: Option<String>,
    pub content: Option<EmailContent>,
    pub recipients: Option<Recipients>,
    pub attachments: Option<Vec<EmailAttachment>>,
    pub reply_to: Option<Vec<EmailAddress>>,
    pub user_engagement_tracking_disabled: Option<bool>,
}

impl SentEmailBuilder {
    /// A builder with nothing set.
    pub fn new() -> (r: Self)
        ensures
            r.headers is None,
            r.sender is None,
            r.content is None,
            r.recipients is None,
            r.attachments is None,
            r.reply_to is None,
            r.user_engagement_tracking_disabled is None,
    {
        SentEmailBuilder {
            headers: None,
            sender: None,
            content: None,
            recipients: None,
            attachments: None,
            reply_to: None,
            user_engagement_tracking_disabled: None,
        }
    }

    /// Set the custom headers.
    pub fn headers(self, headers: Vec<Header>) -> (r: Self)
        ensures
            r == (SentEmailBuilder { headers: Some(headers), ..self }),
    {
        SentEmailBuilder { headers: Some(headers), ..self }
    }

    /// Set the sender address.
    pub fn sender(self, sender: String) -> (r: Self)
        ensures
            r == (SentEmailBuilder { sender: Some(sender), ..self }),
    {
        SentEmailBuilder { sender: Some(sender), ..self }
    }

    /// Set the message content.
    pub fn content(self, content: EmailContent) -> (r: Self)
        ensures
            r == (SentEmailBuilder { content: Some(content), ..self }),
    {
        SentEmailBuilder { content: Some(content), ..self }
    }

    /// Set the recipient lists.
    pub fn recipients(self, recipients: Recipients) -> (r: Self)
        ensures
            r == (SentEmailBuilder { recipients: Some(recipients), ..self }),
    {
        SentEmailBuilder { recipients: Some(recipients), ..self }
    }

    /// Set the attachments.
    pub fn attachments(self, attachments: Vec<EmailAttachment>) -> (r: Self)
        ensures
            r == (SentEmailBuilder { attachments: Some(attachments), ..self }),
    {
        SentEmailBuilder { attachments: Some(attachments), ..self }
    }

    /// Set the reply-to addresses.
    pub fn reply_to(self, reply_to: Vec<EmailAddress>) -> (r: Self)
        ensures
            r == (SentEmailBuilder { reply_to: Some(reply_to), ..self }),
    {
        SentEmailBuilder { reply_to: Some(reply_to), ..self }
    }

    /// Set whether engagement tracking is disabled.
    pub fn user_engagement_tracking_disabled(self, user_engagement_tracking_disabled: bool) -> (r:
        Self)
        ensures
            r == (SentEmailBuilder {
                user_engagement_tracking_disabled: Some(user_engagement_tracking_disabled),
                ..self
            }),
    {
        SentEmailBuilder {
            user_engagement_tracking_disabled: Some(user_engagement_tracking_disabled),
            ..self
        }
    }

    /// The finished message: succeeds exactly when sender, content, and
    /// recipients were all given, and copies every field over unchanged.
    pub fn build(self) -> (r: Result<SentEmail, BuildEmailError>)
        ensures
            r is Ok <==> (self.sender is Some && self.content is Some && self.recipients is Some),
            r matches Ok(e) ==> {
                &&& Some(e.sender) == self.sender
                &&& Some(e.content) == self.content
                &&& Some(e.recipients) == self.recipients
                &&& e.headers == self.headers
                &&& e.attachments == self.attachments
                &&& e.reply_to == self.reply_to
                &&& e.user_engagement_tracking_disabled == self.user_engagement_tracking_disabled
            },
            r matches Err(err) ==> err == (if self.sender is None {
                BuildEmailError::MissingSender
            } else if self.content is None {
                BuildEmailError::MissingContent
            } else {
                BuildEmailError::MissingRecipients
            }),
    {
        let sender = match self.sender {
            Some(s) => s,
            None => {
                return Err(BuildEmailError::MissingSender);
            },
        };
        let content = match self.content {
            Some(c) => c,
            None => {
                return Err(BuildEmailError::MissingContent);
            },
        };
        let recipients = match self.recipients {
            Some(rs) => rs,
            None => {
                return Err(BuildEmailError::MissingRecipients);
            },
        };
        Ok(
            SentEmail {
                headers: self.headers,
                sender,
                content,
                recipients,
                attachments: self.attachments,
                reply_to: self.reply_to,
                user_engagement_tracking_disabled: self.user_engagement_tracking_disabled,
            },
        )
    }
}

} // verus!
