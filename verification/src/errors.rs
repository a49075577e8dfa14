//! The error shapes the service returns and helpers to build them locally.

use vstd::prelude::*;
use vstd::string::StringExecFns;

verus! {

/// Extra information the service attaches to an error.
#[derive(Debug, Clone)]
pub struct ErrorAdditionalInfo {
    pub info: Option<String>,
    pub info_type: Option<String>,
}

/// Mathematical image of [`ErrorAdditionalInfo`].
pub ghost struct ErrorAdditionalInfoView {
    pub info: Option<Seq<char>>,
    pub info_type: Option<Seq<char>>,
}

impl View for ErrorAdditionalInfo {
    type V = ErrorAdditionalInfoView;

    open spec fn view(&self) -> ErrorAdditionalInfoView {
        ErrorAdditionalInfoView { info: self.info.deep_view(), info_type: self.info_type.deep_view() }
    }
}

impl DeepView for ErrorAdditionalInfo {
    type V = ErrorAdditionalInfoView;

    open spec fn deep_view(&self) -> ErrorAdditionalInfoView {
        self.view()
    }
}

/// The details of one error, as the service's error body carries them.
#[derive(Debug, Clone)]
pub struct ErrorDetail {
    pub additional_info: Option<Vec<ErrorAdditionalInfo>>,
    pub code: Option<String>,
    pub message: Option<String>,
    pub target: Option<String>,
}

/// Mathematical image of [`ErrorDetail`].
pub ghost struct ErrorDetailView {
    pub additional_info: Option<Seq<ErrorAdditionalInfoView>>,
    pub code: Option<Seq<char>>,
    pub message: Option<Seq<char>>,
    pub target: Option<Seq<char>>,
}

impl View for ErrorDetail {
    type V = ErrorDetailView;

    open spec fn view(&self) -> ErrorDetailView {
        ErrorDetailView {
            additional_info: self.additional_info.deep_view(),
            code: self.code.deep_view(),
            message: self.message.deep_view(),
            target: self.target.deep_view(),
        }
    }
}

impl DeepView for ErrorDetail {
    type V = ErrorDetailView;

    open spec fn deep_view(&self) -> ErrorDetailView {
        self.view()
    }
}

impl ErrorDetail {
    /// A detail that carries a message and nothing else.
    pub fn with_message(message: String) -> (r: Self)
        ensures
            r@ == spec_message_only_detail(message@),
    {
        ErrorDetail { additional_info: None, code: None, message: Some(message), target: None }
    }
}

/// The error body of a non-success response.
#[derive(Debug, Clone)]
pub struct ErrorResponse {
    pub error: Option<ErrorDetail>,
}

/// Mathematical image of [`ErrorResponse`].
pub ghost struct ErrorResponseView {
    pub error: Option<ErrorDetailView>,
}

impl View for ErrorResponse {
    type V = ErrorResponseView;

    open spec fn view(&self) -> ErrorResponseView {
        ErrorResponseView { error: self.error.deep_view() }
    }
}

impl DeepView for ErrorResponse {
    type V = ErrorResponseView;

    open spec fn deep_view(&self) -> ErrorResponseView {
        self.view()
    }
}

/// A detail holding only the given message.
pub open spec fn spec_message_only_detail(msg: Seq<char>) -> ErrorDetailView {
    ErrorDetailView { additional_info: None, code: None, message: Some(msg), target: None }
}

/// A response holding only a detail with the given message.
pub open spec fn spec_message_only_error(msg: Seq<char>) -> ErrorResponseView {
    ErrorResponseView { error: Some(spec_message_only_detail(msg)) }
}

/// The message of a locally produced error: a context and a cause joined by
/// a colon.
pub open spec fn spec_context_message(message: Seq<char>, error: Seq<char>) -> Seq<char> {
    message + ": "@ + error
}

/// An error response whose message is `message` and `error` joined by a
/// colon, mirroring how the service's own bodies read.
pub fn to_error_response(message: &str, error: &str) -> (r: ErrorResponse)
    ensures
        r@ == spec_message_only_error(spec_context_message(message@, error@)),
{
    let mut m = String::from_str(message);
    m.append(": ");
    m.append(error);
    ErrorResponse {
        error: Some(ErrorDetail { additional_info: None, code: None, message: Some(m), target: None }),
    }
}

/// The message reported when a success body lacks its `status` field.
pub open spec fn spec_missing_status_message() -> Seq<char> {
    spec_context_message("Missing status in response"@, ""@)
}

/// The message reported when a success body lacks its `id` field.
pub open spec fn spec_missing_id_message() -> Seq<char> {
    spec_context_message("Missing ID in response"@, ""@)
}

/// The error returned when a success body lacks its `status` field.
pub fn create_missing_status_error() -> (r: ErrorResponse)
    ensures
        r@ == spec_message_only_error(spec_missing_status_message()),
{
    to_error_response("Missing status in response", "")
}

/// The error returned when a success body lacks its `id` field.
pub fn create_missing_id_error() -> (r: ErrorResponse)
    ensures
        r@ == spec_message_only_error(spec_missing_id_message()),
{
    to_error_response("Missing ID in response", "")
}

} // verus!
