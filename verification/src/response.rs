//! What the engine hands to a presentation layer: response bodies with
//! their status, and the error that a failed request is answered with.

use crate::error::EngineError;
use vstd::prelude::*;
use vstd::string::StringExecFns;

verus! {

/// Status of a response that succeeded.
pub const STATUS_OK: u16 = 200;

/// Status of a response to a request for something that does not exist.
pub const STATUS_NOT_FOUND: u16 = 404;

/// Status of a response to a request that cannot be processed as it is.
pub const STATUS_UNPROCESSABLE: u16 = 422;

/// Status of a response that failed on the server's side.
pub const STATUS_INTERNAL_ERROR: u16 = 500;

/// Declares `serde_json::Error`, the failure of a serialization. The engine
/// only tells it from success; nothing is known of what is inside.
#[verifier::external_type_specification]
#[verifier::external_body]
pub struct ExJsonError(serde_json::Error);

/// Declares `askama::Error`, the failure of a template to render. The engine
/// only tells it from success; nothing is known of what is inside.
#[verifier::external_type_specification]
#[verifier::external_body]
pub struct ExTemplateError(askama::Error);

/// The canonical reason phrase of a status code, where it has one.
pub uninterp spec fn status_reason(code: u16) -> Option<Seq<char>>;

/// Calls rocket's `Status::reason` on the status with the given code.
/// Trusted: the result is the canonical reason phrase of the code, `None`
/// for a code that has none; which phrase belongs to which code is rocket's
/// table and is not restated here.
#[verifier::external_body]
fn reason_phrase(code: u16) -> (phrase: Option<&'static str>)
    ensures
        phrase_of(phrase) == status_reason(code),
{
    rocket::http::Status { code }.reason()
}

/// A reason phrase, where there is one, as the text it holds.
pub open spec fn phrase_of(reason: Option<&str>) -> Option<Seq<char>> {
    match reason {
        Some(phrase) => Some(phrase@),
        None => None,
    }
}

/// The phrase that stands for a status in a body made for it: its reason
/// phrase, or `Unknown`.
pub open spec fn phrase_text(reason: Option<Seq<char>>) -> Seq<char> {
    match reason {
        Some(text) => text,
        None => "Unknown"@,
    }
}

/// JSON body that reports a status by its phrase: `{ "status": "OK" }`.
pub open spec fn status_json(reason: Option<Seq<char>>) -> Seq<char> {
    "{ \"status\": \""@ + phrase_text(reason) + "\" }"@
}

/// HTML body that reports a status by its phrase: `<h1>OK</h1>`.
pub open spec fn status_html(reason: Option<Seq<char>>) -> Seq<char> {
    "<h1>"@ + phrase_text(reason) + "</h1>"@
}

/// A body with the status it is sent under.
#[derive(Debug)]
pub struct JsonResponse {
    pub status: u16,
    pub body: String,
}

/// A rendered page with the status it is sent under.
#[derive(Debug)]
pub struct TemplateResponse {
    pub status: u16,
    pub body: String,
}

fn phrase_or_unknown(reason: Option<&str>) -> (text: &str)
    ensures
        text@ == phrase_text(phrase_of(reason)),
{
    match reason {
        Some(phrase) => phrase,
        None => "Unknown",
    }
}

/// Writes the JSON body that reports a status with the given reason phrase.
pub fn status_json_body(reason: Option<&str>) -> (body: String)
    ensures
        body@ == status_json(phrase_of(reason)),
{
    let mut body = String::from_str("{ \"status\": \"");
    body.append(phrase_or_unknown(reason));
    body.append("\" }");
    assert(body@ =~= status_json(phrase_of(reason)));
    body
}

/// Writes the HTML body that reports a status with the given reason phrase.
pub fn status_html_body(reason: Option<&str>) -> (body: String)
    ensures
        body@ == status_html(phrase_of(reason)),
{
    let mut body = String::from_str("<h1>");
    body.append(phrase_or_unknown(reason));
    body.append("</h1>");
    assert(body@ =~= status_html(phrase_of(reason)));
    body
}

/// A JSON response under `status`: with `content` as its body, or, without
/// content, with a body that reports the status by its reason phrase.
pub fn json_response(status: u16, content: Option<String>) -> (response: JsonResponse)
    ensures
        response.status == status,
        response.body@ == match content {
            Some(body) => body@,
            None => status_json(status_reason(status)),
        },
{
    match content {
        Some(body) => JsonResponse { status, body },
        None => JsonResponse { status, body: status_json_body(reason_phrase(status)) },
    }
}

/// A page under `status`: what the template rendered to, or, where
/// rendering failed, a heading that reports the status by its reason
/// phrase.
pub fn template_response(
    status: u16,
    rendered: Result<String, askama::Error>,
) -> (response: TemplateResponse)
    ensures
        response.status == status,
        response.body@ == match rendered {
            Ok(page) => page@,
            Err(_) => status_html(status_reason(status)),
        },
{
    match rendered {
        Ok(page) => TemplateResponse { status, body: page },
        Err(_) => TemplateResponse { status, body: status_html_body(reason_phrase(status)) },
    }
}

/// The response to a request for serialized data: the data under status
/// 200, or, where serializing failed, the report of status 500. The status
/// that the caller proposes is not used.
pub fn serde_response(
    _status: u16,
    serialized: Result<String, serde_json::Error>,
) -> (response: JsonResponse)
    ensures
        match serialized {
            Ok(json) => response.status == STATUS_OK && response.body@ == json@,
            Err(_) => response.status == STATUS_INTERNAL_ERROR
                && response.body@ == status_json(status_reason(STATUS_INTERNAL_ERROR)),
        },
{
    match serialized {
        Ok(json) => json_response(STATUS_OK, Some(json)),
        Err(_) => json_response(STATUS_INTERNAL_ERROR, None),
    }
}

/// A body that is sent together with the place the client is to go next.
#[derive(Debug)]
pub struct RedirectResponder {
    pub content: String,
    pub redirect_uri: Option<String>,
}

impl RedirectResponder {
    /// Value of the redirect header: the place to go next, or the empty
    /// text where there is none.
    pub fn redirect_header(&self) -> (value: String)
        ensures
            value@ == match self.redirect_uri {
                Some(uri) => uri@,
                None => Seq::<char>::empty(),
            },
    {
        match &self.redirect_uri {
            Some(uri) => uri.clone(),
            None => String::new(),
        }
    }
}

/// The error that a failed request is answered with.
pub struct AppError {
    pub status: u16,
    pub message: String,
}

/// Text that starts the message of an error from the store.
pub open spec fn database_prefix() -> Seq<char> {
    "Database Error: "@
}

/// Text that starts the message of an error from reading or writing.
pub open spec fn io_prefix() -> Seq<char> {
    "IO Error: "@
}

/// Text that starts the message of an error from rendering a page.
pub open spec fn template_prefix() -> Seq<char> {
    "Error rendering template: "@
}

/// What a user is told of any error.
pub open spec fn user_notice() -> Seq<char> {
    "An Error Occurred, Please Try Again!"@
}

impl AppError {
    /// The error for a failure of the store, described by `cause`.
    pub fn database(cause: &str) -> (error: AppError)
        ensures
            error.status == STATUS_INTERNAL_ERROR,
            error.message@ == database_prefix() + cause@,
    {
        let mut message = String::from_str("Database Error: ");
        message.append(cause);
        AppError { status: STATUS_INTERNAL_ERROR, message }
    }

    /// The error for a failure to read or write, described by `cause`.
    pub fn io(cause: &str) -> (error: AppError)
        ensures
            error.status == STATUS_INTERNAL_ERROR,
            error.message@ == io_prefix() + cause@,
    {
        let mut message = String::from_str("IO Error: ");
        message.append(cause);
        AppError { status: STATUS_INTERNAL_ERROR, message }
    }

    /// The error for a failure to render a page, described by `cause`.
    pub fn template(cause: &str) -> (error: AppError)
        ensures
            error.status == STATUS_INTERNAL_ERROR,
            error.message@ == template_prefix() + cause@,
    {
        let mut message = String::from_str("Error rendering template: ");
        message.append(cause);
        AppError { status: STATUS_INTERNAL_ERROR, message }
    }

    /// The error that answers a request which the engine refused: an
    /// unknown monitor is reported as not found, an unacceptable definition
    /// as unprocessable.
    pub fn from_engine(error: EngineError) -> (answer: AppError)
        ensures
            answer.status == match error {
                EngineError::NotFound => STATUS_NOT_FOUND,
                EngineError::Validation => STATUS_UNPROCESSABLE,
            },
            answer.message@ == status_html(status_reason(answer.status)),
    {
        let status = match error {
            EngineError::NotFound => STATUS_NOT_FOUND,
            EngineError::Validation => STATUS_UNPROCESSABLE,
        };
        AppError { status, message: status_html_body(reason_phrase(status)) }
    }

    /// What a user is told of the error, whatever it was.
    pub fn to_string(&self) -> (text: String)
        ensures
            text@ == user_notice(),
    {
        String::from_str("An Error Occurred, Please Try Again!")
    }
}

/// Label of the control that pauses or resumes a monitor, after the state
/// was toggled: it offers the opposite of the state that the monitor is in
/// now.
pub fn pause_label(toggled: &Result<bool, EngineError>) -> (label: &'static str)
    ensures
        label@ == match toggled {
            Ok(true) => "Resume"@,
            Ok(false) => "Pause"@,
            Err(_) => "Error"@,
        },
{
    match toggled {
        Ok(true) => "Resume",
        Ok(false) => "Pause",
        Err(_) => "Error",
    }
}

} // verus!
