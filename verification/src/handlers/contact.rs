//! The decisions taken on a submitted form and on a request for an export.
//!
//! A submission is first held against the cool-down of its client, then
//! against the rules of the form. What passes both is to be stored, and the
//! answer depends on whether storing succeeded. The caller does the storing
//! and turns the answers into responses of its server.

use crate::models::contact::{
    error_messages, text_of, ContactFormInput, ContactInquiry, FormModel, InquiryModel, Violation,
};
use crate::rate_limit::{cooling_down, recorded, RateLimiter};
use crate::storage::file_store::{
    export, json_export, ndjson_export, ExportFormat, FileStoreError,
};
use crate::text::{join_lines, joined_lines, texts_of};
use crate::timestamp::Timestamp;
use vstd::prelude::*;
use vstd::string::StringExecFns;

verus! {

/// What is shown to a client that has to wait, as an entry of a list.
pub const RATE_LIMIT_NOTICE: &'static str =
    "Please wait 30 seconds before submitting another message.";

/// What is shown to a client that has to wait, as plain text.
pub const RATE_LIMIT_TEXT: &'static str =
    "Rate limit exceeded. Please wait 30 seconds before submitting again.";

/// What is shown where an inquiry could not be stored.
pub const STORAGE_FAILURE_TEXT: &'static str =
    "Failed to save your message. Please try again later.";

/// Where a client is sent after its inquiry was stored.
pub const SUCCESS_LOCATION: &'static str = "/?success=true";

/// What is shown where an export failed.
pub const EXPORT_FAILURE_TEXT: &'static str = "Export error";

pub const NDJSON_CONTENT_TYPE: &'static str = "application/x-ndjson";

pub const JSON_CONTENT_TYPE: &'static str = "application/json";

/// How a submission ended.
#[derive(Debug, Clone)]
pub enum SubmissionOutcome {
    /// The inquiry was stored.
    Accepted,
    /// The client has to wait.
    RateLimited,
    /// The form breaks rules; one sentence for each.
    Invalid(Vec<String>),
    /// The inquiry could not be stored.
    Failed,
}

/// How a submission ended, with each sentence by its characters.
pub enum OutcomeModel {
    Accepted,
    RateLimited,
    Invalid(Seq<Seq<char>>),
    Failed,
}

impl View for SubmissionOutcome {
    type V = OutcomeModel;

    open spec fn view(&self) -> OutcomeModel {
        match *self {
            SubmissionOutcome::Accepted => OutcomeModel::Accepted,
            SubmissionOutcome::RateLimited => OutcomeModel::RateLimited,
            SubmissionOutcome::Invalid(errors) => OutcomeModel::Invalid(texts_of(errors@)),
            SubmissionOutcome::Failed => OutcomeModel::Failed,
        }
    }
}

/// What is to happen to a submission that was received.
#[derive(Debug)]
pub enum Decision {
    /// It ends here, turned away.
    Reject(SubmissionOutcome),
    /// It is valid: the inquiry is to be stored.
    Persist(ContactInquiry),
}

/// What is to happen to a submission, with each text by its characters.
pub enum DecisionModel {
    Reject(OutcomeModel),
    Persist(InquiryModel),
}

impl View for Decision {
    type V = DecisionModel;

    open spec fn view(&self) -> DecisionModel {
        match *self {
            Decision::Reject(outcome) => DecisionModel::Reject(outcome@),
            Decision::Persist(inquiry) => DecisionModel::Persist(inquiry@),
        }
    }
}

/// The sentences for a list of broken rules, in order.
pub open spec fn messages_of(violations: Seq<Violation>) -> Seq<Seq<char>> {
    violations.map_values(|v: Violation| v.message())
}

/// What is to happen to the submission of `form`: a client that has to wait
/// is turned away; so is a form that breaks a rule, with the sentence for
/// each; any other becomes the inquiry to be stored.
pub open spec fn decision_for(
    limited: bool,
    form: FormModel,
    client_ip: Seq<char>,
    user_agent: Option<Seq<char>>,
    at: Timestamp,
) -> DecisionModel {
    if limited {
        DecisionModel::Reject(OutcomeModel::RateLimited)
    } else if !form.is_valid() {
        DecisionModel::Reject(OutcomeModel::Invalid(messages_of(form.violations())))
    } else {
        DecisionModel::Persist(form.accepted(Some(client_ip), user_agent, at))
    }
}

/// Decides on a submission received from `client_ip` when the monotonic clock
/// read `clock` and the calendar `at`. The client is held against its
/// cool-down first, and let through or not, the limiter remembers it as
/// [`recorded`] says; what happens to the submission is what [`decision_for`]
/// says.
pub fn post_contact(
    limiter: &mut RateLimiter,
    form: ContactFormInput,
    client_ip: String,
    user_agent: Option<String>,
    clock: u64,
    at: Timestamp,
) -> (decision: Decision)
    ensures
        final(limiter).window() == old(limiter).window(),
        final(limiter).entries() == recorded(
            old(limiter).entries(),
            old(limiter).window(),
            client_ip@,
            clock,
        ),
        decision@ == decision_for(
            cooling_down(old(limiter).entries(), old(limiter).window(), client_ip@, clock),
            form@,
            client_ip@,
            text_of(user_agent),
            at,
        ),
        decision matches Decision::Persist(inquiry) ==> inquiry@.is_well_formed(),
{
    if !limiter.check_and_record(client_ip.as_str(), clock) {
        return Decision::Reject(SubmissionOutcome::RateLimited);
    }
    match form.into_inquiry_at(Some(client_ip), user_agent, at) {
        Ok(inquiry) => Decision::Persist(inquiry),
        Err(errors) => {
            let messages = error_messages(&errors);
            assert(texts_of(messages@) =~= messages_of(form@.violations()));
            Decision::Reject(SubmissionOutcome::Invalid(messages))
        },
    }
}

/// How a valid submission ended: accepted where the inquiry was stored,
/// failed where it was not.
pub fn conclude(stored: bool) -> (outcome: SubmissionOutcome)
    ensures
        outcome@ == (if stored {
            OutcomeModel::Accepted
        } else {
            OutcomeModel::Failed
        }),
{
    if stored {
        SubmissionOutcome::Accepted
    } else {
        SubmissionOutcome::Failed
    }
}

/// What a response carries.
#[derive(Debug)]
pub enum ResponseBody {
    /// A fragment of the page that lists the sentences.
    ErrorFragment(Vec<String>),
    /// The fragment of the page that says the message was sent.
    SuccessFragment,
    /// Plain text.
    Text(String),
    /// Nothing but the place to go to next.
    Redirect(String),
}

/// The answer to a submission: an HTTP status and what goes with it.
#[derive(Debug)]
pub struct ContactResponse {
    pub status: u16,
    pub body: ResponseBody,
}

/// What a response carries, with each text by its characters.
pub enum BodyModel {
    ErrorFragment(Seq<Seq<char>>),
    SuccessFragment,
    Text(Seq<char>),
    Redirect(Seq<char>),
}

/// The answer to a submission, with each text by its characters.
pub struct ResponseModel {
    pub status: u16,
    pub body: BodyModel,
}

impl View for ContactResponse {
    type V = ResponseModel;

    open spec fn view(&self) -> ResponseModel {
        ResponseModel {
            status: self.status,
            body: match self.body {
                ResponseBody::ErrorFragment(errors) => BodyModel::ErrorFragment(texts_of(errors@)),
                ResponseBody::SuccessFragment => BodyModel::SuccessFragment,
                ResponseBody::Text(text) => BodyModel::Text(text@),
                ResponseBody::Redirect(location) => BodyModel::Redirect(location@),
            },
        }
    }
}

/// The answer that turns a submission away: the list for a client that
/// renders fragments, the plain text for any other.
pub open spec fn error_response(
    enhanced: bool,
    status: u16,
    errors: Seq<Seq<char>>,
    plain_text: Seq<char>,
) -> ResponseModel {
    ResponseModel {
        status,
        body: if enhanced {
            BodyModel::ErrorFragment(errors)
        } else {
            BodyModel::Text(plain_text)
        },
    }
}

/// The answer to a submission that ended in `outcome`.
pub open spec fn response_for(outcome: OutcomeModel, enhanced: bool) -> ResponseModel {
    match outcome {
        OutcomeModel::Accepted => if enhanced {
            ResponseModel { status: 200, body: BodyModel::SuccessFragment }
        } else {
            ResponseModel { status: 303, body: BodyModel::Redirect(SUCCESS_LOCATION@) }
        },
        OutcomeModel::RateLimited => error_response(
            enhanced,
            429,
            seq![RATE_LIMIT_NOTICE@],
            RATE_LIMIT_TEXT@,
        ),
        OutcomeModel::Invalid(errors) => error_response(enhanced, 400, errors, joined_lines(errors)),
        OutcomeModel::Failed => error_response(
            enhanced,
            500,
            seq![STORAGE_FAILURE_TEXT@],
            STORAGE_FAILURE_TEXT@,
        ),
    }
}

/// The answer that turns a submission away.
pub fn create_error_response(
    enhanced: bool,
    status: u16,
    errors: Vec<String>,
    plain_text: String,
) -> (response: ContactResponse)
    ensures
        response@ == error_response(enhanced, status, texts_of(errors@), plain_text@),
{
    if enhanced {
        ContactResponse { status, body: ResponseBody::ErrorFragment(errors) }
    } else {
        ContactResponse { status, body: ResponseBody::Text(plain_text) }
    }
}

fn single(text: &str) -> (list: Vec<String>)
    ensures
        texts_of(list@) == seq![text@],
{
    let mut list: Vec<String> = Vec::new();
    list.push(String::from_str(text));
    assert(texts_of(list@) =~= seq![text@]);
    list
}

/// The answer to a client that has to wait.
pub fn rate_limit_response(enhanced: bool) -> (response: ContactResponse)
    ensures
        response@ == response_for(OutcomeModel::RateLimited, enhanced),
{
    create_error_response(
        enhanced,
        429,
        single(RATE_LIMIT_NOTICE),
        String::from_str(RATE_LIMIT_TEXT),
    )
}

/// The answer to a form that breaks rules: the sentences as a list, or as
/// plain text with one sentence to a line.
pub fn validation_error_response(enhanced: bool, errors: Vec<String>) -> (response:
    ContactResponse)
    ensures
        response@ == response_for(OutcomeModel::Invalid(texts_of(errors@)), enhanced),
{
    let plain_text = join_lines(&errors);
    create_error_response(enhanced, 400, errors, plain_text)
}

/// The answer where the inquiry could not be stored.
pub fn storage_error_response(enhanced: bool) -> (response: ContactResponse)
    ensures
        response@ == response_for(OutcomeModel::Failed, enhanced),
{
    create_error_response(
        enhanced,
        500,
        single(STORAGE_FAILURE_TEXT),
        String::from_str(STORAGE_FAILURE_TEXT),
    )
}

/// The answer where the inquiry was stored: the fragment for a client that
/// renders fragments, and the way back to the home page for any other.
pub fn success_response(enhanced: bool) -> (response: ContactResponse)
    ensures
        response@ == response_for(OutcomeModel::Accepted, enhanced),
{
    if enhanced {
        ContactResponse { status: 200, body: ResponseBody::SuccessFragment }
    } else {
        ContactResponse {
            status: 303,
            body: ResponseBody::Redirect(String::from_str(SUCCESS_LOCATION)),
        }
    }
}

/// The answer to a submission that ended in `outcome`.
pub fn respond(outcome: SubmissionOutcome, enhanced: bool) -> (response: ContactResponse)
    ensures
        response@ == response_for(outcome@, enhanced),
{
    match outcome {
        SubmissionOutcome::Accepted => success_response(enhanced),
        SubmissionOutcome::RateLimited => rate_limit_response(enhanced),
        SubmissionOutcome::Invalid(errors) => validation_error_response(enhanced, errors),
        SubmissionOutcome::Failed => storage_error_response(enhanced),
    }
}

/// The answer to a request for an export.
#[derive(Debug)]
pub struct ExportResponse {
    pub status: u16,
    /// The media type of the body, where the export succeeded.
    pub content_type: Option<String>,
    pub body: String,
}

/// The answer to a request for an export, with each text by its characters.
pub struct ExportModel {
    pub status: u16,
    pub content_type: Option<Seq<char>>,
    pub body: Seq<char>,
}

impl View for ExportResponse {
    type V = ExportModel;

    open spec fn view(&self) -> ExportModel {
        ExportModel {
            status: self.status,
            content_type: text_of(self.content_type),
            body: self.body@,
        }
    }
}

/// The answer that carries an export, or says that there is none.
pub open spec fn export_response(content_type: Seq<char>, body: Option<Seq<char>>) -> ExportModel {
    match body {
        Some(text) => ExportModel { status: 200, content_type: Some(content_type), body: text },
        None => ExportModel { status: 500, content_type: None, body: EXPORT_FAILURE_TEXT@ },
    }
}

fn export_reply(content_type: &str, body: Result<String, FileStoreError>) -> (response:
    ExportResponse)
    ensures
        response@ == export_response(
            content_type@,
            match body {
                Ok(text) => Some(text@),
                Err(_) => None,
            },
        ),
{
    match body {
        Ok(text) => ExportResponse {
            status: 200,
            content_type: Some(String::from_str(content_type)),
            body: text,
        },
        Err(_) => ExportResponse {
            status: 500,
            content_type: None,
            body: String::from_str(EXPORT_FAILURE_TEXT),
        },
    }
}

/// Answers a request for the inquiries as newline-delimited JSON. `contents`
/// are the texts of the stored files, in the order of their names.
pub fn export_contacts_ndjson(contents: &Vec<String>) -> (response: ExportResponse)
    ensures
        response@ == export_response(NDJSON_CONTENT_TYPE@, ndjson_export(texts_of(contents@))),
{
    export_reply(NDJSON_CONTENT_TYPE, export(contents, ExportFormat::Ndjson))
}

/// Answers a request for the inquiries as one indented JSON array.
/// `contents` are the texts of the stored files, in the order of their names.
pub fn export_contacts_json(contents: &Vec<String>) -> (response: ExportResponse)
    ensures
        response@ == export_response(JSON_CONTENT_TYPE@, json_export(texts_of(contents@))),
{
    export_reply(JSON_CONTENT_TYPE, export(contents, ExportFormat::JsonArrayPretty))
}

} // verus!
