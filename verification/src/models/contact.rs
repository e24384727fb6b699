//! The contact inquiry and the rules a submitted form is held to.
//!
//! A form carries a name, a mobile number and a message, which are required,
//! and an e-mail address and a subject, which are not. Every field is trimmed
//! before it is judged, and an optional field that is empty after trimming
//! counts as absent. Each rule that a field breaks gives one
//! [`ValidationError`]; a form that breaks none becomes a [`ContactInquiry`].

use crate::formats::{email_format, is_valid_email, is_valid_phone, phone_format};
use crate::models::contact_proofs::lemma_accepted_inquiry_is_normal;
use crate::text::{
    ascii_digits, ascii_lowercase, decimal, keep_ascii_digits, push_decimal, text_eq,
    to_ascii_lowercase, trim, trimmed,
};
use crate::timestamp::Timestamp;
use vstd::prelude::*;
use vstd::string::{StrSliceExecFns, StringExecFns};

verus! {

/// The most characters a name may have.
pub const NAME_MAX: usize = 100;

/// The most characters a mobile number may have as it was typed.
pub const PHONE_MAX: usize = 20;

/// The most characters an e-mail address may have.
pub const EMAIL_MAX: usize = 255;

/// The most characters a subject may have.
pub const SUBJECT_MAX: usize = 200;

/// The most characters a message may have.
pub const MESSAGE_MAX: usize = 5000;

/// The names of the fields of the form, as errors carry them.
pub const FIELD_NAME: &'static str = "name";

pub const FIELD_PHONE: &'static str = "phone";

pub const FIELD_EMAIL: &'static str = "email";

pub const FIELD_SUBJECT: &'static str = "subject";

pub const FIELD_MESSAGE: &'static str = "message";

/// One rule that a field of a form breaks.
#[derive(Debug, Clone)]
pub enum ValidationError {
    /// A required field is empty.
    EmptyField { field: &'static str },
    /// A field has more than `max` characters.
    TooLong { field: &'static str, max: usize },
    /// A field is not in the format asked of it.
    InvalidFormat { field: &'static str },
}

/// What a [`ValidationError`] says, with the field by its characters.
pub enum Violation {
    EmptyField { field: Seq<char> },
    TooLong { field: Seq<char>, max: nat },
    InvalidFormat { field: Seq<char> },
}

impl View for ValidationError {
    type V = Violation;

    open spec fn view(&self) -> Violation {
        match *self {
            ValidationError::EmptyField { field } => Violation::EmptyField { field: field@ },
            ValidationError::TooLong { field, max } => Violation::TooLong {
                field: field@,
                max: max as nat,
            },
            ValidationError::InvalidFormat { field } => Violation::InvalidFormat { field: field@ },
        }
    }
}

/// The views of a list of errors, in order.
pub open spec fn violations_of(errors: Seq<ValidationError>) -> Seq<Violation> {
    errors.map_values(|e: ValidationError| e@)
}

/// The Korean word for a field: for the name, the mobile number and the
/// message. Any other text stands for itself.
pub open spec fn field_label(field: Seq<char>) -> Seq<char> {
    if field == FIELD_NAME@ {
        "이름"@
    } else if field == FIELD_PHONE@ {
        "휴대폰 번호"@
    } else if field == FIELD_MESSAGE@ {
        "내용"@
    } else {
        field
    }
}

/// The Korean word for a field.
pub fn field_ko<'a>(field: &'a str) -> (label: &'a str)
    ensures
        label@ == field_label(field@),
{
    if text_eq(field, FIELD_NAME) {
        "이름"
    } else if text_eq(field, FIELD_PHONE) {
        "휴대폰 번호"
    } else if text_eq(field, FIELD_MESSAGE) {
        "내용"
    } else {
        field
    }
}

/// The word by which a sentence names a field: the Korean word for the
/// e-mail address and the subject too, and for any other field its
/// [`field_label`].
pub open spec fn sentence_label(field: Seq<char>) -> Seq<char> {
    if field == FIELD_EMAIL@ {
        "이메일"@
    } else if field == FIELD_SUBJECT@ {
        "제목"@
    } else {
        field_label(field)
    }
}

/// The word by which a sentence names a field.
pub fn sentence_word<'a>(field: &'a str) -> (label: &'a str)
    ensures
        label@ == sentence_label(field@),
{
    if text_eq(field, FIELD_EMAIL) {
        "이메일"
    } else if text_eq(field, FIELD_SUBJECT) {
        "제목"
    } else {
        field_ko(field)
    }
}

impl Violation {
    /// The sentence shown to the visitor.
    pub open spec fn message(self) -> Seq<char> {
        match self {
            Violation::EmptyField { field } => sentence_label(field) + "을(를) 입력해주세요."@,
            Violation::TooLong { field, max } => sentence_label(field) + "은(는) "@ + decimal(max)
                + "자 이하여야 합니다."@,
            Violation::InvalidFormat { field } => sentence_label(field)
                + "의 형식이 올바르지 않습니다."@,
        }
    }
}

impl ValidationError {
    /// The sentence shown to the visitor.
    pub fn to_string(&self) -> (text: String)
        ensures
            text@ == self@.message(),
    {
        match self {
            ValidationError::EmptyField { field } => {
                let mut text = String::from_str(sentence_word(field));
                text.append("을(를) 입력해주세요.");
                text
            },
            ValidationError::TooLong { field, max } => {
                let mut text = String::from_str(sentence_word(field));
                text.append("은(는) ");
                push_decimal(&mut text, *max as u64);
                text.append("자 이하여야 합니다.");
                text
            },
            ValidationError::InvalidFormat { field } => {
                let mut text = String::from_str(sentence_word(field));
                text.append("의 형식이 올바르지 않습니다.");
                text
            },
        }
    }
}

/// The sentences for a list of errors, in order.
pub fn error_messages(errors: &Vec<ValidationError>) -> (messages: Vec<String>)
    ensures
        messages@.len() == errors@.len(),
        forall|k: int| 0 <= k < errors@.len() ==> (#[trigger] messages@[k])@ == errors@[k]@.message(),
{
    let mut messages: Vec<String> = Vec::new();
    let mut i: usize = 0;
    while i < errors.len()
        invariant
            i <= errors.len(),
            messages@.len() == i,
            forall|k: int| 0 <= k < i ==> (#[trigger] messages@[k])@ == errors@[k]@.message(),
        decreases errors.len() - i,
    {
        messages.push(errors[i].to_string());
        i += 1;
    }
    messages
}

/// The characters of an optional text.
pub open spec fn text_of(value: Option<String>) -> Option<Seq<char>> {
    match value {
        Some(s) => Some(s@),
        None => None,
    }
}

/// A form as the visitor sent it.
#[derive(Debug, Clone)]
pub struct ContactFormInput {
    pub name: String,
    pub phone: String,
    pub email: Option<String>,
    pub subject: Option<String>,
    pub message: String,
}

/// A form, by the characters of its fields.
pub struct FormModel {
    pub name: Seq<char>,
    pub phone: Seq<char>,
    pub email: Option<Seq<char>>,
    pub subject: Option<Seq<char>>,
    pub message: Seq<char>,
}

impl View for ContactFormInput {
    type V = FormModel;

    open spec fn view(&self) -> FormModel {
        FormModel {
            name: self.name@,
            phone: self.phone@,
            email: text_of(self.email),
            subject: text_of(self.subject),
            message: self.message@,
        }
    }
}

/// An optional text after trimming: absent where nothing is left.
pub open spec fn normalized_optional(value: Option<Seq<char>>) -> Option<Seq<char>> {
    match value {
        Some(v) => if trimmed(v).len() > 0 {
            Some(trimmed(v))
        } else {
            None
        },
        None => None,
    }
}

/// An e-mail address as it is stored: trimmed and in lower case.
pub open spec fn normalized_email(value: Option<Seq<char>>) -> Option<Seq<char>> {
    match normalized_optional(value) {
        Some(v) => Some(ascii_lowercase(v)),
        None => None,
    }
}

/// A mobile number as it is stored: its ASCII digits.
pub open spec fn normalized_phone(value: Seq<char>) -> Seq<char> {
    ascii_digits(trimmed(value))
}

/// A trimmed mobile number that is accepted: it is in the format as typed,
/// and so are its digits, which are what is stored.
pub open spec fn phone_accepted(v: Seq<char>) -> bool {
    &&& phone_format(v)
    &&& ascii_digits(v).len() > 0
    &&& phone_format(ascii_digits(v))
}

pub open spec fn length_violations(field: Seq<char>, v: Seq<char>, max: nat) -> Seq<Violation> {
    if v.len() > max {
        seq![Violation::TooLong { field, max }]
    } else {
        Seq::empty()
    }
}

pub open spec fn format_violations(field: Seq<char>, in_format: bool) -> Seq<Violation> {
    if in_format {
        Seq::empty()
    } else {
        seq![Violation::InvalidFormat { field }]
    }
}

/// The rules that a required text breaks: it is empty, or it is too long.
pub open spec fn required_violations(field: Seq<char>, value: Seq<char>, max: nat) -> Seq<
    Violation,
> {
    if trimmed(value).len() == 0 {
        seq![Violation::EmptyField { field }]
    } else {
        length_violations(field, trimmed(value), max)
    }
}

/// The rules that a mobile number breaks: it is empty, or it is too long, not
/// in the format, or both.
pub open spec fn phone_violations(value: Seq<char>) -> Seq<Violation> {
    if trimmed(value).len() == 0 {
        seq![Violation::EmptyField { field: FIELD_PHONE@ }]
    } else {
        length_violations(FIELD_PHONE@, trimmed(value), PHONE_MAX as nat) + format_violations(
            FIELD_PHONE@,
            phone_accepted(trimmed(value)),
        )
    }
}

/// The rules that an e-mail address breaks, where there is one: it is too
/// long, not of the shape `local@domain.tld`, or both.
pub open spec fn email_violations(value: Option<Seq<char>>) -> Seq<Violation> {
    match normalized_optional(value) {
        Some(v) => length_violations(FIELD_EMAIL@, v, EMAIL_MAX as nat) + format_violations(
            FIELD_EMAIL@,
            email_format(v),
        ),
        None => Seq::empty(),
    }
}

/// The rule that a subject breaks, where there is one: it is too long.
pub open spec fn subject_violations(value: Option<Seq<char>>) -> Seq<Violation> {
    match normalized_optional(value) {
        Some(v) => length_violations(FIELD_SUBJECT@, v, SUBJECT_MAX as nat),
        None => Seq::empty(),
    }
}

impl FormModel {
    /// Every rule that the form breaks, field by field in the order name,
    /// mobile number, e-mail address, subject, message.
    pub open spec fn violations(self) -> Seq<Violation> {
        required_violations(FIELD_NAME@, self.name, NAME_MAX as nat) + phone_violations(self.phone)
            + email_violations(self.email) + subject_violations(self.subject)
            + required_violations(FIELD_MESSAGE@, self.message, MESSAGE_MAX as nat)
    }

    /// The form breaks no rule.
    pub open spec fn is_valid(self) -> bool {
        self.violations().len() == 0
    }

    /// The inquiry that the form becomes when it is accepted at `at`.
    pub open spec fn accepted(
        self,
        ip_address: Option<Seq<char>>,
        user_agent: Option<Seq<char>>,
        at: Timestamp,
    ) -> InquiryModel {
        InquiryModel {
            id: at.id_text(),
            submitted_at: at,
            name: trimmed(self.name),
            email: normalized_email(self.email),
            phone: normalized_phone(self.phone),
            subject: normalized_optional(self.subject),
            message: trimmed(self.message),
            user_agent,
            ip_address,
        }
    }

    /// The form with a name, a mobile number and a message only.
    pub open spec fn basic(name: Seq<char>, phone: Seq<char>, message: Seq<char>) -> FormModel {
        FormModel { name, phone, email: None, subject: None, message }
    }
}

/// One accepted submission, as it is stored.
#[derive(Debug, Clone)]
pub struct ContactInquiry {
    pub id: String,
    pub submitted_at: Timestamp,
    pub name: String,
    pub email: Option<String>,
    pub phone: String,
    pub subject: Option<String>,
    pub message: String,
    pub user_agent: Option<String>,
    pub ip_address: Option<String>,
}

/// An inquiry, by the characters of its fields.
pub struct InquiryModel {
    pub id: Seq<char>,
    pub submitted_at: Timestamp,
    pub name: Seq<char>,
    pub email: Option<Seq<char>>,
    pub phone: Seq<char>,
    pub subject: Option<Seq<char>>,
    pub message: Seq<char>,
    pub user_agent: Option<Seq<char>>,
    pub ip_address: Option<Seq<char>>,
}

impl InquiryModel {
    /// The fields of the inquiry that came from the form.
    pub open spec fn form(self) -> FormModel {
        FormModel {
            name: self.name,
            phone: self.phone,
            email: self.email,
            subject: self.subject,
            message: self.message,
        }
    }

    /// The identifier is the one derived from the time of the inquiry.
    pub open spec fn id_is_derived(self) -> bool {
        self.id == self.submitted_at.id_text()
    }

    /// The inquiry is one that an accepted form gives: its identifier is
    /// derived from its time, its fields break no rule of the form, and they
    /// are in normal form, so that accepting them again gives the inquiry
    /// itself.
    pub open spec fn is_well_formed(self) -> bool {
        &&& self.id_is_derived()
        &&& self.form().is_valid()
        &&& self.form().accepted(self.ip_address, self.user_agent, self.submitted_at) == self
    }
}

impl View for ContactInquiry {
    type V = InquiryModel;

    open spec fn view(&self) -> InquiryModel {
        InquiryModel {
            id: self.id@,
            submitted_at: self.submitted_at,
            name: self.name@,
            email: text_of(self.email),
            phone: self.phone@,
            subject: text_of(self.subject),
            message: self.message@,
            user_agent: text_of(self.user_agent),
            ip_address: text_of(self.ip_address),
        }
    }
}

proof fn lemma_violations_push(errors: Seq<ValidationError>, e: ValidationError)
    ensures
        violations_of(errors.push(e)) == violations_of(errors).push(e@),
{
    assert(violations_of(errors.push(e)) =~= violations_of(errors).push(e@));
}

fn check_length(field: &'static str, text: &str, max: usize, errors: &mut Vec<ValidationError>)
    ensures
        violations_of(final(errors)@) == violations_of(old(errors)@) + length_violations(
            field@,
            text@,
            max as nat,
        ),
{
    if text.unicode_len() > max {
        proof {
            lemma_violations_push(errors@, ValidationError::TooLong { field, max });
        }
        errors.push(ValidationError::TooLong { field, max });
        assert(violations_of(errors@) =~= violations_of(old(errors)@) + length_violations(
            field@,
            text@,
            max as nat,
        ));
    } else {
        assert(violations_of(errors@) =~= violations_of(old(errors)@) + length_violations(
            field@,
            text@,
            max as nat,
        ));
    }
}

fn check_format(field: &'static str, in_format: bool, errors: &mut Vec<ValidationError>)
    ensures
        violations_of(final(errors)@) == violations_of(old(errors)@) + format_violations(
            field@,
            in_format,
        ),
{
    if !in_format {
        proof {
            lemma_violations_push(errors@, ValidationError::InvalidFormat { field });
        }
        errors.push(ValidationError::InvalidFormat { field });
    }
    assert(violations_of(errors@) =~= violations_of(old(errors)@) + format_violations(
        field@,
        in_format,
    ));
}

fn examine_required(
    field: &'static str,
    value: &str,
    max: usize,
    errors: &mut Vec<ValidationError>,
) -> (text: String)
    ensures
        text@ == trimmed(value@),
        violations_of(final(errors)@) == violations_of(old(errors)@) + required_violations(
            field@,
            value@,
            max as nat,
        ),
{
    let text = trim(value);
    if text.as_str().unicode_len() == 0 {
        proof {
            lemma_violations_push(errors@, ValidationError::EmptyField { field });
        }
        errors.push(ValidationError::EmptyField { field });
        assert(violations_of(errors@) =~= violations_of(old(errors)@) + required_violations(
            field@,
            value@,
            max as nat,
        ));
    } else {
        check_length(field, text.as_str(), max, errors);
    }
    text
}

fn examine_phone(value: &str, errors: &mut Vec<ValidationError>) -> (digits: String)
    ensures
        digits@ == normalized_phone(value@),
        violations_of(final(errors)@) == violations_of(old(errors)@) + phone_violations(value@),
{
    let text = trim(value);
    let digits = keep_ascii_digits(text.as_str());
    if text.as_str().unicode_len() == 0 {
        proof {
            lemma_violations_push(errors@, ValidationError::EmptyField { field: FIELD_PHONE });
        }
        errors.push(ValidationError::EmptyField { field: FIELD_PHONE });
        assert(violations_of(errors@) =~= violations_of(old(errors)@) + phone_violations(value@));
    } else {
        check_length(FIELD_PHONE, text.as_str(), PHONE_MAX, errors);
        let ghost middle = violations_of(errors@);
        let in_format = is_valid_phone(text.as_str()) && digits.as_str().unicode_len() > 0
            && is_valid_phone(digits.as_str());
        check_format(FIELD_PHONE, in_format, errors);
        assert(violations_of(errors@) =~= violations_of(old(errors)@) + phone_violations(value@));
    }
    digits
}

fn trim_optional(value: &Option<String>) -> (text: Option<String>)
    ensures
        text_of(text) == normalized_optional(text_of(*value)),
{
    match value {
        Some(v) => {
            let text = trim(v.as_str());
            if text.as_str().unicode_len() > 0 {
                Some(text)
            } else {
                None
            }
        },
        None => None,
    }
}

fn examine_email(value: &Option<String>, errors: &mut Vec<ValidationError>) -> (email: Option<
    String,
>)
    ensures
        text_of(email) == normalized_email(text_of(*value)),
        violations_of(final(errors)@) == violations_of(old(errors)@) + email_violations(
            text_of(*value),
        ),
{
    match trim_optional(value) {
        Some(text) => {
            check_length(FIELD_EMAIL, text.as_str(), EMAIL_MAX, errors);
            check_format(FIELD_EMAIL, is_valid_email(text.as_str()), errors);
            assert(violations_of(errors@) =~= violations_of(old(errors)@) + email_violations(
                text_of(*value),
            ));
            Some(to_ascii_lowercase(text.as_str()))
        },
        None => {
            assert(violations_of(errors@) =~= violations_of(old(errors)@) + email_violations(
                text_of(*value),
            ));
            None
        },
    }
}

fn examine_subject(value: &Option<String>, errors: &mut Vec<ValidationError>) -> (subject: Option<
    String,
>)
    ensures
        text_of(subject) == normalized_optional(text_of(*value)),
        violations_of(final(errors)@) == violations_of(old(errors)@) + subject_violations(
            text_of(*value),
        ),
{
    let subject = trim_optional(value);
    match &subject {
        Some(text) => {
            check_length(FIELD_SUBJECT, text.as_str(), SUBJECT_MAX, errors);
        },
        None => {
            assert(violations_of(errors@) =~= violations_of(old(errors)@) + subject_violations(
                text_of(*value),
            ));
        },
    }
    subject
}

impl ContactFormInput {
    /// Every rule that the form breaks, in the order of the fields.
    pub fn validate(&self) -> (errors: Vec<ValidationError>)
        ensures
            violations_of(errors@) == self@.violations(),
    {
        let mut errors: Vec<ValidationError> = Vec::new();
        assert(violations_of(errors@) =~= Seq::<Violation>::empty());
        let _ = examine_required(FIELD_NAME, self.name.as_str(), NAME_MAX, &mut errors);
        let _ = examine_phone(self.phone.as_str(), &mut errors);
        let _ = examine_email(&self.email, &mut errors);
        let _ = examine_subject(&self.subject, &mut errors);
        let _ = examine_required(FIELD_MESSAGE, self.message.as_str(), MESSAGE_MAX, &mut errors);
        assert(violations_of(errors@) =~= self@.violations());
        errors
    }

    /// The inquiry that the form becomes at the time `at`, from the client
    /// `ip_address` with the browser `user_agent`; or every rule that the form
    /// breaks, where it breaks one.
    pub fn into_inquiry_at(
        self,
        ip_address: Option<String>,
        user_agent: Option<String>,
        at: Timestamp,
    ) -> (made: Result<ContactInquiry, Vec<ValidationError>>)
        ensures
            match made {
                Ok(inquiry) => self@.is_valid() && inquiry@ == self@.accepted(
                    text_of(ip_address),
                    text_of(user_agent),
                    at,
                ) && inquiry@.is_well_formed(),
                Err(errors) => !self@.is_valid() && violations_of(errors@) == self@.violations(),
            },
    {
        proof {
            if self@.is_valid() {
                lemma_accepted_inquiry_is_normal(self@, text_of(ip_address), text_of(user_agent), at);
            }
        }
        let mut errors: Vec<ValidationError> = Vec::new();
        assert(violations_of(errors@) =~= Seq::<Violation>::empty());
        let name = examine_required(FIELD_NAME, self.name.as_str(), NAME_MAX, &mut errors);
        let phone = examine_phone(self.phone.as_str(), &mut errors);
        let email = examine_email(&self.email, &mut errors);
        let subject = examine_subject(&self.subject, &mut errors);
        let message = examine_required(
            FIELD_MESSAGE,
            self.message.as_str(),
            MESSAGE_MAX,
            &mut errors,
        );
        assert(violations_of(errors@) =~= self@.violations());
        if errors.len() > 0 {
            return Err(errors);
        }
        Ok(
            ContactInquiry {
                id: at.inquiry_id(),
                submitted_at: at,
                name,
                email,
                phone,
                subject,
                message,
                user_agent,
                ip_address,
            },
        )
    }

    /// As [`ContactFormInput::into_inquiry_at`], at the current time.
    pub fn into_inquiry(self, ip_address: Option<String>, user_agent: Option<String>) -> (made:
        Result<ContactInquiry, Vec<ValidationError>>)
        ensures
            match made {
                Ok(inquiry) => self@.is_valid() && inquiry.submitted_at.wf() && inquiry@
                    == self@.accepted(
                    text_of(ip_address),
                    text_of(user_agent),
                    inquiry.submitted_at,
                ) && inquiry@.is_well_formed(),
                Err(errors) => !self@.is_valid() && violations_of(errors@) == self@.violations(),
            },
    {
        self.into_inquiry_at(ip_address, user_agent, Timestamp::now())
    }
}

impl ContactInquiry {
    /// The inquiry with the given name, mobile number and message, accepted at
    /// the time `at`; or every rule that they break, in the order of the
    /// fields.
    pub fn new_at(name: String, phone: String, message: String, at: Timestamp) -> (made: Result<
        ContactInquiry,
        Vec<ValidationError>,
    >)
        ensures
            match made {
                Ok(inquiry) => FormModel::basic(name@, phone@, message@).is_valid() && inquiry@
                    == FormModel::basic(name@, phone@, message@).accepted(None, None, at)
                    && inquiry@.is_well_formed(),
                Err(errors) => !FormModel::basic(name@, phone@, message@).is_valid()
                    && violations_of(errors@) == FormModel::basic(
                    name@,
                    phone@,
                    message@,
                ).violations(),
            },
    {
        let form = ContactFormInput { name, phone, email: None, subject: None, message };
        form.into_inquiry_at(None, None, at)
    }

    /// The inquiry with the given name, mobile number and message, accepted
    /// now; or every rule that they break, in the order of the fields.
    pub fn new(name: String, phone: String, message: String) -> (made: Result<
        ContactInquiry,
        Vec<ValidationError>,
    >)
        ensures
            match made {
                Ok(inquiry) => FormModel::basic(name@, phone@, message@).is_valid()
                    && inquiry.submitted_at.wf() && inquiry@ == FormModel::basic(
                    name@,
                    phone@,
                    message@,
                ).accepted(None, None, inquiry.submitted_at) && inquiry@.is_well_formed(),
                Err(errors) => !FormModel::basic(name@, phone@, message@).is_valid()
                    && violations_of(errors@) == FormModel::basic(
                    name@,
                    phone@,
                    message@,
                ).violations(),
            },
    {
        ContactInquiry::new_at(name, phone, message, Timestamp::now())
    }
}

} // verus!
