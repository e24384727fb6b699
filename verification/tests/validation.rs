use ppst_academy::models::contact::{
    error_messages, field_ko, sentence_word, ContactFormInput, ContactInquiry, ValidationError,
    EMAIL_MAX, MESSAGE_MAX, NAME_MAX, PHONE_MAX, SUBJECT_MAX,
};
use ppst_academy::timestamp::Timestamp;

fn at() -> Timestamp {
    Timestamp::new(2025, 1, 22, 12, 0, 0, 0).unwrap()
}

fn form(name: &str, phone: &str, message: &str) -> ContactFormInput {
    ContactFormInput {
        name: name.to_string(),
        phone: phone.to_string(),
        email: None,
        subject: None,
        message: message.to_string(),
    }
}

fn kinds(errors: &[ValidationError]) -> Vec<String> {
    errors
        .iter()
        .map(|e| match e {
            ValidationError::EmptyField { field } => format!("empty:{}", field),
            ValidationError::TooLong { field, max } => format!("long:{}:{}", field, max),
            ValidationError::InvalidFormat { field } => format!("format:{}", field),
        })
        .collect()
}

#[test]
fn a_well_formed_form_becomes_a_normalized_inquiry() {
    let input = ContactFormInput {
        name: "  홍길동 ".to_string(),
        phone: " 010-1234-5678 ".to_string(),
        email: Some("  Hong@Example.COM ".to_string()),
        subject: Some(" 상담 문의 ".to_string()),
        message: "\n안녕하세요\n".to_string(),
    };
    let inquiry = input
        .into_inquiry_at(Some("203.0.113.7".to_string()), Some("Agent/1.0".to_string()), at())
        .unwrap();
    assert_eq!(inquiry.id, "2025-01-22T12-00-00-000Z");
    assert_eq!(inquiry.submitted_at, at());
    assert_eq!(inquiry.name, "홍길동");
    assert_eq!(inquiry.phone, "01012345678");
    assert_eq!(inquiry.email.as_deref(), Some("hong@example.com"));
    assert_eq!(inquiry.subject.as_deref(), Some("상담 문의"));
    assert_eq!(inquiry.message, "안녕하세요");
    assert_eq!(inquiry.ip_address.as_deref(), Some("203.0.113.7"));
    assert_eq!(inquiry.user_agent.as_deref(), Some("Agent/1.0"));
}

#[test]
fn empty_optional_fields_count_as_absent() {
    let input = ContactFormInput {
        name: "홍길동".to_string(),
        phone: "01012345678".to_string(),
        email: Some("   ".to_string()),
        subject: Some("".to_string()),
        message: "안녕하세요".to_string(),
    };
    let inquiry = input.into_inquiry_at(None, None, at()).unwrap();
    assert_eq!(inquiry.email, None);
    assert_eq!(inquiry.subject, None);
    assert_eq!(inquiry.ip_address, None);
    assert_eq!(inquiry.user_agent, None);
}

#[test]
fn every_broken_rule_is_listed() {
    let errors = form("", "010-1234-5678", "").validate();
    assert_eq!(kinds(&errors), vec!["empty:name", "empty:message"]);
}

#[test]
fn broken_rules_come_in_the_order_of_the_fields() {
    let input = ContactFormInput {
        name: "가".repeat(NAME_MAX + 1),
        phone: "02-123-4567".to_string(),
        email: Some(format!("{}@", "a".repeat(EMAIL_MAX))),
        subject: Some("s".repeat(SUBJECT_MAX + 1)),
        message: "m".repeat(MESSAGE_MAX + 1),
    };
    let errors = input.validate();
    assert_eq!(
        kinds(&errors),
        vec![
            "long:name:100",
            "format:phone",
            "long:email:255",
            "format:email",
            "long:subject:200",
            "long:message:5000",
        ]
    );
    let rejected = input.clone().into_inquiry_at(None, None, at()).unwrap_err();
    assert_eq!(kinds(&rejected), kinds(&errors));
}

#[test]
fn bounds_are_counted_in_characters() {
    assert!(form(&"가".repeat(NAME_MAX), "01012345678", "hi").validate().is_empty());
    assert_eq!(
        kinds(&form(&"가".repeat(NAME_MAX + 1), "01012345678", "hi").validate()),
        vec!["long:name:100"]
    );
    assert!(form("a", "01012345678", &"나".repeat(MESSAGE_MAX)).validate().is_empty());
    assert_eq!(
        kinds(&form("a", "01012345678", &"나".repeat(MESSAGE_MAX + 1)).validate()),
        vec!["long:message:5000"]
    );
    let mut input = form("a", "01012345678", "hi");
    input.subject = Some("다".repeat(SUBJECT_MAX));
    assert!(input.validate().is_empty());
    input.email = Some(format!("{}@b.c", "a".repeat(EMAIL_MAX - 4)));
    assert!(input.validate().is_empty());
    input.email = Some(format!("{}@b.c", "a".repeat(EMAIL_MAX - 3)));
    assert_eq!(kinds(&input.validate()), vec!["long:email:255"]);
}

#[test]
fn white_space_around_a_field_is_not_counted() {
    let name = format!("  {}  ", "a".repeat(NAME_MAX));
    assert!(form(&name, "01012345678", "hi").validate().is_empty());
    assert_eq!(kinds(&form(" \t ", "01012345678", "hi").validate()), vec!["empty:name"]);
}

#[test]
fn a_mobile_number_is_held_to_length_and_format() {
    assert_eq!(kinds(&form("a", "  ", "hi").validate()), vec!["empty:phone"]);
    assert_eq!(kinds(&form("a", "010-1234", "hi").validate()), vec!["format:phone"]);
    let long = "0".repeat(PHONE_MAX + 1);
    assert_eq!(kinds(&form("a", &long, "hi").validate()), vec!["long:phone:20", "format:phone"]);
}

#[test]
fn a_mobile_number_must_be_in_the_format_as_stored_too() {
    let errors = form("a", "010-١٢٣٤-٥٦٧٨", "hi").validate();
    assert_eq!(kinds(&errors), vec!["format:phone"]);
}

#[test]
fn an_address_out_of_shape_is_reported() {
    let mut input = form("a", "01012345678", "hi");
    input.email = Some("not-an-address".to_string());
    assert_eq!(kinds(&input.validate()), vec!["format:email"]);
}

#[test]
fn new_reports_every_broken_rule() {
    let failed =
        ContactInquiry::new_at("".to_string(), "010-1234-5678".to_string(), "".to_string(), at())
            .unwrap_err();
    assert_eq!(kinds(&failed), vec!["empty:name", "empty:message"]);
    assert_eq!(
        error_messages(&failed),
        vec!["이름을(를) 입력해주세요.".to_string(), "내용을(를) 입력해주세요.".to_string()]
    );
    let failed =
        ContactInquiry::new_at("".to_string(), "".to_string(), "".to_string(), at()).unwrap_err();
    assert_eq!(kinds(&failed), vec!["empty:name", "empty:phone", "empty:message"]);
    let failed = ContactInquiry::new_at("a".to_string(), "x".to_string(), "".to_string(), at())
        .unwrap_err();
    assert_eq!(kinds(&failed), vec!["format:phone", "empty:message"]);
    let failed = ContactInquiry::new_at(
        "a".repeat(101),
        "01012345678".to_string(),
        "m".repeat(5001),
        at(),
    )
    .unwrap_err();
    assert_eq!(kinds(&failed), vec!["long:name:100", "long:message:5000"]);
    let failed =
        ContactInquiry::new("".to_string(), "010-1234-5678".to_string(), " ".to_string())
            .unwrap_err();
    assert_eq!(failed.len(), 2);
}

#[test]
fn new_reports_nothing_for_a_rule_that_is_kept() {
    let failed =
        ContactInquiry::new_at("a".to_string(), "01012345678".to_string(), "".to_string(), at())
            .unwrap_err();
    assert_eq!(kinds(&failed), vec!["empty:message"]);
    assert!(ContactInquiry::new_at(
        "a".to_string(),
        "01012345678".to_string(),
        "m".to_string(),
        at()
    )
    .is_ok());
}

#[test]
fn new_at_makes_the_inquiry_of_the_given_time() {
    let inquiry = ContactInquiry::new_at(
        " Test User ".to_string(),
        "010-1234-5678".to_string(),
        " This is a test message. ".to_string(),
        Timestamp::new(2025, 11, 22, 15, 50, 22, 729_296_000).unwrap(),
    )
    .unwrap();
    assert_eq!(inquiry.id, "2025-11-22T15-50-22-729Z");
    assert_eq!(inquiry.name, "Test User");
    assert_eq!(inquiry.phone, "01012345678");
    assert_eq!(inquiry.message, "This is a test message.");
    assert_eq!(inquiry.email, None);
    assert_eq!(inquiry.subject, None);
}

#[test]
fn new_stamps_the_inquiry_with_the_current_time() {
    let inquiry = ContactInquiry::new(
        "John Doe".to_string(),
        "010-1234-5678".to_string(),
        "Hello".to_string(),
    )
    .unwrap();
    assert!(inquiry.submitted_at.year >= 2024);
    assert_eq!(inquiry.id, inquiry.submitted_at.inquiry_id());
    let made = form("John Doe", "010-1234-5678", "Hello").into_inquiry(None, None).unwrap();
    assert_eq!(made.id, made.submitted_at.inquiry_id());
}

#[test]
fn an_accepted_inquiry_validates_to_itself() {
    let input = ContactFormInput {
        name: "  홍길동 ".to_string(),
        phone: " 010-1234-5678 ".to_string(),
        email: Some("  Hong@Example.COM ".to_string()),
        subject: Some(" 상담 ".to_string()),
        message: " 안녕하세요 ".to_string(),
    };
    let first = input.into_inquiry_at(None, None, at()).unwrap();
    let again = ContactFormInput {
        name: first.name.clone(),
        phone: first.phone.clone(),
        email: first.email.clone(),
        subject: first.subject.clone(),
        message: first.message.clone(),
    };
    let second = again.into_inquiry_at(None, None, at()).unwrap();
    assert_eq!(second.id, first.id);
    assert_eq!(second.name, first.name);
    assert_eq!(second.phone, first.phone);
    assert_eq!(second.email, first.email);
    assert_eq!(second.subject, first.subject);
    assert_eq!(second.message, first.message);
}

#[test]
fn each_error_has_its_sentence() {
    assert_eq!(
        ValidationError::EmptyField { field: "phone" }.to_string(),
        "휴대폰 번호을(를) 입력해주세요."
    );
    assert_eq!(
        ValidationError::EmptyField { field: "message" }.to_string(),
        "내용을(를) 입력해주세요."
    );
    assert_eq!(
        ValidationError::TooLong { field: "name", max: 100 }.to_string(),
        "이름은(는) 100자 이하여야 합니다."
    );
    assert_eq!(
        ValidationError::TooLong { field: "message", max: 5000 }.to_string(),
        "내용은(는) 5000자 이하여야 합니다."
    );
    assert_eq!(
        ValidationError::TooLong { field: "subject", max: 0 }.to_string(),
        "제목은(는) 0자 이하여야 합니다."
    );
    assert_eq!(
        ValidationError::InvalidFormat { field: "email" }.to_string(),
        "이메일의 형식이 올바르지 않습니다."
    );
    assert_eq!(
        ValidationError::EmptyField { field: "nickname" }.to_string(),
        "nickname을(를) 입력해주세요."
    );
}

#[test]
fn three_fields_have_korean_names() {
    assert_eq!(field_ko("name"), "이름");
    assert_eq!(field_ko("phone"), "휴대폰 번호");
    assert_eq!(field_ko("email"), "email");
    assert_eq!(field_ko("subject"), "subject");
    assert_eq!(field_ko("message"), "내용");
    assert_eq!(field_ko("other"), "other");
    assert_eq!(field_ko(""), "");
}

#[test]
fn sentences_name_every_field_of_the_form_in_korean() {
    assert_eq!(sentence_word("name"), "이름");
    assert_eq!(sentence_word("phone"), "휴대폰 번호");
    assert_eq!(sentence_word("email"), "이메일");
    assert_eq!(sentence_word("subject"), "제목");
    assert_eq!(sentence_word("message"), "내용");
    assert_eq!(sentence_word("other"), "other");
    assert_eq!(
        ValidationError::TooLong { field: "email", max: 255 }.to_string(),
        "이메일은(는) 255자 이하여야 합니다."
    );
}

#[test]
fn sentences_follow_the_errors_in_order() {
    let errors = form("", "010-1234-5678", "").validate();
    assert_eq!(
        error_messages(&errors),
        vec!["이름을(를) 입력해주세요.".to_string(), "내용을(를) 입력해주세요.".to_string()]
    );
    assert!(error_messages(&Vec::new()).is_empty());
}
