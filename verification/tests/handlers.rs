use ppst_academy::handlers::contact::{
    conclude, create_error_response, export_contacts_json, export_contacts_ndjson, post_contact,
    rate_limit_response, respond, storage_error_response, success_response,
    validation_error_response, Decision, ResponseBody, SubmissionOutcome,
};
use ppst_academy::models::contact::ContactFormInput;
use ppst_academy::rate_limit::RateLimiter;
use ppst_academy::storage::file_store::{
    read_contacts_as_values, save_contact_inquiry, select_contact_files,
};
use ppst_academy::timestamp::Timestamp;

fn form(name: &str, phone: &str, message: &str) -> ContactFormInput {
    ContactFormInput {
        name: name.to_string(),
        phone: phone.to_string(),
        email: None,
        subject: None,
        message: message.to_string(),
    }
}

fn at(second: u8) -> Timestamp {
    Timestamp::new(2025, 1, 22, 12, 0, second, 0).unwrap()
}

fn listed(store: &[(String, String)]) -> usize {
    let names = select_contact_files(store.iter().map(|(n, _)| n.clone()).collect());
    let contents: Vec<String> = names
        .iter()
        .map(|n| store.iter().find(|(name, _)| name == n).unwrap().1.clone())
        .collect();
    read_contacts_as_values(&contents).unwrap().len()
}

fn submit(
    limiter: &mut RateLimiter,
    store: &mut Vec<(String, String)>,
    input: ContactFormInput,
    ip: &str,
    clock: u64,
    time: Timestamp,
) -> SubmissionOutcome {
    match post_contact(limiter, input, ip.to_string(), None, clock, time) {
        Decision::Reject(outcome) => outcome,
        Decision::Persist(inquiry) => match save_contact_inquiry(&inquiry) {
            Ok(file) => {
                store.push((file.path, file.contents));
                conclude(true)
            }
            Err(_) => conclude(false),
        },
    }
}

#[test]
fn a_valid_submission_is_accepted_and_stored() {
    let mut limiter = RateLimiter::new(30);
    let mut store: Vec<(String, String)> = Vec::new();
    let before = listed(&store);
    let outcome = submit(
        &mut limiter,
        &mut store,
        form("홍길동", "010-1234-5678", "안녕하세요"),
        "203.0.113.7",
        0,
        at(0),
    );
    assert!(matches!(outcome, SubmissionOutcome::Accepted));
    assert_eq!(store.len(), 1);
    assert!(store[0].0.starts_with("data/contacts/"));
    assert_eq!(store[0].0, "data/contacts/2025-01-22T12-00-00-000Z.json");
    assert_eq!(listed(&store), before + 1);
    let parsed: serde_json::Value = serde_json::from_str(&store[0].1).unwrap();
    assert_eq!(parsed["name"], "홍길동");
    assert_eq!(parsed["phone"], "01012345678");
    assert_eq!(parsed["message"], "안녕하세요");
    assert_eq!(parsed["ip_address"], "203.0.113.7");
}

#[test]
fn an_empty_name_is_invalid_and_nothing_is_stored() {
    let mut limiter = RateLimiter::new(30);
    let mut store: Vec<(String, String)> = Vec::new();
    let outcome =
        submit(&mut limiter, &mut store, form("", "010-1234-5678", "hi"), "203.0.113.7", 0, at(0));
    match outcome {
        SubmissionOutcome::Invalid(errors) => {
            assert!(errors.contains(&"이름을(를) 입력해주세요.".to_string()));
            assert_eq!(errors.len(), 1);
        }
        other => panic!("not invalid: {:?}", other),
    }
    assert!(store.is_empty());
}

#[test]
fn a_second_submission_within_the_window_is_rate_limited() {
    let mut limiter = RateLimiter::new(30);
    let mut store: Vec<(String, String)> = Vec::new();
    let first = submit(
        &mut limiter,
        &mut store,
        form("홍길동", "010-1234-5678", "첫 번째"),
        "203.0.113.7",
        1_000,
        at(1),
    );
    let second = submit(
        &mut limiter,
        &mut store,
        form("홍길동", "010-1234-5678", "두 번째"),
        "203.0.113.7",
        6_000,
        at(6),
    );
    assert!(matches!(first, SubmissionOutcome::Accepted));
    assert!(matches!(second, SubmissionOutcome::RateLimited));
    assert_eq!(store.len(), 1);
    let third = submit(
        &mut limiter,
        &mut store,
        form("임꺽정", "010-9876-5432", "다른 사람"),
        "203.0.113.8",
        6_000,
        at(7),
    );
    assert!(matches!(third, SubmissionOutcome::Accepted));
    assert_eq!(listed(&store), 2);
}

#[test]
fn an_invalid_submission_starts_the_window_too() {
    let mut limiter = RateLimiter::new(30);
    let mut store: Vec<(String, String)> = Vec::new();
    let first = submit(&mut limiter, &mut store, form("", "", ""), "203.0.113.7", 0, at(0));
    assert!(matches!(first, SubmissionOutcome::Invalid(_)));
    let second = submit(
        &mut limiter,
        &mut store,
        form("홍길동", "010-1234-5678", "hi"),
        "203.0.113.7",
        5_000,
        at(5),
    );
    assert!(matches!(second, SubmissionOutcome::RateLimited));
}

#[test]
fn the_inquiry_to_store_carries_client_and_browser() {
    let mut limiter = RateLimiter::new(30);
    let decision = post_contact(
        &mut limiter,
        form(" 홍길동 ", "010-1234-5678", "hi"),
        "203.0.113.7".to_string(),
        Some("Agent/1.0".to_string()),
        0,
        at(3),
    );
    match decision {
        Decision::Persist(inquiry) => {
            assert_eq!(inquiry.id, "2025-01-22T12-00-03-000Z");
            assert_eq!(inquiry.name, "홍길동");
            assert_eq!(inquiry.ip_address.as_deref(), Some("203.0.113.7"));
            assert_eq!(inquiry.user_agent.as_deref(), Some("Agent/1.0"));
        }
        other => panic!("not to be stored: {:?}", other),
    }
}

#[test]
fn storing_decides_between_accepted_and_failed() {
    assert!(matches!(conclude(true), SubmissionOutcome::Accepted));
    assert!(matches!(conclude(false), SubmissionOutcome::Failed));
}

#[test]
fn a_waiting_client_is_told_to_wait() {
    let response = rate_limit_response(true);
    assert_eq!(response.status, 429);
    match response.body {
        ResponseBody::ErrorFragment(errors) => assert_eq!(
            errors,
            vec!["Please wait 30 seconds before submitting another message.".to_string()]
        ),
        other => panic!("no fragment: {:?}", other),
    }
    let response = rate_limit_response(false);
    assert_eq!(response.status, 429);
    match response.body {
        ResponseBody::Text(text) => assert_eq!(
            text,
            "Rate limit exceeded. Please wait 30 seconds before submitting again."
        ),
        other => panic!("no text: {:?}", other),
    }
}

#[test]
fn broken_rules_are_listed_or_put_on_lines() {
    let errors = vec!["one".to_string(), "two".to_string()];
    let response = validation_error_response(true, errors.clone());
    assert_eq!(response.status, 400);
    assert!(matches!(response.body, ResponseBody::ErrorFragment(listed) if listed == errors));
    let response = validation_error_response(false, errors);
    assert_eq!(response.status, 400);
    assert!(matches!(response.body, ResponseBody::Text(text) if text == "one\ntwo"));
}

#[test]
fn a_failure_to_store_is_a_server_error() {
    let response = storage_error_response(false);
    assert_eq!(response.status, 500);
    assert!(matches!(
        response.body,
        ResponseBody::Text(text) if text == "Failed to save your message. Please try again later."
    ));
    let response = storage_error_response(true);
    assert_eq!(response.status, 500);
    assert!(matches!(
        response.body,
        ResponseBody::ErrorFragment(errors)
            if errors == vec!["Failed to save your message. Please try again later.".to_string()]
    ));
}

#[test]
fn success_is_a_fragment_or_the_way_home() {
    let response = success_response(true);
    assert_eq!(response.status, 200);
    assert!(matches!(response.body, ResponseBody::SuccessFragment));
    let response = success_response(false);
    assert_eq!(response.status, 303);
    assert!(matches!(response.body, ResponseBody::Redirect(to) if to == "/?success=true"));
}

#[test]
fn each_outcome_has_its_response() {
    assert_eq!(respond(SubmissionOutcome::Accepted, false).status, 303);
    assert_eq!(respond(SubmissionOutcome::Accepted, true).status, 200);
    assert_eq!(respond(SubmissionOutcome::RateLimited, false).status, 429);
    assert_eq!(respond(SubmissionOutcome::Failed, true).status, 500);
    let response = respond(SubmissionOutcome::Invalid(vec!["a".to_string()]), false);
    assert_eq!(response.status, 400);
    assert!(matches!(response.body, ResponseBody::Text(text) if text == "a"));
}

#[test]
fn an_error_response_keeps_its_status() {
    let response = create_error_response(true, 418, vec!["x".to_string()], "y".to_string());
    assert_eq!(response.status, 418);
    assert!(matches!(response.body, ResponseBody::ErrorFragment(e) if e == vec!["x".to_string()]));
    let response = create_error_response(false, 418, vec!["x".to_string()], "y".to_string());
    assert!(matches!(response.body, ResponseBody::Text(text) if text == "y"));
}

#[test]
fn exports_are_answered_with_their_media_type() {
    let contents = vec![r#"{"a":1}"#.to_string(), r#"{"b":2}"#.to_string()];
    let response = export_contacts_ndjson(&contents);
    assert_eq!(response.status, 200);
    assert_eq!(response.content_type.as_deref(), Some("application/x-ndjson"));
    assert_eq!(response.body, "{\"a\":1}\n{\"b\":2}");
    let response = export_contacts_json(&contents);
    assert_eq!(response.status, 200);
    assert_eq!(response.content_type.as_deref(), Some("application/json"));
    assert_eq!(response.body, "[\n  {\n    \"a\": 1\n  },\n  {\n    \"b\": 2\n  }\n]");
}

#[test]
fn a_failed_export_gives_nothing_away() {
    let contents = vec!["{".to_string()];
    for response in [export_contacts_ndjson(&contents), export_contacts_json(&contents)] {
        assert_eq!(response.status, 500);
        assert_eq!(response.content_type, None);
        assert_eq!(response.body, "Export error");
    }
}
