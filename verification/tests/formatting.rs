use rusty_bot::outcome::{GenerationOutcome, classify_response};
use rusty_bot::request::request_body;

#[test]
fn short_payload_is_one_unchanged_segment() {
    let segments = rusty_bot::formatter::format(String::from("hello"));
    assert_eq!(segments, vec![String::from("hello")]);
}

#[test]
fn payload_just_under_the_ceiling_is_unchanged() {
    let text: String = std::iter::repeat('y').take(1999).collect();
    let segments = rusty_bot::formatter::format(text.clone());
    assert_eq!(segments, vec![text]);
}

#[test]
fn payload_of_2500_characters_splits_into_1999_and_501() {
    let text: String = ('a'..='z').cycle().take(2500).collect();
    let segments = rusty_bot::formatter::format(text.clone());
    assert_eq!(segments.len(), 2);
    assert_eq!(segments[0].chars().count(), 1999);
    assert_eq!(segments[1].chars().count(), 501);
    assert_eq!(format!("{}{}", segments[0], segments[1]), text);
}

#[test]
fn payload_at_the_ceiling_splits() {
    let text: String = std::iter::repeat('z').take(2000).collect();
    let segments = rusty_bot::formatter::format(text.clone());
    assert_eq!(segments.len(), 2);
    assert_eq!(segments[0].chars().count(), 1999);
    assert_eq!(segments[1].chars().count(), 1);
    assert_eq!(format!("{}{}", segments[0], segments[1]), text);
}

#[test]
fn status_200_is_success_with_body() {
    let o = classify_response(Some((200, String::from("generated text"))));
    assert_eq!(o, GenerationOutcome::Success(String::from("generated text")));
}

#[test]
fn status_401_is_unauthorized() {
    let o = classify_response(Some((401, String::from("denied"))));
    assert_eq!(o, GenerationOutcome::Unauthorized);
}

#[test]
fn other_statuses_are_server_errors() {
    assert_eq!(
        classify_response(Some((500, String::new()))),
        GenerationOutcome::ServerError
    );
    assert_eq!(
        classify_response(Some((404, String::new()))),
        GenerationOutcome::ServerError
    );
}

#[test]
fn missing_response_is_network_failure() {
    assert_eq!(classify_response(None), GenerationOutcome::NetworkFailure);
}

#[test]
fn failure_texts_are_fixed() {
    assert_eq!(
        GenerationOutcome::Unauthorized.failure_text(),
        "Unauthorized, refresh token?"
    );
    assert_eq!(
        GenerationOutcome::ServerError.failure_text(),
        "An error has occurred"
    );
    assert_eq!(
        GenerationOutcome::NetworkFailure.failure_text(),
        "Unable to contact ChatGPT server."
    );
}

#[test]
fn request_body_wraps_the_query() {
    assert_eq!(request_body("hello"), "{\"query\":\"hello\"}");
    assert_eq!(request_body(""), "{\"query\":\"\"}");
}

#[test]
fn request_body_escapes_json_metacharacters() {
    assert_eq!(
        request_body("say \"hi\" to C:\\temp"),
        "{\"query\":\"say \\\"hi\\\" to C:\\\\temp\"}"
    );
}

#[test]
fn request_body_escapes_control_characters() {
    assert_eq!(
        request_body("a\nb\rc\td"),
        "{\"query\":\"a\\nb\\rc\\td\"}"
    );
    assert_eq!(request_body("x\u{1}y\u{1f}z"), "{\"query\":\"x\\u0001y\\u001fz\"}");
}

#[test]
fn request_body_keeps_other_characters_verbatim() {
    assert_eq!(request_body("héllo ⚡"), "{\"query\":\"héllo ⚡\"}");
}
