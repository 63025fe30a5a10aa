use rusty_bot::command::{Command, classify, query_of};
use rusty_bot::outcome::GenerationOutcome;
use rusty_bot::router::{Dispatch, Effect, Marker, conclude, dispatch, route};

#[test]
fn plain_text_produces_no_effects() {
    let effects = route("hello there", GenerationOutcome::NetworkFailure);
    assert!(effects.is_empty());
}

#[test]
fn plain_text_is_not_dispatched() {
    assert_eq!(dispatch("just chatting"), Dispatch::Ignore);
    assert_eq!(dispatch(""), Dispatch::Ignore);
    assert_eq!(dispatch(" !ping"), Dispatch::Ignore);
}

#[test]
fn ping_earns_single_pong_and_no_markers() {
    let effects = route("!ping", GenerationOutcome::NetworkFailure);
    assert_eq!(effects, vec![Effect::Post(String::from("Pong!"))]);
}

#[test]
fn ping_is_recognized_after_trimming() {
    let effects = route("!ping  ", GenerationOutcome::NetworkFailure);
    assert_eq!(effects, vec![Effect::Post(String::from("Pong!"))]);
}

#[test]
fn unknown_marked_command_is_ignored() {
    let effects = route("!help", GenerationOutcome::NetworkFailure);
    assert!(effects.is_empty());
    let effects = route(".something", GenerationOutcome::NetworkFailure);
    assert!(effects.is_empty());
}

#[test]
fn generation_query_is_prefix_stripped() {
    assert_eq!(classify(".chatgpt hello"), Command::GenerateQuery);
    assert_eq!(query_of(".chatgpt hello"), "hello");
}

#[test]
fn generation_query_keeps_extra_leading_whitespace() {
    assert_eq!(query_of(".chatgpt  spaced"), " spaced");
}

#[test]
fn classification_is_total() {
    assert_eq!(classify("!ping"), Command::Ping);
    assert_eq!(classify(".chatgpt x"), Command::GenerateQuery);
    assert_eq!(classify("!pong"), Command::Unrecognized);
    assert_eq!(classify("anything else"), Command::Unrecognized);
}

#[test]
fn unauthorized_outcome_posts_fixed_text_and_failure_marker() {
    let effects = route(".chatgpt hello", GenerationOutcome::Unauthorized);
    assert_eq!(
        effects,
        vec![
            Effect::React(Marker::InProgress),
            Effect::CallGenerate(String::from("hello")),
            Effect::Post(String::from("Unauthorized, refresh token?")),
            Effect::React(Marker::Failure),
        ]
    );
}

#[test]
fn server_error_outcome_posts_fixed_text() {
    let effects = route(".chatgpt hello", GenerationOutcome::ServerError);
    assert_eq!(
        effects,
        vec![
            Effect::React(Marker::InProgress),
            Effect::CallGenerate(String::from("hello")),
            Effect::Post(String::from("An error has occurred")),
            Effect::React(Marker::Failure),
        ]
    );
}

#[test]
fn network_failure_outcome_posts_fixed_text() {
    let effects = route(".chatgpt hello", GenerationOutcome::NetworkFailure);
    assert_eq!(
        effects,
        vec![
            Effect::React(Marker::InProgress),
            Effect::CallGenerate(String::from("hello")),
            Effect::Post(String::from("Unable to contact ChatGPT server.")),
            Effect::React(Marker::Failure),
        ]
    );
}

#[test]
fn success_outcome_posts_payload_between_markers() {
    let effects = route(".chatgpt hello", GenerationOutcome::Success(String::from("ok")));
    assert_eq!(
        effects,
        vec![
            Effect::React(Marker::InProgress),
            Effect::CallGenerate(String::from("hello")),
            Effect::Post(String::from("ok")),
            Effect::React(Marker::Success),
        ]
    );
}

#[test]
fn oversized_success_is_posted_as_two_segments() {
    let body: String = std::iter::repeat('x').take(2500).collect();
    let effects = route(".chatgpt hello", GenerationOutcome::Success(body.clone()));
    assert_eq!(effects.len(), 5);
    assert_eq!(effects[0], Effect::React(Marker::InProgress));
    match (&effects[2], &effects[3]) {
        (Effect::Post(a), Effect::Post(b)) => {
            assert_eq!(a.chars().count(), 1999);
            assert_eq!(b.chars().count(), 501);
            assert_eq!(format!("{}{}", a, b), body);
        }
        other => panic!("expected two posts, found {:?}", other),
    }
    assert_eq!(effects[4], Effect::React(Marker::Success));
}

#[test]
fn interleaved_routing_is_independent() {
    // two distinct messages handled in interleaved fashion produce the same
    // traces as when each is handled alone
    let alone_a = route(".chatgpt one", GenerationOutcome::Success(String::from("a")));
    let alone_b = route("!ping", GenerationOutcome::Unauthorized);
    let inter_a = route(".chatgpt one", GenerationOutcome::Success(String::from("a")));
    let inter_b = route("!ping", GenerationOutcome::Unauthorized);
    let again_a = route(".chatgpt one", GenerationOutcome::Success(String::from("a")));
    assert_eq!(alone_a, inter_a);
    assert_eq!(alone_a, again_a);
    assert_eq!(alone_b, inter_b);
    assert_eq!(inter_b, vec![Effect::Post(String::from("Pong!"))]);
}

#[test]
fn conclude_success_gives_success_marker() {
    let c = conclude(GenerationOutcome::Success(String::from("fine")));
    assert_eq!(c.segments, vec![String::from("fine")]);
    assert_eq!(c.marker, Marker::Success);
}

#[test]
fn conclude_failure_gives_failure_marker() {
    let c = conclude(GenerationOutcome::Unauthorized);
    assert_eq!(c.segments, vec![String::from("Unauthorized, refresh token?")]);
    assert_eq!(c.marker, Marker::Failure);
}
