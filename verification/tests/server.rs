use phi_bitwarden_helper::json::Json;
use phi_bitwarden_helper::server::{advance, greet, tick, Phase, Step, Tick};

fn ack(response: &str) -> Json {
    Json::Object(vec![("challenge_response".to_string(), Json::Text(response.to_string()))])
}

fn greeting() -> Phase {
    greet("abc".to_string()).0
}

#[test]
fn the_challenge_is_sent_and_expected_back() {
    let (phase, frame) = greet("abc".to_string());
    assert_eq!(frame.text_at("challenge"), Some("abc"));
    assert!(matches!(&phase, Phase::Greeting { challenge } if challenge == "abc"));
    let step: Step<()> = advance(phase, Ok(ack("abc")));
    assert!(matches!(step, Step::Listen(Phase::Serving)));
}

#[test]
fn a_bad_ack_is_refused_quietly() {
    assert!(matches!(advance::<()>(greeting(), Ok(ack("abd"))), Step::Close));
    assert!(matches!(advance::<()>(greeting(), Ok(Json::Null)), Step::Close));
    let number = Json::Object(vec![("challenge_response".to_string(), Json::Count(1))]);
    assert!(matches!(advance::<()>(greeting(), Ok(number)), Step::Close));
}

#[test]
fn a_broken_greeting_is_an_error() {
    assert!(matches!(advance(greeting(), Err("eof")), Step::Fail("eof")));
}

#[test]
fn every_later_frame_is_a_request() {
    match advance::<()>(Phase::Serving, Ok(Json::Count(1))) {
        Step::Serve(Phase::Serving, request) => assert_eq!(request, Json::Count(1)),
        _ => panic!("not served"),
    }
    assert!(matches!(advance(Phase::Serving, Err("eof")), Step::Close));
}

#[test]
fn the_watch_exits_with_its_parent() {
    assert_eq!(tick(1, 100, 40), Tick::Exit);
    assert_eq!(tick(0, 100, 40), Tick::Exit);
    assert_eq!(tick(2, 100, 40), Tick::Enforce(60));
    assert_eq!(tick(2, 40, 100), Tick::Enforce(0));
}
