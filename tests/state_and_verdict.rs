use onboarding::state::{OnboardState, UnknownState};
use onboarding::verdict::{decimal_text, Verdict};

#[test]
fn states_round_trip_through_text() {
    for st in [
        OnboardState::Pending,
        OnboardState::Claimed,
        OnboardState::InQuiz,
        OnboardState::Approved,
        OnboardState::Denied,
        OnboardState::Completed,
    ] {
        assert_eq!(OnboardState::parse(st.as_str()), Ok(st));
        assert_eq!(st.to_string(), st.as_str());
    }
    assert_eq!(OnboardState::InQuiz.as_str(), "in_quiz");
}

#[test]
fn unknown_state_text_is_an_error() {
    assert_eq!(OnboardState::parse("archived"), Err(UnknownState));
    assert_eq!(OnboardState::parse("Pending"), Err(UnknownState));
    assert_eq!(OnboardState::parse(""), Err(UnknownState));
}

#[test]
fn verdict_json_is_escaped() {
    let v = Verdict::denial("he said \"no\"".to_string(), -5);
    assert_eq!(v.to_json(), "{\"action\":\"deny\",\"reason\":\"he said \\\"no\\\"\",\"end_review_time\":-5}");
}

#[test]
fn verdict_json_parses_back() {
    let v = Verdict::denial("line one\nline two".to_string(), 1_700_000_123);
    let parsed: serde_json::Value = serde_json::from_str(&v.to_json()).unwrap();
    assert_eq!(parsed["action"], "deny");
    assert_eq!(parsed["reason"], "line one\nline two");
    assert_eq!(parsed["end_review_time"], 1_700_000_123i64);
}

#[test]
fn verdict_json_escapes_controls() {
    let v = Verdict::denial("a\tb\u{1}c\\".to_string(), 0);
    assert_eq!(v.to_json(), "{\"action\":\"deny\",\"reason\":\"a\\tb\\u0001c\\\\\",\"end_review_time\":0}");
}

#[test]
fn decimal_text_edges() {
    assert_eq!(decimal_text(0), "0");
    assert_eq!(decimal_text(7), "7");
    assert_eq!(decimal_text(-10), "-10");
    assert_eq!(decimal_text(i64::MAX), "9223372036854775807");
    assert_eq!(decimal_text(i64::MIN), "-9223372036854775808");
}
