use onboarding::deny::{
    commit, deny, deny_effects, deny_now, perform_deny, quiz_url, stored_write_outcome, ActionError, DenyConfig,
    Effect, DENY_ACKNOWLEDGMENT, MIN_REASON_CHARS, QUIZ_MESSAGE_DELAY_SECS, REMOVAL_AUDIT_REASON,
};
use onboarding::record::{Conflict, OnboardRecord};
use onboarding::reply::{reply_for, Reply};
use onboarding::state::OnboardState;
use onboarding::verdict::Verdict;

const TEST_BOT: u64 = 42;
const PANEL: &str = "https://panel.example";

fn config() -> DenyConfig {
    DenyConfig { test_bot: TEST_BOT, panel_url: PANEL.to_string() }
}

fn record_in(state: OnboardState) -> OnboardRecord {
    let mut r = OnboardRecord::new(7, "abc".to_string());
    r.state = state;
    r
}

fn reason_of(len: usize) -> String {
    "r".repeat(len)
}

fn unchanged(a: &OnboardRecord, b: &OnboardRecord) -> bool {
    let same_verdict = match (&a.verdict, &b.verdict) {
        (None, None) => true,
        (Some(x), Some(y)) => x.action == y.action && x.reason == y.reason && x.decided_at == y.decided_at,
        _ => false,
    };
    a.candidate_id == b.candidate_id && a.onboarding_id == b.onboarding_id && a.state == b.state && same_verdict
}

#[test]
fn pending_record_is_told_to_start() {
    let mut rec = record_in(OnboardState::Pending);
    let before = rec.clone();
    let r = perform_deny(&mut rec, TEST_BOT, reason_of(40), 100, &config());
    assert_eq!(r.err(), Some(ActionError::NotStarted));
    assert!(unchanged(&before, &rec));
    match reply_for(ActionError::NotStarted, "!", PANEL, "abc") {
        Reply::Error(m) => assert_eq!(m, "Please run ``!queue`` to get started!"),
        other => panic!("unexpected reply {:?}", other),
    }
}

#[test]
fn wrong_target_is_refused() {
    let mut rec = record_in(OnboardState::Claimed);
    let before = rec.clone();
    let r = perform_deny(&mut rec, 99, reason_of(40), 100, &config());
    assert_eq!(r.err(), Some(ActionError::WrongTarget));
    assert!(unchanged(&before, &rec));
    assert!(rec.verdict.is_none());
    match reply_for(ActionError::WrongTarget, "!", PANEL, "abc") {
        Reply::Warning { title, description } => {
            assert_eq!(title, "Invalid Bot");
            assert_eq!(description, "You can only deny the test bot!");
        }
        other => panic!("unexpected reply {:?}", other),
    }
}

#[test]
fn valid_denial_moves_to_quiz() {
    let mut rec = record_in(OnboardState::Claimed);
    let reason = reason_of(35);
    let effects = perform_deny(&mut rec, TEST_BOT, reason.clone(), 1_700_000_000, &config()).unwrap();
    assert_eq!(rec.state, OnboardState::InQuiz);
    let v = rec.verdict.clone().unwrap();
    assert_eq!(v.action, "deny");
    assert_eq!(v.reason, reason);
    assert_eq!(v.decided_at, 1_700_000_000);
    assert_eq!(effects.len(), 4);
    let removals = effects.iter().filter(|e| matches!(e, Effect::RemoveParticipant { .. })).count();
    assert_eq!(removals, 1);
    match &effects[0] {
        Effect::RemoveParticipant { participant, audit_reason } => {
            assert_eq!(*participant, TEST_BOT);
            assert_eq!(audit_reason, REMOVAL_AUDIT_REASON);
        }
        other => panic!("unexpected effect {:?}", other),
    }
    match &effects[1] {
        Effect::Say(m) => assert_eq!(m, DENY_ACKNOWLEDGMENT),
        other => panic!("unexpected effect {:?}", other),
    }
    match &effects[2] {
        Effect::Wait(s) => assert_eq!(*s, QUIZ_MESSAGE_DELAY_SECS),
        other => panic!("unexpected effect {:?}", other),
    }
    match &effects[3] {
        Effect::Say(m) => assert!(m.ends_with("good luck with the quiz: https://panel.example/onboarding/quiz/abc")),
        other => panic!("unexpected effect {:?}", other),
    }
}

#[test]
fn already_decided_points_to_quiz() {
    let mut rec = record_in(OnboardState::Claimed);
    perform_deny(&mut rec, TEST_BOT, reason_of(35), 5, &config()).unwrap();
    let after_first = rec.clone();
    let r = perform_deny(&mut rec, TEST_BOT, reason_of(50), 6, &config());
    assert_eq!(r.err(), Some(ActionError::AlreadyDecided));
    assert!(unchanged(&after_first, &rec));
    assert_eq!(rec.verdict.as_ref().unwrap().decided_at, 5);
    match reply_for(ActionError::AlreadyDecided, "!", PANEL, "abc") {
        Reply::Error(m) => {
            assert_eq!(
                m,
                "*Paradise Protection Protocol activated*\n\nVisit https://panel.example/onboarding/quiz/abc to take the quiz!"
            );
        }
        other => panic!("unexpected reply {:?}", other),
    }
}

#[test]
fn other_states_are_not_actionable_and_unchanged() {
    for st in [OnboardState::Approved, OnboardState::Denied, OnboardState::Completed] {
        let mut rec = record_in(st);
        let before = rec.clone();
        let r = perform_deny(&mut rec, TEST_BOT, reason_of(40), 1, &config());
        assert_eq!(r.err(), Some(ActionError::NotYetActionable));
        assert!(unchanged(&before, &rec));
    }
}

#[test]
fn conditional_write_needs_expected_state() {
    let mut rec = record_in(OnboardState::Pending);
    let r = rec.compare_and_set(OnboardState::Claimed, OnboardState::InQuiz, Verdict::denial(reason_of(30), 1));
    assert_eq!(r, Err(Conflict));
    assert_eq!(rec.state, OnboardState::Pending);
    assert!(rec.verdict.is_none());
    let r = rec.compare_and_set(OnboardState::Pending, OnboardState::Claimed, Verdict::denial(reason_of(30), 1));
    assert_eq!(r, Ok(()));
    assert_eq!(rec.state, OnboardState::Claimed);
}

#[test]
fn short_reasons_are_refused_without_effects() {
    for len in [0usize, 1, 29] {
        let mut rec = record_in(OnboardState::Claimed);
        let r = perform_deny(&mut rec, TEST_BOT, reason_of(len), 1, &config());
        assert_eq!(r.err(), Some(ActionError::ReasonTooShort));
        assert_eq!(rec.state, OnboardState::Claimed);
        assert!(rec.verdict.is_none());
    }
    match reply_for(ActionError::ReasonTooShort, "!", PANEL, "abc") {
        Reply::Warning { title, .. } => assert_eq!(title, "Invalid Reason"),
        other => panic!("unexpected reply {:?}", other),
    }
}

#[test]
fn reason_of_exactly_minimum_length_is_accepted() {
    let mut rec = record_in(OnboardState::Claimed);
    assert!(perform_deny(&mut rec, TEST_BOT, reason_of(MIN_REASON_CHARS), 1, &config()).is_ok());
    assert_eq!(rec.state, OnboardState::InQuiz);
}

#[test]
fn reason_length_counts_characters() {
    let mut rec = record_in(OnboardState::Claimed);
    let r = perform_deny(&mut rec, TEST_BOT, "é".repeat(15), 1, &config());
    assert_eq!(r.err(), Some(ActionError::ReasonTooShort));
    let r = perform_deny(&mut rec, TEST_BOT, "é".repeat(30), 1, &config());
    assert!(r.is_ok());
}

#[test]
fn racing_denials_one_wins() {
    let cfg = config();
    let mut rec = record_in(OnboardState::Claimed);
    let first = deny(rec.state, TEST_BOT, "first moderator reason, long enough to pass".to_string(), 10, &cfg).unwrap();
    let second = deny(rec.state, TEST_BOT, "second moderator reason, long enough to pass".to_string(), 11, &cfg).unwrap();
    assert_eq!(commit(&mut rec, first), Ok(()));
    assert_eq!(commit(&mut rec, second), Err(ActionError::NotYetActionable));
    let v = rec.verdict.unwrap();
    assert_eq!(v.reason, "first moderator reason, long enough to pass");
    assert_eq!(v.decided_at, 10);
}

#[test]
fn deny_decides_from_each_state() {
    let cfg = config();
    let reason = reason_of(40);
    assert_eq!(deny(OnboardState::Pending, TEST_BOT, reason.clone(), 0, &cfg).err(), Some(ActionError::NotStarted));
    assert_eq!(deny(OnboardState::InQuiz, TEST_BOT, reason.clone(), 0, &cfg).err(), Some(ActionError::AlreadyDecided));
    let t = deny(OnboardState::Claimed, TEST_BOT, reason.clone(), 3, &cfg).unwrap();
    assert_eq!(t.from, OnboardState::Claimed);
    assert_eq!(t.to, OnboardState::InQuiz);
    assert_eq!(t.verdict.reason, reason);
}

#[test]
fn deny_now_stamps_current_time() {
    let t = deny_now(OnboardState::Claimed, TEST_BOT, reason_of(31), &config()).unwrap();
    assert_eq!(t.verdict.action, "deny");
    assert!(t.verdict.decided_at > 1_600_000_000);
    assert_eq!(deny_now(OnboardState::Pending, TEST_BOT, reason_of(31), &config()).err(), Some(ActionError::NotStarted));
}

#[test]
fn quiz_url_is_formatted() {
    assert_eq!(quiz_url("https://panel.example", "g-17"), "https://panel.example/onboarding/quiz/g-17");
}

#[test]
fn effects_carry_the_quiz_link() {
    let effects = deny_effects(&config(), "xyz");
    match &effects[3] {
        Effect::Say(m) => assert_eq!(
            m,
            "*Paradise Protection Protocol activated, deploying defenses!!!*\n\nOh well, good luck with the quiz: https://panel.example/onboarding/quiz/xyz"
        ),
        other => panic!("unexpected effect {:?}", other),
    }
}

#[test]
fn write_outcome_maps_no_rows_to_conflict() {
    assert_eq!(stored_write_outcome(0), Err(ActionError::NotYetActionable));
    assert_eq!(stored_write_outcome(1), Ok(()));
}

#[test]
fn other_errors_have_messages() {
    match reply_for(ActionError::NoActiveOnboarding, "!", PANEL, "abc") {
        Reply::Error(m) => assert_eq!(m, "Onboarding ID not found for this server?"),
        other => panic!("unexpected reply {:?}", other),
    }
    match reply_for(ActionError::NotYetActionable, "!", PANEL, "abc") {
        Reply::Error(m) => assert_eq!(m, "Hmm... seems like you can't use this command yet!"),
        other => panic!("unexpected reply {:?}", other),
    }
    assert!(matches!(reply_for(ActionError::UnknownState, "!", PANEL, "abc"), Reply::Error(_)));
}
