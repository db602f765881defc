use vstd::prelude::*;
use crate::record::{cas_result, record_wf, Conflict, OnboardRecord, RecordModel};
use crate::state::OnboardState;
use crate::verdict::{deny_action, Verdict, VerdictModel};

verus! {

/// The fewest characters a denial's reason may have.
pub const MIN_REASON_CHARS: usize = 30;

/// Seconds between the acknowledgment and the message with the quiz link.
pub const QUIZ_MESSAGE_DELAY_SECS: u64 = 2;

/// Why a moderator action did not go through.
#[derive(Clone, Copy, Debug, PartialEq, Eq, Structural)]
pub enum ActionError {
    /// This context has no onboarding configured.
    NoActiveOnboarding,
    /// The stored state is not one of the known states.
    UnknownState,
    /// The candidate has not started the workflow.
    NotStarted,
    /// A decision is already recorded; the candidate should take the quiz.
    AlreadyDecided,
    /// The record is in a state the action does not apply to, or changed underneath it.
    NotYetActionable,
    /// The participant acted on is not the designated test participant.
    WrongTarget,
    /// The reason given is shorter than `MIN_REASON_CHARS` characters.
    ReasonTooShort,
}

/// Settings of a deployment: who the probationary participant is, and where the
/// panel that serves quizzes lives.
#[derive(Clone, Debug)]
pub struct DenyConfig {
    pub test_bot: u64,
    pub panel_url: String,
}

/// A computed transition: the state it needs, the state it leads to, and the verdict
/// written with it.
#[derive(Clone, Debug)]
pub struct Transition {
    pub from: OnboardState,
    pub to: OnboardState,
    pub verdict: Verdict,
}

/// The error of a denial, or `None` where it may proceed. The stage is checked first,
/// then the target, then the reason.
pub open spec fn deny_check(state: OnboardState, target: u64, reason: Seq<char>, test_bot: u64) -> Option<ActionError> {
    match state {
        OnboardState::Pending => Some(ActionError::NotStarted),
        OnboardState::InQuiz => Some(ActionError::AlreadyDecided),
        OnboardState::Claimed => {
            if target != test_bot {
                Some(ActionError::WrongTarget)
            } else if reason.len() < MIN_REASON_CHARS {
                Some(ActionError::ReasonTooShort)
            } else {
                None
            }
        },
        _ => Some(ActionError::NotYetActionable),
    }
}

/// The verdict a denial records.
pub open spec fn denial_model(reason: Seq<char>, decided_at: i64) -> VerdictModel {
    VerdictModel { action: deny_action(), reason, decided_at }
}

/// The record after a denial, or the error that stops it.
pub open spec fn deny_record(
    rec: RecordModel,
    target: u64,
    reason: Seq<char>,
    decided_at: i64,
    test_bot: u64,
) -> Result<RecordModel, ActionError> {
    match deny_check(rec.state, target, reason, test_bot) {
        Some(e) => Err(e),
        None => Ok(
            RecordModel {
                state: OnboardState::InQuiz,
                verdict: Some(denial_model(reason, decided_at)),
                ..rec
            },
        ),
    }
}

/// Decides a denial of `target` for `reason` on a record in `state`.
pub fn deny(state: OnboardState, target: u64, reason: String, decided_at: i64, config: &DenyConfig) -> (r: Result<Transition, ActionError>)
    ensures
        match deny_check(state, target, reason@, config.test_bot) {
            Some(e) => r == Err::<Transition, ActionError>(e),
            None => r matches Ok(t) && t.from == OnboardState::Claimed && t.to == OnboardState::InQuiz
                && t.verdict@ == denial_model(reason@, decided_at),
        },
{
    match state {
        OnboardState::Pending => Err(ActionError::NotStarted),
        OnboardState::InQuiz => Err(ActionError::AlreadyDecided),
        OnboardState::Claimed => {
            if target != config.test_bot {
                Err(ActionError::WrongTarget)
            } else if reason.as_str().unicode_len() < MIN_REASON_CHARS {
                Err(ActionError::ReasonTooShort)
            } else {
                Ok(Transition {
                    from: OnboardState::Claimed,
                    to: OnboardState::InQuiz,
                    verdict: Verdict::denial(reason, decided_at),
                })
            }
        },
        _ => Err(ActionError::NotYetActionable),
    }
}

/// Relies on chrono's `From<SystemTime> for DateTime<Utc>` and `DateTime::timestamp`
/// (through sqlx's re-export): the system clock in seconds since the Unix epoch, negative
/// for a clock set before 1970. The conversion fails only outside chrono's range of about
/// 262,000 years either side of year 0, which no system clock reaches. Nothing is known of
/// the value.
#[verifier::external_body]
fn unix_time_now() -> (r: i64) {
    sqlx::types::chrono::DateTime::<sqlx::types::chrono::Utc>::from(std::time::SystemTime::now()).timestamp()
}

/// Audit reason given when the probationary participant is removed.
pub const REMOVAL_AUDIT_REASON: &'static str = "Activated Paradise Protection Protocol";

/// Acknowledgment sent right after a denial.
pub const DENY_ACKNOWLEDGMENT: &'static str = "Oh great work in denying this bo-!";

/// Opening of the delayed message that carries the quiz link.
pub const QUIZ_MESSAGE_LEAD: &'static str = "*Paradise Protection Protocol activated, deploying defenses!!!*\n\nOh well, good luck with the quiz: ";

/// Something the caller carries out after a denial is committed, in order.
#[derive(Clone, Debug)]
pub enum Effect {
    /// Remove a participant from the shared review space, with a reason for the audit log.
    RemoveParticipant { participant: u64, audit_reason: String },
    /// Send a message to the moderator.
    Say(String),
    /// Wait this many seconds before the next effect; best effort, never blocking the caller.
    Wait(u64),
}

pub ghost enum EffectModel {
    RemoveParticipant { participant: u64, audit_reason: Seq<char> },
    Say(Seq<char>),
    Wait(u64),
}

impl View for Effect {
    type V = EffectModel;

    open spec fn view(&self) -> EffectModel {
        match self {
            Effect::RemoveParticipant { participant, audit_reason } => EffectModel::RemoveParticipant {
                participant: *participant,
                audit_reason: audit_reason@,
            },
            Effect::Say(m) => EffectModel::Say(m@),
            Effect::Wait(s) => EffectModel::Wait(*s),
        }
    }
}

/// Where a candidate takes the quiz of an onboarding.
pub open spec fn quiz_url_of(panel_url: Seq<char>, onboarding_id: Seq<char>) -> Seq<char> {
    panel_url + "/onboarding/quiz/"@ + onboarding_id
}

/// What a committed denial asks for: remove the test participant, acknowledge, wait,
/// then send the quiz link.
pub open spec fn deny_effects_of(test_bot: u64, panel_url: Seq<char>, onboarding_id: Seq<char>) -> Seq<EffectModel> {
    seq![
        EffectModel::RemoveParticipant { participant: test_bot, audit_reason: REMOVAL_AUDIT_REASON@ },
        EffectModel::Say(DENY_ACKNOWLEDGMENT@),
        EffectModel::Wait(QUIZ_MESSAGE_DELAY_SECS),
        EffectModel::Say(QUIZ_MESSAGE_LEAD@ + quiz_url_of(panel_url, onboarding_id)),
    ]
}

/// The views of a list of effects.
pub open spec fn effect_models(effects: Seq<Effect>) -> Seq<EffectModel> {
    effects.map_values(|e: Effect| e@)
}

/// The quiz link of an onboarding: `<panel_url>/onboarding/quiz/<onboarding_id>`.
pub fn quiz_url(panel_url: &str, onboarding_id: &str) -> (r: String)
    ensures
        r@ == quiz_url_of(panel_url@, onboarding_id@),
{
    let mut url = panel_url.to_owned();
    url.append("/onboarding/quiz/");
    url.append(onboarding_id);
    url
}

/// The effects of a committed denial of the onboarding `onboarding_id`.
pub fn deny_effects(config: &DenyConfig, onboarding_id: &str) -> (r: Vec<Effect>)
    ensures
        effect_models(r@) == deny_effects_of(config.test_bot, config.panel_url@, onboarding_id@),
{
    let mut quiz_message = QUIZ_MESSAGE_LEAD.to_owned();
    quiz_message.append(quiz_url(config.panel_url.as_str(), onboarding_id).as_str());
    let r = vec![
        Effect::RemoveParticipant { participant: config.test_bot, audit_reason: REMOVAL_AUDIT_REASON.to_owned() },
        Effect::Say(DENY_ACKNOWLEDGMENT.to_owned()),
        Effect::Wait(QUIZ_MESSAGE_DELAY_SECS),
        Effect::Say(quiz_message),
    ];
    assert(effect_models(r@) =~= deny_effects_of(config.test_bot, config.panel_url@, onboarding_id@));
    r
}

/// Applies a computed transition with a conditional write: a record that left the
/// transition's starting state meanwhile is not touched, and the action is not actionable.
pub fn commit(record: &mut OnboardRecord, transition: Transition) -> (r: Result<(), ActionError>)
    ensures
        old(record).state == transition.from ==> r is Ok && final(record)@ == (RecordModel {
            state: transition.to,
            verdict: Some(transition.verdict@),
            ..old(record)@
        }),
        old(record).state != transition.from ==> r == Err::<(), ActionError>(ActionError::NotYetActionable)
            && final(record)@ == old(record)@,
{
    match record.compare_and_set(transition.from, transition.to, transition.verdict) {
        Ok(()) => Ok(()),
        Err(Conflict) => Err(ActionError::NotYetActionable),
    }
}

/// The deny action on a loaded record: decides, writes the new state and verdict
/// conditionally, and hands back the effects to carry out. On any error the record
/// is unchanged and nothing is to be done.
pub fn perform_deny(
    record: &mut OnboardRecord,
    target: u64,
    reason: String,
    decided_at: i64,
    config: &DenyConfig,
) -> (r: Result<Vec<Effect>, ActionError>)
    ensures
        match deny_record(old(record)@, target, reason@, decided_at, config.test_bot) {
            Ok(m) => r matches Ok(effects) && final(record)@ == m
                && effect_models(effects@) == deny_effects_of(config.test_bot, config.panel_url@, m.onboarding_id),
            Err(e) => r == Err::<Vec<Effect>, ActionError>(e) && final(record)@ == old(record)@,
        },
        record_wf(old(record)@) ==> record_wf(final(record)@),
{
    let transition = deny(record.state, target, reason, decided_at, config)?;
    commit(record, transition)?;
    Ok(deny_effects(config, record.onboarding_id.as_str()))
}

/// Decides a denial as `deny` does, with the verdict stamped with the current time,
/// whatever the clock reads.
pub fn deny_now(state: OnboardState, target: u64, reason: String, config: &DenyConfig) -> (r: Result<Transition, ActionError>)
    ensures
        match deny_check(state, target, reason@, config.test_bot) {
            Some(e) => r == Err::<Transition, ActionError>(e),
            None => r matches Ok(t) && t.from == OnboardState::Claimed && t.to == OnboardState::InQuiz
                && t.verdict@ == denial_model(reason@, t.verdict.decided_at),
        },
{
    let now = unix_time_now();
    deny(state, target, reason, now, config)
}

/// The outcome of a conditional write to the store that touched `rows_affected` rows:
/// none means the record changed underneath the action.
pub fn stored_write_outcome(rows_affected: u64) -> (r: Result<(), ActionError>)
    ensures
        rows_affected > 0 ==> r is Ok,
        rows_affected == 0 ==> r == Err::<(), ActionError>(ActionError::NotYetActionable),
{
    if rows_affected == 0 {
        Err(ActionError::NotYetActionable)
    } else {
        Ok(())
    }
}

/// A transition tried on a record whose state is not the one it needs always fails:
/// the deny action on any record that is not claimed, and a conditional write whose
/// expected state is not the stored one. Both then leave state and verdict as they were
/// (see `perform_deny` and `OnboardRecord::compare_and_set`).
pub proof fn lemma_wrong_state_rejected(
    rec: RecordModel,
    target: u64,
    reason: Seq<char>,
    decided_at: i64,
    test_bot: u64,
    expected: OnboardState,
    next: OnboardState,
    verdict: VerdictModel,
)
    ensures
        rec.state != OnboardState::Claimed ==> deny_record(rec, target, reason, decided_at, test_bot) is Err,
        rec.state != expected ==> cas_result(rec, expected, next, verdict) is None,
{
}

/// On a claimed record and the designated target, a reason shorter than the minimum is
/// refused as too short: no write happens and no effect is handed out.
pub proof fn lemma_short_reason_refused(rec: RecordModel, target: u64, reason: Seq<char>, decided_at: i64, test_bot: u64)
    requires
        rec.state == OnboardState::Claimed,
        target == test_bot,
        reason.len() < MIN_REASON_CHARS,
    ensures
        deny_record(rec, target, reason, decided_at, test_bot) == Err::<RecordModel, ActionError>(
            ActionError::ReasonTooShort,
        ),
{
}

/// A denial that succeeds leaves the record in the quiz stage, with a verdict whose
/// action is "deny" and whose reason is the one given.
pub proof fn lemma_denial_records_verdict(rec: RecordModel, target: u64, reason: Seq<char>, decided_at: i64, test_bot: u64)
    ensures
        deny_record(rec, target, reason, decided_at, test_bot) is Ok ==> {
            let m = deny_record(rec, target, reason, decided_at, test_bot)->Ok_0;
            &&& m.state == OnboardState::InQuiz
            &&& m.verdict matches Some(v)
            &&& v.action == "deny"@
            &&& v.reason == reason
        },
{
}

/// Two denials race on one claimed record: both read it as claimed and computed their
/// verdicts. The first conditional write succeeds; the second finds a conflict and
/// changes nothing, so the first verdict is never overwritten. A denial that starts
/// after the first one committed is refused as already decided.
pub proof fn lemma_racing_denials(
    rec: RecordModel,
    first: VerdictModel,
    second: VerdictModel,
    target: u64,
    reason: Seq<char>,
    decided_at: i64,
    test_bot: u64,
)
    requires
        rec.state == OnboardState::Claimed,
    ensures
        cas_result(rec, OnboardState::Claimed, OnboardState::InQuiz, first) == Some(
            RecordModel { state: OnboardState::InQuiz, verdict: Some(first), ..rec },
        ),
        cas_result(
            cas_result(rec, OnboardState::Claimed, OnboardState::InQuiz, first)->Some_0,
            OnboardState::Claimed,
            OnboardState::InQuiz,
            second,
        ) is None,
        deny_record(
            cas_result(rec, OnboardState::Claimed, OnboardState::InQuiz, first)->Some_0,
            target,
            reason,
            decided_at,
            test_bot,
        ) == Err::<RecordModel, ActionError>(ActionError::AlreadyDecided),
{
}

/// A recorded verdict is never replaced. On a well-formed record that already holds one,
/// the deny action fails (and so leaves the record as it was), and a conditional write
/// that needs a claimed record finds a conflict.
pub proof fn lemma_verdict_written_once(
    rec: RecordModel,
    target: u64,
    reason: Seq<char>,
    decided_at: i64,
    test_bot: u64,
    next: OnboardState,
    verdict: VerdictModel,
)
    requires
        record_wf(rec),
        rec.verdict is Some,
    ensures
        deny_record(rec, target, reason, decided_at, test_bot) is Err,
        cas_result(rec, OnboardState::Claimed, next, verdict) is None,
{
}

} // verus!
