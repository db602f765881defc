use vstd::prelude::*;
use crate::deny::{quiz_url, quiz_url_of, ActionError};

verus! {

/// How an action's failure is shown to the moderator.
#[derive(Clone, Debug)]
pub enum Reply {
    /// An error returned to the caller, with guidance on what to do next.
    Error(String),
    /// A warning panel; the moderator may correct the input and try again.
    Warning { title: String, description: String },
}

pub ghost enum ReplyModel {
    Error(Seq<char>),
    Warning { title: Seq<char>, description: Seq<char> },
}

impl View for Reply {
    type V = ReplyModel;

    open spec fn view(&self) -> ReplyModel {
        match self {
            Reply::Error(m) => ReplyModel::Error(m@),
            Reply::Warning { title, description } => ReplyModel::Warning {
                title: title@,
                description: description@,
            },
        }
    }
}

pub const NO_ONBOARDING_MESSAGE: &'static str = "Onboarding ID not found for this server?";

pub const UNKNOWN_STATE_MESSAGE: &'static str = "The stored onboarding state is not a known state";

pub const NOT_ACTIONABLE_MESSAGE: &'static str = "Hmm... seems like you can't use this command yet!";

pub const WRONG_TARGET_TITLE: &'static str = "Invalid Bot";

pub const WRONG_TARGET_TEXT: &'static str = "You can only deny the test bot!";

pub const SHORT_REASON_TITLE: &'static str = "Invalid Reason";

pub const SHORT_REASON_TEXT: &'static str = "Please provide a reason that is at least 30 characters long!";

/// What the moderator is shown for `err`. `prefix` is the command prefix in use; the
/// panel URL and onboarding id locate the quiz.
pub open spec fn reply_of(err: ActionError, prefix: Seq<char>, panel_url: Seq<char>, onboarding_id: Seq<char>) -> ReplyModel {
    match err {
        ActionError::NoActiveOnboarding => ReplyModel::Error(NO_ONBOARDING_MESSAGE@),
        ActionError::UnknownState => ReplyModel::Error(UNKNOWN_STATE_MESSAGE@),
        ActionError::NotStarted => ReplyModel::Error(
            "Please run ``"@ + prefix + "queue`` to get started!"@,
        ),
        ActionError::AlreadyDecided => ReplyModel::Error(
            "*Paradise Protection Protocol activated*\n\nVisit "@ + quiz_url_of(panel_url, onboarding_id)
                + " to take the quiz!"@,
        ),
        ActionError::NotYetActionable => ReplyModel::Error(NOT_ACTIONABLE_MESSAGE@),
        ActionError::WrongTarget => ReplyModel::Warning {
            title: WRONG_TARGET_TITLE@,
            description: WRONG_TARGET_TEXT@,
        },
        ActionError::ReasonTooShort => ReplyModel::Warning {
            title: SHORT_REASON_TITLE@,
            description: SHORT_REASON_TEXT@,
        },
    }
}

/// Whether a failure is a validation warning, after which the action ended normally.
pub open spec fn is_validation_error(err: ActionError) -> bool {
    err == ActionError::WrongTarget || err == ActionError::ReasonTooShort
}

/// The reply for `err`.
pub fn reply_for(err: ActionError, prefix: &str, panel_url: &str, onboarding_id: &str) -> (r: Reply)
    ensures
        r@ == reply_of(err, prefix@, panel_url@, onboarding_id@),
        r is Warning <==> is_validation_error(err),
{
    match err {
        ActionError::NoActiveOnboarding => Reply::Error(NO_ONBOARDING_MESSAGE.to_owned()),
        ActionError::UnknownState => Reply::Error(UNKNOWN_STATE_MESSAGE.to_owned()),
        ActionError::NotStarted => {
            let mut m = "Please run ``".to_owned();
            m.append(prefix);
            m.append("queue`` to get started!");
            Reply::Error(m)
        },
        ActionError::AlreadyDecided => {
            let mut m = "*Paradise Protection Protocol activated*\n\nVisit ".to_owned();
            m.append(quiz_url(panel_url, onboarding_id).as_str());
            m.append(" to take the quiz!");
            Reply::Error(m)
        },
        ActionError::NotYetActionable => Reply::Error(NOT_ACTIONABLE_MESSAGE.to_owned()),
        ActionError::WrongTarget => Reply::Warning {
            title: WRONG_TARGET_TITLE.to_owned(),
            description: WRONG_TARGET_TEXT.to_owned(),
        },
        ActionError::ReasonTooShort => Reply::Warning {
            title: SHORT_REASON_TITLE.to_owned(),
            description: SHORT_REASON_TEXT.to_owned(),
        },
    }
}

} // verus!
