use vstd::prelude::*;

verus! {

/// The stage an onboarding record is in. Stored as text and parsed on every read.
#[derive(Clone, Copy, Debug, PartialEq, Eq, Structural)]
pub enum OnboardState {
    /// The candidate has not entered active review yet.
    Pending,
    /// A moderator owns the review and the probationary participant is active.
    Claimed,
    /// A verdict is recorded; the candidate must take the quiz.
    InQuiz,
    Approved,
    Denied,
    Completed,
}

/// Why a stored state string could not be read.
#[derive(Clone, Copy, Debug, PartialEq, Eq, Structural)]
pub struct UnknownState;

impl OnboardState {
    /// The text under which a state is stored.
    pub open spec fn name(self) -> Seq<char> {
        match self {
            OnboardState::Pending => "pending"@,
            OnboardState::Claimed => "claimed"@,
            OnboardState::InQuiz => "in_quiz"@,
            OnboardState::Approved => "approved"@,
            OnboardState::Denied => "denied"@,
            OnboardState::Completed => "completed"@,
        }
    }

    /// The state stored under `s`, if any.
    pub open spec fn from_name(s: Seq<char>) -> Option<OnboardState> {
        if s == "pending"@ {
            Some(OnboardState::Pending)
        } else if s == "claimed"@ {
            Some(OnboardState::Claimed)
        } else if s == "in_quiz"@ {
            Some(OnboardState::InQuiz)
        } else if s == "approved"@ {
            Some(OnboardState::Approved)
        } else if s == "denied"@ {
            Some(OnboardState::Denied)
        } else if s == "completed"@ {
            Some(OnboardState::Completed)
        } else {
            None
        }
    }

    pub fn as_str(&self) -> (r: &'static str)
        ensures
            r@ == self.name(),
    {
        match self {
            OnboardState::Pending => "pending",
            OnboardState::Claimed => "claimed",
            OnboardState::InQuiz => "in_quiz",
            OnboardState::Approved => "approved",
            OnboardState::Denied => "denied",
            OnboardState::Completed => "completed",
        }
    }

    /// The stored text of this state, as an owned string.
    pub fn to_string(&self) -> (r: String)
        ensures
            r@ == self.name(),
    {
        self.as_str().to_owned()
    }

    /// Reads a stored state; text outside the closed set is an error, never a default.
    pub fn parse(s: &str) -> (r: Result<OnboardState, UnknownState>)
        ensures
            r == (match OnboardState::from_name(s@) {
                Some(st) => Ok::<OnboardState, UnknownState>(st),
                None => Err(UnknownState),
            }),
    {
        let t = s.to_owned();
        if t == "pending".to_owned() {
            Ok(OnboardState::Pending)
        } else if t == "claimed".to_owned() {
            Ok(OnboardState::Claimed)
        } else if t == "in_quiz".to_owned() {
            Ok(OnboardState::InQuiz)
        } else if t == "approved".to_owned() {
            Ok(OnboardState::Approved)
        } else if t == "denied".to_owned() {
            Ok(OnboardState::Denied)
        } else if t == "completed".to_owned() {
            Ok(OnboardState::Completed)
        } else {
            Err(UnknownState)
        }
    }
}

/// Every state reads back from its stored text as itself.
pub proof fn lemma_state_round_trip(st: OnboardState)
    ensures
        OnboardState::from_name(st.name()) == Some(st),
{
    reveal_strlit("pending");
    reveal_strlit("claimed");
    reveal_strlit("in_quiz");
    reveal_strlit("approved");
    reveal_strlit("denied");
    reveal_strlit("completed");
    let n = st.name();
    assert(n.len() != "approved"@.len() || n[0] == 'a');
    assert(n.len() != "denied"@.len() || n[0] == 'd');
    assert(n.len() != "completed"@.len() || n[0] == 'c');
    assert(n[0] != 'p' ==> n != "pending"@);
    assert(n[0] != 'c' ==> n != "claimed"@);
    assert(n[0] != 'i' ==> n != "in_quiz"@);
    assert(n[0] != 'a' ==> n != "approved"@);
    assert(n[0] != 'd' ==> n != "denied"@);
}

/// Text that reads as a state is exactly that state's stored text.
pub proof fn lemma_state_name_unique(s: Seq<char>)
    ensures
        OnboardState::from_name(s) matches Some(st) ==> st.name() == s,
{
}

} // verus!
