use vstd::prelude::*;
use crate::state::OnboardState;
use crate::verdict::{Verdict, VerdictModel};

verus! {

/// The stored state of a record no longer matched the one a write expected.
#[derive(Clone, Copy, Debug, PartialEq, Eq, Structural)]
pub struct Conflict;

/// One candidate's onboarding in one context (a server): its stage and, once
/// decided, its verdict.
#[derive(Clone, Debug)]
pub struct OnboardRecord {
    pub candidate_id: u64,
    pub onboarding_id: String,
    pub state: OnboardState,
    pub verdict: Option<Verdict>,
}

pub ghost struct RecordModel {
    pub candidate_id: u64,
    pub onboarding_id: Seq<char>,
    pub state: OnboardState,
    pub verdict: Option<VerdictModel>,
}

impl View for OnboardRecord {
    type V = RecordModel;

    open spec fn view(&self) -> RecordModel {
        RecordModel {
            candidate_id: self.candidate_id,
            onboarding_id: self.onboarding_id@,
            state: self.state,
            verdict: match self.verdict {
                Some(v) => Some(v@),
                None => None,
            },
        }
    }
}

/// A record is well formed when it carries no verdict before a decision: a pending or
/// claimed record has none. Together with writes that need a claimed record, this makes
/// a verdict write-once.
pub open spec fn record_wf(rec: RecordModel) -> bool {
    (rec.state == OnboardState::Pending || rec.state == OnboardState::Claimed) ==> rec.verdict is None
}

/// The record after a conditional write of `next` and `verdict`, or `None` where the
/// stored state is not `expected`.
pub open spec fn cas_result(
    rec: RecordModel,
    expected: OnboardState,
    next: OnboardState,
    verdict: VerdictModel,
) -> Option<RecordModel> {
    if rec.state == expected {
        Some(RecordModel { state: next, verdict: Some(verdict), ..rec })
    } else {
        None
    }
}

impl OnboardRecord {
    /// The record a candidate gets on entering the workflow.
    pub fn new(candidate_id: u64, onboarding_id: String) -> (r: OnboardRecord)
        ensures
            r@ == (RecordModel {
                candidate_id,
                onboarding_id: onboarding_id@,
                state: OnboardState::Pending,
                verdict: None,
            }),
            record_wf(r@),
    {
        OnboardRecord { candidate_id, onboarding_id, state: OnboardState::Pending, verdict: None }
    }

    /// Writes `next` and `verdict` together, but only while the stored state is still
    /// `expected`; otherwise nothing changes and the write reports a conflict.
    pub fn compare_and_set(&mut self, expected: OnboardState, next: OnboardState, verdict: Verdict) -> (r: Result<(), Conflict>)
        ensures
            match cas_result(old(self)@, expected, next, verdict@) {
                Some(m) => r is Ok && final(self)@ == m,
                None => r == Err::<(), Conflict>(Conflict) && final(self)@ == old(self)@,
            },
    {
        if self.state == expected {
            self.state = next;
            self.verdict = Some(verdict);
            Ok(())
        } else {
            Err(Conflict)
        }
    }
}

} // verus!
