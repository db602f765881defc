//! The staff-onboarding review workflow: the closed set of onboarding states,
//! the guarded "deny" transition, the conditional write that keeps a record
//! from being advanced twice, and the side effects a successful denial asks for.

pub mod state;
pub mod verdict;
pub mod record;
pub mod deny;
pub mod reply;
