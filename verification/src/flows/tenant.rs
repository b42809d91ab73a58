use vstd::prelude::*;

use crate::error::IdentityError;
use crate::model::SessionContext;

verus! {

/// Where a switch of tenant stands.
#[derive(Debug, Clone, Copy, PartialEq, Eq)]
pub enum SwitchStep {
    CheckMembership,
    UpdateSession,
    Finished,
}

/// What a switch of tenant asks of the store next.
#[derive(Debug, PartialEq, Eq)]
pub enum SwitchAction {
    /// Whether the user is a member of the tenant.
    CheckMembership { tenant_id: String, user_id: String },
    /// Move the user's unexpired session to the tenant; answer with the rows changed.
    UpdateSession { session_id: String, tenant_id: String, user_id: String },
    /// Whether the session now works in the tenant.
    Done(bool),
    Fail(IdentityError),
}

/// What the store answered.
#[derive(Debug, PartialEq, Eq)]
pub enum SwitchEvent {
    Membership(bool),
    SessionsUpdated(u64),
}

/// The move of a session to another tenant of its user (`switch_tenant`).
#[derive(Debug)]
pub struct SwitchTenantFlow {
    pub step: SwitchStep,
    pub session_id: String,
    pub user_id: String,
    pub tenant_id: String,
}

impl SwitchTenantFlow {
    /// Starts moving `session` to `tenant_id`.
    pub fn start(session: &SessionContext, tenant_id: &str) -> (r: (SwitchTenantFlow, SwitchAction))
        ensures
            r.0.step == SwitchStep::CheckMembership,
            r.0.session_id == session.session_id,
            r.0.user_id == session.user_id,
            r.0.tenant_id@ == tenant_id@,
            r.1 == (SwitchAction::CheckMembership {
                tenant_id: r.0.tenant_id,
                user_id: session.user_id,
            }),
    {
        let flow = SwitchTenantFlow {
            step: SwitchStep::CheckMembership,
            session_id: session.session_id.clone(),
            user_id: session.user_id.clone(),
            tenant_id: tenant_id.to_owned(),
        };
        let action = SwitchAction::CheckMembership {
            tenant_id: flow.tenant_id.clone(),
            user_id: flow.user_id.clone(),
        };
        (flow, action)
    }

    /// Takes the store's answer to the last action and says what to do next.
    pub fn step(&mut self, event: SwitchEvent) -> (action: SwitchAction)
        ensures
            // a session is moved only to a tenant that its user belongs to
            action is UpdateSession ==> old(self).step == SwitchStep::CheckMembership && event
                == SwitchEvent::Membership(true),
            match (old(self).step, event) {
                (SwitchStep::CheckMembership, SwitchEvent::Membership(false)) => action
                    == SwitchAction::Done(false) && final(self).step == SwitchStep::Finished,
                (SwitchStep::CheckMembership, SwitchEvent::Membership(true)) => action == (
                SwitchAction::UpdateSession {
                    session_id: old(self).session_id,
                    tenant_id: old(self).tenant_id,
                    user_id: old(self).user_id,
                }) && final(self).step == SwitchStep::UpdateSession,
                (SwitchStep::UpdateSession, SwitchEvent::SessionsUpdated(rows)) => action
                    == SwitchAction::Done(rows == 1) && final(self).step == SwitchStep::Finished,
                _ => action == SwitchAction::Fail(IdentityError::UnexpectedEvent) && final(self).step
                    == SwitchStep::Finished,
            },
    {
        match (self.step, event) {
            (SwitchStep::CheckMembership, SwitchEvent::Membership(member)) => {
                if member {
                    self.step = SwitchStep::UpdateSession;
                    SwitchAction::UpdateSession {
                        session_id: self.session_id.clone(),
                        tenant_id: self.tenant_id.clone(),
                        user_id: self.user_id.clone(),
                    }
                } else {
                    self.step = SwitchStep::Finished;
                    SwitchAction::Done(false)
                }
            },
            (SwitchStep::UpdateSession, SwitchEvent::SessionsUpdated(rows)) => {
                self.step = SwitchStep::Finished;
                SwitchAction::Done(rows == 1)
            },
            _ => {
                self.step = SwitchStep::Finished;
                SwitchAction::Fail(IdentityError::UnexpectedEvent)
            },
        }
    }
}

} // verus!
