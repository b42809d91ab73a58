use vstd::prelude::*;

use crate::error::IdentityError;
use crate::model::{PasswordRequest, SessionContext};
use crate::service::{too_short_message, IdentityService};

verus! {

/// Where a change of password stands.
#[derive(Debug, Clone, Copy, PartialEq, Eq)]
pub enum ChangeStep {
    LoadPasswordHash,
    VerifyPassword,
    HashPassword,
    UpdatePassword,
    EndOtherSessions,
    Finished,
}

/// What a change of password asks of the store next.
#[derive(Debug)]
pub enum ChangeAction {
    /// Load the user's stored password digest.
    LoadPasswordHash { user_id: String },
    /// Check the current password against the digest (slow, so off the event loop).
    VerifyPassword { password: String, password_hash: String },
    /// Hash the new password (slow, so off the event loop).
    HashPassword { password: String },
    /// Store the new digest.
    UpdatePasswordHash { user_id: String, password_hash: String },
    /// End every session of the user but `keep_session_id`.
    EndOtherSessions { user_id: String, keep_session_id: String },
    /// Whether the password was changed: `false` for a wrong current password.
    Done(bool),
    Fail(IdentityError),
}

/// What the store answered.
#[derive(Debug)]
pub enum ChangeEvent {
    PasswordHash(String),
    PasswordChecked(bool),
    Hashed(Result<String, IdentityError>),
    PasswordUpdated,
    SessionsEnded,
}

/// A user's change of their own password (`change_password`).
#[derive(Debug)]
pub struct ChangePasswordFlow {
    pub step: ChangeStep,
    pub user_id: String,
    pub session_id: String,
    pub current_password: String,
    pub new_password: String,
    /// Set once the stored digest has accepted the current password.
    pub current_verified: bool,
}

impl ChangePasswordFlow {
    /// Past the password check, the current password has been accepted.
    pub open spec fn inv(&self) -> bool {
        (self.step == ChangeStep::HashPassword || self.step == ChangeStep::UpdatePassword
            || self.step == ChangeStep::EndOtherSessions) ==> self.current_verified
    }

    /// Starts changing the password of the user of `session`. A new password shorter than
    /// the service's shortest length is refused before anything is read.
    pub fn start(
        service: &IdentityService,
        session: &SessionContext,
        request: &PasswordRequest,
    ) -> (r: (ChangePasswordFlow, ChangeAction))
        ensures
            r.0.inv(),
            !r.0.current_verified,
            request.new_password@.len() < service.password_min_length ==> r.0.step
                == ChangeStep::Finished && (r.1 matches ChangeAction::Fail(
                IdentityError::Rejected(m),
            ) && m@ == too_short_message("新密码"@, service.password_min_length as nat)),
            request.new_password@.len() >= service.password_min_length ==> r.0.step
                == ChangeStep::LoadPasswordHash && r.0.user_id == session.user_id
                && r.0.session_id == session.session_id && r.0.current_password
                == request.current_password && r.0.new_password == request.new_password && r.1
                == (ChangeAction::LoadPasswordHash { user_id: session.user_id }),
    {
        let mut flow = ChangePasswordFlow {
            step: ChangeStep::LoadPasswordHash,
            user_id: session.user_id.clone(),
            session_id: session.session_id.clone(),
            current_password: request.current_password.clone(),
            new_password: request.new_password.clone(),
            current_verified: false,
        };
        match service.validate_password(request.new_password.as_str(), "新密码") {
            Err(e) => {
                flow.step = ChangeStep::Finished;
                (flow, ChangeAction::Fail(e))
            },
            Ok(()) => {
                let action = ChangeAction::LoadPasswordHash { user_id: flow.user_id.clone() };
                (flow, action)
            },
        }
    }

    /// Takes the store's answer to the last action and says what to do next.
    pub fn step(&mut self, event: ChangeEvent) -> (action: ChangeAction)
        ensures
            old(self).inv() ==> final(self).inv(),
            final(self).user_id == old(self).user_id,
            final(self).session_id == old(self).session_id,
            final(self).current_password == old(self).current_password,
            final(self).new_password == old(self).new_password,
            final(self).current_verified ==> old(self).current_verified || (old(self).step
                == ChangeStep::VerifyPassword && event == ChangeEvent::PasswordChecked(true)),
            // the digest is replaced, and other sessions ended, only for a user who gave
            // the current password
            old(self).inv() && (action is UpdatePasswordHash || action is EndOtherSessions)
                ==> old(self).current_verified,
            match (old(self).step, event) {
                (ChangeStep::LoadPasswordHash, ChangeEvent::PasswordHash(h)) => action == (
                ChangeAction::VerifyPassword {
                    password: old(self).current_password,
                    password_hash: h,
                }) && final(self).step == ChangeStep::VerifyPassword && final(self).current_verified
                    == old(self).current_verified,
                (ChangeStep::VerifyPassword, ChangeEvent::PasswordChecked(false)) => action
                    == ChangeAction::Done(false) && final(self).step == ChangeStep::Finished,
                (ChangeStep::VerifyPassword, ChangeEvent::PasswordChecked(true)) => action == (
                ChangeAction::HashPassword { password: old(self).new_password }) && final(self).step == ChangeStep::HashPassword && final(self).current_verified,
                (ChangeStep::HashPassword, ChangeEvent::Hashed(Err(e))) => action
                    == ChangeAction::Fail(e) && final(self).step == ChangeStep::Finished,
                (ChangeStep::HashPassword, ChangeEvent::Hashed(Ok(h))) => action == (
                ChangeAction::UpdatePasswordHash { user_id: old(self).user_id, password_hash: h })
                    && final(self).step == ChangeStep::UpdatePassword && final(self).current_verified
                    == old(self).current_verified,
                (ChangeStep::UpdatePassword, ChangeEvent::PasswordUpdated) => action == (
                ChangeAction::EndOtherSessions {
                    user_id: old(self).user_id,
                    keep_session_id: old(self).session_id,
                }) && final(self).step == ChangeStep::EndOtherSessions && final(self).current_verified == old(self).current_verified,
                (ChangeStep::EndOtherSessions, ChangeEvent::SessionsEnded) => action
                    == ChangeAction::Done(true) && final(self).step == ChangeStep::Finished,
                _ => action == ChangeAction::Fail(IdentityError::UnexpectedEvent) && final(self).step
                    == ChangeStep::Finished,
            },
    {
        match (self.step, event) {
            (ChangeStep::LoadPasswordHash, ChangeEvent::PasswordHash(h)) => {
                self.step = ChangeStep::VerifyPassword;
                ChangeAction::VerifyPassword {
                    password: self.current_password.clone(),
                    password_hash: h,
                }
            },
            (ChangeStep::VerifyPassword, ChangeEvent::PasswordChecked(valid)) => {
                if valid {
                    self.step = ChangeStep::HashPassword;
                    self.current_verified = true;
                    ChangeAction::HashPassword { password: self.new_password.clone() }
                } else {
                    self.step = ChangeStep::Finished;
                    ChangeAction::Done(false)
                }
            },
            (ChangeStep::HashPassword, ChangeEvent::Hashed(Err(e))) => {
                self.step = ChangeStep::Finished;
                ChangeAction::Fail(e)
            },
            (ChangeStep::HashPassword, ChangeEvent::Hashed(Ok(h))) => {
                self.step = ChangeStep::UpdatePassword;
                ChangeAction::UpdatePasswordHash { user_id: self.user_id.clone(), password_hash: h }
            },
            (ChangeStep::UpdatePassword, ChangeEvent::PasswordUpdated) => {
                self.step = ChangeStep::EndOtherSessions;
                ChangeAction::EndOtherSessions {
                    user_id: self.user_id.clone(),
                    keep_session_id: self.session_id.clone(),
                }
            },
            (ChangeStep::EndOtherSessions, ChangeEvent::SessionsEnded) => {
                self.step = ChangeStep::Finished;
                ChangeAction::Done(true)
            },
            _ => {
                self.step = ChangeStep::Finished;
                ChangeAction::Fail(IdentityError::UnexpectedEvent)
            },
        }
    }
}

} // verus!
