use vstd::prelude::*;

use crate::cookie::{cookie, find_cookie, COOKIE_NAME};
use crate::error::IdentityError;
use crate::model::{SessionContext, SessionRow};
use crate::service::opt_view;
use crate::session::{session_id, spec_session_id};

verus! {

/// The id of the stored session that a request presents, by the session cookie in its
/// `Cookie` header: the digest of the cookie's token. `None` when there is no such cookie.
pub open spec fn presented_session_id(header: Option<Seq<char>>) -> Option<Seq<char>> {
    match header {
        None => None,
        Some(h) => match find_cookie(h, COOKIE_NAME@) {
            None => None,
            Some(token) => Some(spec_session_id(token)),
        },
    }
}

/// The stored session that ends when a client signs out: the one its cookie presents.
pub fn session_to_end(header: Option<&str>) -> (id: Option<String>)
    ensures
        opt_string_view(id) == presented_session_id(opt_view(header)),
{
    match cookie(header, COOKIE_NAME) {
        None => None,
        Some(token) => Some(session_id(token)),
    }
}

pub open spec fn opt_string_view(v: Option<String>) -> Option<Seq<char>> {
    match v {
        None => None,
        Some(s) => Some(s@),
    }
}

/// Where the recognition of a session stands.
#[derive(Debug, Clone, Copy, PartialEq, Eq)]
pub enum AuthStep {
    FindSession,
    LoadPermissions,
    Finished,
}

/// What the recognition of a session asks of the store next.
#[derive(Debug)]
pub enum AuthAction {
    /// Look up the unexpired session with this id, with its account and tenant.
    FindSession { session_id: String },
    /// Load the permissions that the user holds in the tenant.
    LoadPermissions { tenant_id: String, user_id: String },
    /// Recognition is over: the session, or `None` when the request has none.
    Done(Option<SessionContext>),
    Fail(IdentityError),
}

/// What the store answered.
#[derive(Debug)]
pub enum AuthEvent {
    Session(Option<SessionRow>),
    Permissions(Vec<String>),
}

/// The recognition of the session that a request presents (`authenticate`).
#[derive(Debug)]
pub struct AuthFlow {
    pub step: AuthStep,
    pub session_id: String,
    pub user_id: String,
    pub account: String,
    pub display_name: String,
    pub tenant_id: String,
    pub tenant_label: String,
}

impl AuthFlow {
    /// Starts recognizing the session that the `Cookie` header `header` presents.
    pub fn start(header: Option<&str>) -> (r: (AuthFlow, AuthAction))
        ensures
            match presented_session_id(opt_view(header)) {
                None => r.1 == AuthAction::Done(None) && r.0.step == AuthStep::Finished,
                Some(id) => r.1 == (AuthAction::FindSession { session_id: r.0.session_id })
                    && r.0.session_id@ == id && r.0.step == AuthStep::FindSession,
            },
    {
        match session_to_end(header) {
            None => (
                AuthFlow {
                    step: AuthStep::Finished,
                    session_id: String::new(),
                    user_id: String::new(),
                    account: String::new(),
                    display_name: String::new(),
                    tenant_id: String::new(),
                    tenant_label: String::new(),
                },
                AuthAction::Done(None),
            ),
            Some(id) => {
                let action = AuthAction::FindSession { session_id: id.clone() };
                (
                    AuthFlow {
                        step: AuthStep::FindSession,
                        session_id: id,
                        user_id: String::new(),
                        account: String::new(),
                        display_name: String::new(),
                        tenant_id: String::new(),
                        tenant_label: String::new(),
                    },
                    action,
                )
            },
        }
    }

    /// Takes the store's answer to the last action and says what to do next.
    pub fn step(&mut self, event: AuthEvent) -> (action: AuthAction)
        ensures
            match (old(self).step, event) {
                (AuthStep::FindSession, AuthEvent::Session(None)) => action == AuthAction::Done(
                    None,
                ) && final(self).step == AuthStep::Finished,
                (AuthStep::FindSession, AuthEvent::Session(Some(row))) => action == (
                AuthAction::LoadPermissions {
                    tenant_id: row.tenant_id,
                    user_id: row.user_id,
                }) && final(self).step == AuthStep::LoadPermissions && final(self).session_id
                    == old(self).session_id && final(self).user_id == row.user_id && final(self).account == row.account && final(self).display_name == row.display_name
                    && final(self).tenant_id == row.tenant_id && final(self).tenant_label
                    == row.tenant_label,
                (AuthStep::LoadPermissions, AuthEvent::Permissions(p)) => action
                    == AuthAction::Done(
                    Some(
                        SessionContext {
                            session_id: old(self).session_id,
                            user_id: old(self).user_id,
                            account: old(self).account,
                            display_name: old(self).display_name,
                            tenant_id: old(self).tenant_id,
                            tenant_label: old(self).tenant_label,
                            permissions: p,
                        },
                    ),
                ) && final(self).step == AuthStep::Finished,
                _ => action == AuthAction::Fail(IdentityError::UnexpectedEvent) && final(self).step == AuthStep::Finished,
            },
    {
        match (self.step, event) {
            (AuthStep::FindSession, AuthEvent::Session(None)) => {
                self.step = AuthStep::Finished;
                AuthAction::Done(None)
            },
            (AuthStep::FindSession, AuthEvent::Session(Some(row))) => {
                let action = AuthAction::LoadPermissions {
                    tenant_id: row.tenant_id.clone(),
                    user_id: row.user_id.clone(),
                };
                self.step = AuthStep::LoadPermissions;
                self.user_id = row.user_id;
                self.account = row.account;
                self.display_name = row.display_name;
                self.tenant_id = row.tenant_id;
                self.tenant_label = row.tenant_label;
                action
            },
            (AuthStep::LoadPermissions, AuthEvent::Permissions(p)) => {
                self.step = AuthStep::Finished;
                AuthAction::Done(
                    Some(
                        SessionContext {
                            session_id: self.session_id.clone(),
                            user_id: self.user_id.clone(),
                            account: self.account.clone(),
                            display_name: self.display_name.clone(),
                            tenant_id: self.tenant_id.clone(),
                            tenant_label: self.tenant_label.clone(),
                            permissions: p,
                        },
                    ),
                )
            },
            _ => {
                self.step = AuthStep::Finished;
                AuthAction::Fail(IdentityError::UnexpectedEvent)
            },
        }
    }
}

} // verus!
