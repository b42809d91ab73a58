use vstd::prelude::*;

use crate::cookie::{session_cookie_round_trip, session_cookie_text, stored_pair};
use crate::error::IdentityError;
use crate::flows::authenticate::presented_session_id;
use crate::model::{LoginRequest, LoginResult, SessionContext, TenantRow, UserRow};
use crate::service::IdentityService;
use crate::session::{is_lower_hex, is_session_token, new_session_token, session_id, spec_session_id};
use crate::text::{has_char, trim, trim_str};

verus! {

/// Where a sign-in stands.
#[derive(Debug, Clone, Copy, PartialEq, Eq)]
pub enum LoginStep {
    FindUser,
    VerifyPassword,
    FindTenant,
    CreateSession,
    LoadPermissions,
    Finished,
}

/// What a sign-in asks of the store next.
#[derive(Debug)]
pub enum LoginAction {
    /// Look up the account with this name.
    FindUser { account: String },
    /// Check the password against the stored digest (Argon2; slow, so off the event loop).
    VerifyPassword { password: String, password_hash: String },
    /// Find the user's first tenant, by tenant id.
    FindTenant { user_id: String },
    /// Drop expired sessions, and store a new one for seven days.
    CreateSession { session_id: String, user_id: String, tenant_id: String },
    /// Load the permissions that the user holds in the tenant.
    LoadPermissions { tenant_id: String, user_id: String },
    /// The sign-in is over: the new session, or `None` for a wrong account or password.
    Done(Option<LoginResult>),
    Fail(IdentityError),
}

/// What the store answered.
#[derive(Debug)]
pub enum LoginEvent {
    User(Option<UserRow>),
    PasswordChecked(bool),
    Tenant(Option<TenantRow>),
    SessionCreated,
    Permissions(Vec<String>),
}

/// A sign-in with account and password (`login`).
#[derive(Debug)]
pub struct LoginFlow {
    pub step: LoginStep,
    pub account: String,
    pub password: String,
    pub secure_cookie: bool,
    pub user_id: String,
    pub display_name: String,
    pub tenant_id: String,
    pub tenant_label: String,
    pub token: String,
    pub session_id: String,
    /// Set once the stored digest has accepted the password.
    pub password_verified: bool,
}

impl LoginFlow {
    /// Past the password check, the password has been accepted.
    pub open spec fn inv(&self) -> bool {
        (self.step == LoginStep::FindTenant || self.step == LoginStep::CreateSession || self.step
            == LoginStep::LoadPermissions) ==> self.password_verified
    }

    /// Starts a sign-in; the account name is taken without surrounding white space.
    pub fn start(service: &IdentityService, request: &LoginRequest) -> (r: (LoginFlow, LoginAction))
        ensures
            r.0.account@ == trim(request.account@),
            r.0.password == request.password,
            r.0.secure_cookie == service.secure_cookie,
            r.0.step == LoginStep::FindUser,
            !r.0.password_verified,
            r.0.inv(),
            r.1 == (LoginAction::FindUser { account: r.0.account }),
    {
        let account = trim_str(request.account.as_str()).to_owned();
        let action = LoginAction::FindUser { account: account.clone() };
        let flow = LoginFlow {
            step: LoginStep::FindUser,
            account,
            password: request.password.clone(),
            secure_cookie: service.secure_cookie,
            user_id: String::new(),
            display_name: String::new(),
            tenant_id: String::new(),
            tenant_label: String::new(),
            token: String::new(),
            session_id: String::new(),
            password_verified: false,
        };
        (flow, action)
    }

    /// Takes the store's answer to the last action and says what to do next.
    pub fn step(&mut self, event: LoginEvent) -> (action: LoginAction)
        ensures
            old(self).inv() ==> final(self).inv(),
            // a session is stored only for a password that the stored digest accepted
            old(self).inv() && action is CreateSession ==> old(self).password_verified,
            final(self).password_verified ==> old(self).password_verified || (old(self).step
                == LoginStep::VerifyPassword && event == LoginEvent::PasswordChecked(true)),
            final(self).account == old(self).account,
            final(self).secure_cookie == old(self).secure_cookie,
            match (old(self).step, event) {
                (LoginStep::FindUser, LoginEvent::User(None)) => action == LoginAction::Done(None)
                    && final(self).step == LoginStep::Finished,
                (LoginStep::FindUser, LoginEvent::User(Some(row))) => action == (
                LoginAction::VerifyPassword {
                    password: old(self).password,
                    password_hash: row.password_hash,
                }) && final(self).step == LoginStep::VerifyPassword && final(self).user_id
                    == row.user_id && final(self).display_name == row.display_name
                    && final(self).password_verified == old(self).password_verified,
                (LoginStep::VerifyPassword, LoginEvent::PasswordChecked(false)) => action
                    == LoginAction::Done(None) && final(self).step == LoginStep::Finished,
                (LoginStep::VerifyPassword, LoginEvent::PasswordChecked(true)) => action == (
                LoginAction::FindTenant { user_id: old(self).user_id }) && final(self).step
                    == LoginStep::FindTenant && final(self).password_verified && final(self).user_id
                    == old(self).user_id && final(self).display_name == old(self).display_name,
                (LoginStep::FindTenant, LoginEvent::Tenant(None)) => action == LoginAction::Fail(
                    IdentityError::NoTenant,
                ) && final(self).step == LoginStep::Finished,
                (LoginStep::FindTenant, LoginEvent::Tenant(Some(t))) => is_session_token(
                    final(self).token@,
                ) && final(self).session_id@ == spec_session_id(final(self).token@) && action == (
                LoginAction::CreateSession {
                    session_id: final(self).session_id,
                    user_id: old(self).user_id,
                    tenant_id: t.tenant_id,
                }) && final(self).step == LoginStep::CreateSession
                    && final(self).tenant_id == t.tenant_id
                    && final(self).tenant_label == t.tenant_label
                    && final(self).user_id == old(self).user_id
                    && final(self).display_name == old(self).display_name
                    && final(self).password_verified == old(self).password_verified,
                (LoginStep::CreateSession, LoginEvent::SessionCreated) => action == (
                LoginAction::LoadPermissions {
                    tenant_id: old(self).tenant_id,
                    user_id: old(self).user_id,
                }) && final(self).step == LoginStep::LoadPermissions
                    && final(self).token == old(self).token
                    && final(self).session_id == old(self).session_id
                    && final(self).user_id == old(self).user_id
                    && final(self).display_name == old(self).display_name
                    && final(self).tenant_id == old(self).tenant_id
                    && final(self).tenant_label == old(self).tenant_label,
                (LoginStep::LoadPermissions, LoginEvent::Permissions(p)) => final(self).step
                    == LoginStep::Finished && (action matches LoginAction::Done(Some(res))
                    && res.session == (SessionContext {
                    session_id: old(self).session_id,
                    user_id: old(self).user_id,
                    account: old(self).account,
                    display_name: old(self).display_name,
                    tenant_id: old(self).tenant_id,
                    tenant_label: old(self).tenant_label,
                    permissions: p,
                }) && res.cookie@ == session_cookie_text(old(self).token@, old(self).secure_cookie)),
                _ => action == LoginAction::Fail(IdentityError::UnexpectedEvent) && final(self).step
                    == LoginStep::Finished,
            },
    {
        match (self.step, event) {
            (LoginStep::FindUser, LoginEvent::User(None)) => {
                self.step = LoginStep::Finished;
                LoginAction::Done(None)
            },
            (LoginStep::FindUser, LoginEvent::User(Some(row))) => {
                self.step = LoginStep::VerifyPassword;
                self.user_id = row.user_id;
                self.display_name = row.display_name;
                LoginAction::VerifyPassword {
                    password: self.password.clone(),
                    password_hash: row.password_hash,
                }
            },
            (LoginStep::VerifyPassword, LoginEvent::PasswordChecked(valid)) => {
                if valid {
                    self.step = LoginStep::FindTenant;
                    self.password_verified = true;
                    LoginAction::FindTenant { user_id: self.user_id.clone() }
                } else {
                    self.step = LoginStep::Finished;
                    LoginAction::Done(None)
                }
            },
            (LoginStep::FindTenant, LoginEvent::Tenant(None)) => {
                self.step = LoginStep::Finished;
                LoginAction::Fail(IdentityError::NoTenant)
            },
            (LoginStep::FindTenant, LoginEvent::Tenant(Some(t))) => {
                let token = new_session_token();
                let id = session_id(token.as_str());
                let action = LoginAction::CreateSession {
                    session_id: id.clone(),
                    user_id: self.user_id.clone(),
                    tenant_id: t.tenant_id.clone(),
                };
                self.step = LoginStep::CreateSession;
                self.token = token;
                self.session_id = id;
                self.tenant_id = t.tenant_id;
                self.tenant_label = t.tenant_label;
                action
            },
            (LoginStep::CreateSession, LoginEvent::SessionCreated) => {
                self.step = LoginStep::LoadPermissions;
                LoginAction::LoadPermissions {
                    tenant_id: self.tenant_id.clone(),
                    user_id: self.user_id.clone(),
                }
            },
            (LoginStep::LoadPermissions, LoginEvent::Permissions(p)) => {
                self.step = LoginStep::Finished;
                let service = IdentityService::new(self.secure_cookie, 0);
                let cookie = service.session_cookie(self.token.as_str());
                LoginAction::Done(
                    Some(
                        LoginResult {
                            session: SessionContext {
                                session_id: self.session_id.clone(),
                                user_id: self.user_id.clone(),
                                account: self.account.clone(),
                                display_name: self.display_name.clone(),
                                tenant_id: self.tenant_id.clone(),
                                tenant_label: self.tenant_label.clone(),
                                permissions: p,
                            },
                            cookie,
                        },
                    ),
                )
            },
            _ => {
                self.step = LoginStep::Finished;
                LoginAction::Fail(IdentityError::UnexpectedEvent)
            },
        }
    }
}

/// A client that keeps the session cookie that a sign-in hands out presents, in the
/// `Cookie` header it sends back, the very session that the sign-in stored: the stored id
/// is the digest of the token, and the cookie gives the token back.
pub proof fn issued_session_is_presented(token: Seq<char>, secure: bool)
    requires
        is_session_token(token),
    ensures
        presented_session_id(Some(stored_pair(session_cookie_text(token, secure))))
            == Some(spec_session_id(token)),
        presented_session_id(Some(session_cookie_text(token, secure))) == Some(
            spec_session_id(token),
        ),
{
    assert(!has_char(token, ';')) by {
        if has_char(token, ';') {
            let k = choose|k: int| 0 <= k < token.len() && token[k] == ';';
            assert(is_lower_hex(token[k]));
        }
    }
    assert(is_lower_hex(token[63]));
    session_cookie_round_trip(token, secure);
}

} // verus!
