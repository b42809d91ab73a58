use vstd::prelude::*;
use vstd::string::StrSliceExecFns;

use crate::cookie::session_cookie_text;
use crate::error::{IdentityError, RegistrationError};
use crate::model::{LoginResult, RegisterRequest, SessionContext};
use crate::service::{
    account_chars_are_ascii_alphanumerics_hyphen_underscore, account_chars_ok, all_account_chars,
    is_account_char, string_views, tenant_admin_permissions,
    tenant_permissions, too_short_message, IdentityService, ACCOUNT_MAX_LENGTH,
    PASSWORD_MAX_LENGTH,
};
use crate::session::{
    is_session_token, is_uuid_text, new_session_token, random_uuid, session_id, spec_session_id,
};
use crate::text::{trim, trim_str};

verus! {

/// An account name that registration accepts: 1 to 64 ASCII letters, digits, `-` or `_`.
pub open spec fn valid_registration_account(a: Seq<char>) -> bool {
    1 <= a.len() <= ACCOUNT_MAX_LENGTH && all_account_chars(a)
}

/// The message that refuses a bad account name.
pub open spec fn account_rule_message() -> Seq<char> {
    "账号需要 1 到 64 位字母、数字、连字符或下划线"@
}

/// The message that refuses a password longer than 128 characters.
pub open spec fn password_too_long_message() -> Seq<char> {
    "密码不能超过 128 个字符"@
}

/// The label of the workspace that a registration creates for `account`.
pub open spec fn workspace_label(account: Seq<char>) -> Seq<char> {
    account + " 的工作区"@
}

/// Where a registration stands.
#[derive(Debug, Clone, Copy, PartialEq, Eq)]
pub enum RegisterStep {
    HashPassword,
    InsertUser,
    CreateWorkspace,
    Finished,
}

/// What a registration asks of the store next.
#[derive(Debug)]
pub enum RegisterAction {
    /// Hash the password (Argon2; slow, so off the event loop).
    HashPassword { password: String },
    /// Open a transaction and add the account, named and displayed as `account`, unless
    /// the name is taken; answer with the number of rows added.
    InsertUser { user_id: String, account: String, password_hash: String },
    /// In the same transaction, add the workspace; make the account its member, shown
    /// by its name, with the role `admin_role`; give that role `permissions` and the role
    /// `member_role` the permission `member_permission`; store the session for seven
    /// days; and commit.
    CreateWorkspace {
        user_id: String,
        account: String,
        tenant_id: String,
        tenant_label: String,
        admin_role: String,
        permissions: Vec<String>,
        member_role: String,
        member_permission: String,
        session_id: String,
    },
    /// The account exists and is signed in.
    Done(LoginResult),
    /// The registration is refused or failed; nothing it began is committed.
    Fail(IdentityError),
}

/// What the store answered.
#[derive(Debug)]
pub enum RegisterEvent {
    Hashed(Result<String, IdentityError>),
    UserInserted(u64),
    WorkspaceCreated,
}

/// The opening of an account by its future owner (`register_account`).
#[derive(Debug)]
pub struct RegisterFlow {
    pub step: RegisterStep,
    pub account: String,
    pub secure_cookie: bool,
    pub user_id: String,
    pub tenant_id: String,
    pub tenant_label: String,
    pub token: String,
    pub session_id: String,
}

impl RegisterFlow {
    fn finished(secure_cookie: bool) -> (f: RegisterFlow)
        ensures
            f.step == RegisterStep::Finished,
            f.secure_cookie == secure_cookie,
    {
        RegisterFlow {
            step: RegisterStep::Finished,
            account: String::new(),
            secure_cookie,
            user_id: String::new(),
            tenant_id: String::new(),
            tenant_label: String::new(),
            token: String::new(),
            session_id: String::new(),
        }
    }

    /// Starts a registration. `slot_free` says whether one of the instance's
    /// registration slots could be taken; without one the request is refused as busy.
    /// The account name is taken without surrounding white space.
    pub fn start(service: &IdentityService, request: &RegisterRequest, slot_free: bool) -> (r: (
        RegisterFlow,
        RegisterAction,
    ))
        ensures
            r.0.secure_cookie == service.secure_cookie,
            !slot_free ==> r.1 == RegisterAction::Fail(
                IdentityError::Registration(RegistrationError::Busy),
            ) && r.0.step == RegisterStep::Finished,
            slot_free && !valid_registration_account(trim(request.account@)) ==> r.0.step
                == RegisterStep::Finished && (r.1 matches RegisterAction::Fail(
                IdentityError::Registration(RegistrationError::Invalid(m)),
            ) && m@ == account_rule_message()),
            slot_free && valid_registration_account(trim(request.account@))
                && request.password@.len() < service.password_min_length ==> r.0.step
                == RegisterStep::Finished && (r.1 matches RegisterAction::Fail(
                IdentityError::Registration(RegistrationError::Invalid(m)),
            ) && m@ == too_short_message("密码"@, service.password_min_length as nat)),
            slot_free && valid_registration_account(trim(request.account@))
                && request.password@.len() >= service.password_min_length
                && request.password@.len() > PASSWORD_MAX_LENGTH ==> r.0.step
                == RegisterStep::Finished && (r.1 matches RegisterAction::Fail(
                IdentityError::Registration(RegistrationError::Invalid(m)),
            ) && m@ == password_too_long_message()),
            // accepted: a name of 1 to 64 ASCII digits, letters, `-` or `_`, and a password
            // from the shortest length to 128 characters
            slot_free && 1 <= trim(request.account@).len() <= 64 && (forall|i: int|
                0 <= i < trim(request.account@).len() ==> {
                    let u = #[trigger] trim(request.account@)[i] as u32;
                    (0x30 <= u <= 0x39) || (0x41 <= u <= 0x5A) || (0x61 <= u <= 0x7A) || u
                        == 0x2D || u == 0x5F
                }) && service.password_min_length <= request.password@.len() <= 128 ==> r.0.step
                == RegisterStep::HashPassword && r.0.account@ == trim(request.account@) && r.1 == (
            RegisterAction::HashPassword { password: request.password }),
            slot_free && valid_registration_account(trim(request.account@))
                && service.password_min_length <= request.password@.len() <= PASSWORD_MAX_LENGTH
                ==> r.0.step == RegisterStep::HashPassword && r.0.account@ == trim(
                request.account@,
            ) && r.1 == (RegisterAction::HashPassword { password: request.password }),
    {
        proof {
            registration_account_rule(trim(request.account@));
        }
        if !slot_free {
            return (
                RegisterFlow::finished(service.secure_cookie),
                RegisterAction::Fail(IdentityError::Registration(RegistrationError::Busy)),
            );
        }
        let account = trim_str(request.account.as_str());
        let n = account.unicode_len();
        if n == 0 || n > ACCOUNT_MAX_LENGTH || !account_chars_ok(account) {
            return (
                RegisterFlow::finished(service.secure_cookie),
                RegisterAction::Fail(
                    IdentityError::Registration(
                        RegistrationError::Invalid(
                            String::from_str("账号需要 1 到 64 位字母、数字、连字符或下划线"),
                        ),
                    ),
                ),
            );
        }
        match service.validate_password(request.password.as_str(), "密码") {
            Err(e) => {
                return (
                    RegisterFlow::finished(service.secure_cookie),
                    RegisterAction::Fail(
                        IdentityError::Registration(RegistrationError::Invalid(e.message())),
                    ),
                );
            },
            Ok(()) => {},
        }
        if request.password.as_str().unicode_len() > PASSWORD_MAX_LENGTH {
            return (
                RegisterFlow::finished(service.secure_cookie),
                RegisterAction::Fail(
                    IdentityError::Registration(
                        RegistrationError::Invalid(String::from_str("密码不能超过 128 个字符")),
                    ),
                ),
            );
        }
        let flow = RegisterFlow {
            step: RegisterStep::HashPassword,
            account: account.to_owned(),
            secure_cookie: service.secure_cookie,
            user_id: String::new(),
            tenant_id: String::new(),
            tenant_label: String::new(),
            token: String::new(),
            session_id: String::new(),
        };
        (flow, RegisterAction::HashPassword { password: request.password.clone() })
    }

    /// Takes the store's answer to the last action and says what to do next.
    pub fn step(&mut self, event: RegisterEvent) -> (action: RegisterAction)
        ensures
            final(self).account == old(self).account,
            final(self).secure_cookie == old(self).secure_cookie,
            // the workspace and the session are created only for an account name that was
            // still free
            action is CreateWorkspace ==> old(self).step == RegisterStep::InsertUser && event
                == RegisterEvent::UserInserted(1),
            match (old(self).step, event) {
                (RegisterStep::HashPassword, RegisterEvent::Hashed(Err(e))) => action
                    == RegisterAction::Fail(e) && final(self).step == RegisterStep::Finished,
                (RegisterStep::HashPassword, RegisterEvent::Hashed(Ok(h))) => final(self).step
                    == RegisterStep::InsertUser && is_uuid_text(final(self).user_id@)
                    && is_uuid_text(final(self).tenant_id@) && is_session_token(final(self).token@)
                    && final(self).session_id@ == spec_session_id(final(self).token@)
                    && final(self).tenant_label@ == workspace_label(old(self).account@) && action
                    == (RegisterAction::InsertUser {
                    user_id: final(self).user_id,
                    account: old(self).account,
                    password_hash: h,
                }),
                (RegisterStep::InsertUser, RegisterEvent::UserInserted(rows)) => if rows != 1 {
                    action == RegisterAction::Fail(
                        IdentityError::Registration(RegistrationError::AccountTaken),
                    ) && final(self).step == RegisterStep::Finished
                } else {
                    *final(self) == (*old(self)).at(RegisterStep::CreateWorkspace) && (
                    action matches RegisterAction::CreateWorkspace {
                        user_id,
                        account,
                        tenant_id,
                        tenant_label,
                        admin_role,
                        permissions,
                        member_role,
                        member_permission,
                        session_id,
                    } && user_id == old(self).user_id && account == old(self).account && tenant_id
                        == old(self).tenant_id && tenant_label == old(self).tenant_label
                        && session_id == old(self).session_id && string_views(permissions@)
                        == tenant_admin_permissions() && admin_role@ == "tenant-admin"@
                        && member_role@ == "member"@ && member_permission@ == "workspace:view"@)
                },
                (RegisterStep::CreateWorkspace, RegisterEvent::WorkspaceCreated) => final(self).step
                    == RegisterStep::Finished && (action matches RegisterAction::Done(res)
                    && res.session.session_id == old(self).session_id && res.session.user_id == old(self).user_id && res.session.account == old(self).account
                    && res.session.display_name == old(self).account && res.session.tenant_id
                    == old(self).tenant_id && res.session.tenant_label == old(self).tenant_label
                    && string_views(res.session.permissions@) == tenant_admin_permissions()
                    && res.cookie@ == session_cookie_text(old(self).token@, old(self).secure_cookie)),
                _ => action == RegisterAction::Fail(IdentityError::UnexpectedEvent) && final(self).step == RegisterStep::Finished,
            },
    {
        match (self.step, event) {
            (RegisterStep::HashPassword, RegisterEvent::Hashed(Err(e))) => {
                self.step = RegisterStep::Finished;
                RegisterAction::Fail(e)
            },
            (RegisterStep::HashPassword, RegisterEvent::Hashed(Ok(h))) => {
                let user_id = random_uuid();
                let tenant_id = random_uuid();
                let token = new_session_token();
                let id = session_id(token.as_str());
                let mut label = self.account.clone();
                label.append(" 的工作区");
                self.step = RegisterStep::InsertUser;
                self.user_id = user_id;
                self.tenant_id = tenant_id;
                self.tenant_label = label;
                self.token = token;
                self.session_id = id;
                RegisterAction::InsertUser {
                    user_id: self.user_id.clone(),
                    account: self.account.clone(),
                    password_hash: h,
                }
            },
            (RegisterStep::InsertUser, RegisterEvent::UserInserted(rows)) => {
                if rows != 1 {
                    self.step = RegisterStep::Finished;
                    RegisterAction::Fail(IdentityError::Registration(RegistrationError::AccountTaken))
                } else {
                    self.step = RegisterStep::CreateWorkspace;
                    RegisterAction::CreateWorkspace {
                        user_id: self.user_id.clone(),
                        account: self.account.clone(),
                        tenant_id: self.tenant_id.clone(),
                        tenant_label: self.tenant_label.clone(),
                        admin_role: String::from_str("tenant-admin"),
                        permissions: tenant_permissions(),
                        member_role: String::from_str("member"),
                        member_permission: String::from_str("workspace:view"),
                        session_id: self.session_id.clone(),
                    }
                }
            },
            (RegisterStep::CreateWorkspace, RegisterEvent::WorkspaceCreated) => {
                self.step = RegisterStep::Finished;
                let service = IdentityService::new(self.secure_cookie, 0);
                let cookie = service.session_cookie(self.token.as_str());
                RegisterAction::Done(
                    LoginResult {
                        session: SessionContext {
                            session_id: self.session_id.clone(),
                            user_id: self.user_id.clone(),
                            account: self.account.clone(),
                            display_name: self.account.clone(),
                            tenant_id: self.tenant_id.clone(),
                            tenant_label: self.tenant_label.clone(),
                            permissions: tenant_permissions(),
                        },
                        cookie,
                    },
                )
            },
            _ => {
                self.step = RegisterStep::Finished;
                RegisterAction::Fail(IdentityError::UnexpectedEvent)
            },
        }
    }

    /// This flow, moved to `step`.
    pub open spec fn at(self, step: RegisterStep) -> RegisterFlow {
        RegisterFlow { step, ..self }
    }
}

/// A registration never joins the shared `default` tenant: the workspace it creates has a
/// fresh UUID for its id.
pub proof fn registered_workspace_is_not_default(tenant_id: Seq<char>)
    requires
        is_uuid_text(tenant_id),
    ensures
        tenant_id != "default"@,
{
    reveal_strlit("default");
}

/// The account names that registration accepts are exactly those of 1 to 64 characters,
/// each an ASCII digit, an upper- or lower-case ASCII letter, `-` or `_`.
pub proof fn registration_account_rule(a: Seq<char>)
    ensures
        valid_registration_account(a) <==> 1 <= a.len() <= 64 && forall|i: int|
            0 <= i < a.len() ==> {
                let u = #[trigger] a[i] as u32;
                (0x30 <= u <= 0x39) || (0x41 <= u <= 0x5A) || (0x61 <= u <= 0x7A) || u == 0x2D
                    || u == 0x5F
            },
{
    assert forall|i: int| 0 <= i < a.len() implies (is_account_char(#[trigger] a[i]) <==> {
        let u = a[i] as u32;
        (0x30 <= u <= 0x39) || (0x41 <= u <= 0x5A) || (0x61 <= u <= 0x7A) || u == 0x2D || u
            == 0x5F
    }) by {
        account_chars_are_ascii_alphanumerics_hyphen_underscore(a[i]);
    }
}

} // verus!
