use vstd::prelude::*;
use vstd::string::StrSliceExecFns;

use crate::error::IdentityError;
use crate::service::{account_chars_ok, all_account_chars, too_short_message, IdentityService};
use crate::session::{is_uuid_text, random_uuid};
use crate::text::{trim, trim_str};

verus! {

/// Where the creation of a user by an administrator stands.
#[derive(Debug, Clone, Copy, PartialEq, Eq)]
pub enum CreateStep {
    HashPassword,
    InsertUser,
    Finished,
}

/// What the creation of a user asks of the store next.
#[derive(Debug)]
pub enum CreateAction {
    /// Hash the initial password (slow, so off the event loop).
    HashPassword { password: String },
    /// In one transaction, add the account and make it a member of the tenant under the
    /// display name.
    InsertUser {
        user_id: String,
        tenant_id: String,
        account: String,
        display_name: String,
        password_hash: String,
    },
    /// The new user's id.
    Done(String),
    Fail(IdentityError),
}

/// What the store answered.
#[derive(Debug)]
pub enum CreateEvent {
    Hashed(Result<String, IdentityError>),
    UserInserted,
}

/// The creation of a user in a tenant by one of its administrators (`create_user`).
#[derive(Debug)]
pub struct CreateUserFlow {
    pub step: CreateStep,
    pub tenant_id: String,
    pub account: String,
    pub display_name: String,
    pub user_id: String,
}

/// The messages that refuse a new user.
pub open spec fn empty_account_message() -> Seq<char> {
    "账号不能为空"@
}

pub open spec fn account_chars_message() -> Seq<char> {
    "账号只能包含字母、数字、连字符和下划线"@
}

pub open spec fn empty_display_name_message() -> Seq<char> {
    "显示名称不能为空"@
}

impl CreateUserFlow {
    fn refuse(message: &str) -> (r: (CreateUserFlow, CreateAction))
        ensures
            r.0.step == CreateStep::Finished,
            r.1 matches CreateAction::Fail(IdentityError::Rejected(m)) && m@ == message@,
    {
        (
            CreateUserFlow {
                step: CreateStep::Finished,
                tenant_id: String::new(),
                account: String::new(),
                display_name: String::new(),
                user_id: String::new(),
            },
            CreateAction::Fail(IdentityError::Rejected(message.to_owned())),
        )
    }

    /// Starts creating the user `account`, shown as `display_name`, in `tenant_id`. Both
    /// names are taken without surrounding white space.
    pub fn start(
        service: &IdentityService,
        tenant_id: &str,
        account: &str,
        display_name: &str,
        password: &str,
    ) -> (r: (CreateUserFlow, CreateAction))
        ensures
            ({
                let a = trim(account@);
                let d = trim(display_name@);
                if a.len() == 0 {
                    r.0.step == CreateStep::Finished && (r.1 matches CreateAction::Fail(
                        IdentityError::Rejected(m),
                    ) && m@ == empty_account_message())
                } else if !all_account_chars(a) {
                    r.0.step == CreateStep::Finished && (r.1 matches CreateAction::Fail(
                        IdentityError::Rejected(m),
                    ) && m@ == account_chars_message())
                } else if d.len() == 0 {
                    r.0.step == CreateStep::Finished && (r.1 matches CreateAction::Fail(
                        IdentityError::Rejected(m),
                    ) && m@ == empty_display_name_message())
                } else if password@.len() < service.password_min_length {
                    r.0.step == CreateStep::Finished && (r.1 matches CreateAction::Fail(
                        IdentityError::Rejected(m),
                    ) && m@ == too_short_message("初始密码"@, service.password_min_length as nat))
                } else {
                    r.0.step == CreateStep::HashPassword && r.0.account@ == a
                        && r.0.display_name@ == d && r.0.tenant_id@ == tenant_id@ && (
                    r.1 matches CreateAction::HashPassword { password: p } && p@ == password@)
                }
            }),
    {
        let account = trim_str(account);
        let display_name = trim_str(display_name);
        if account.unicode_len() == 0 {
            return Self::refuse("账号不能为空");
        }
        if !account_chars_ok(account) {
            return Self::refuse("账号只能包含字母、数字、连字符和下划线");
        }
        if display_name.unicode_len() == 0 {
            return Self::refuse("显示名称不能为空");
        }
        match service.validate_password(password, "初始密码") {
            Err(e) => {
                let flow = CreateUserFlow {
                    step: CreateStep::Finished,
                    tenant_id: String::new(),
                    account: String::new(),
                    display_name: String::new(),
                    user_id: String::new(),
                };
                (flow, CreateAction::Fail(e))
            },
            Ok(()) => {
                let flow = CreateUserFlow {
                    step: CreateStep::HashPassword,
                    tenant_id: tenant_id.to_owned(),
                    account: account.to_owned(),
                    display_name: display_name.to_owned(),
                    user_id: String::new(),
                };
                (flow, CreateAction::HashPassword { password: password.to_owned() })
            },
        }
    }

    /// Takes the store's answer to the last action and says what to do next.
    pub fn step(&mut self, event: CreateEvent) -> (action: CreateAction)
        ensures
            match (old(self).step, event) {
                (CreateStep::HashPassword, CreateEvent::Hashed(Err(e))) => action
                    == CreateAction::Fail(e) && final(self).step == CreateStep::Finished,
                (CreateStep::HashPassword, CreateEvent::Hashed(Ok(h))) => is_uuid_text(
                    final(self).user_id@,
                ) && final(self).step == CreateStep::InsertUser && action == (
                CreateAction::InsertUser {
                    user_id: final(self).user_id,
                    tenant_id: old(self).tenant_id,
                    account: old(self).account,
                    display_name: old(self).display_name,
                    password_hash: h,
                }),
                (CreateStep::InsertUser, CreateEvent::UserInserted) => action == CreateAction::Done(
                    old(self).user_id,
                ) && final(self).step == CreateStep::Finished,
                _ => action == CreateAction::Fail(IdentityError::UnexpectedEvent) && final(self).step
                    == CreateStep::Finished,
            },
    {
        match (self.step, event) {
            (CreateStep::HashPassword, CreateEvent::Hashed(Err(e))) => {
                self.step = CreateStep::Finished;
                CreateAction::Fail(e)
            },
            (CreateStep::HashPassword, CreateEvent::Hashed(Ok(h))) => {
                self.user_id = random_uuid();
                self.step = CreateStep::InsertUser;
                CreateAction::InsertUser {
                    user_id: self.user_id.clone(),
                    tenant_id: self.tenant_id.clone(),
                    account: self.account.clone(),
                    display_name: self.display_name.clone(),
                    password_hash: h,
                }
            },
            (CreateStep::InsertUser, CreateEvent::UserInserted) => {
                self.step = CreateStep::Finished;
                CreateAction::Done(self.user_id.clone())
            },
            _ => {
                self.step = CreateStep::Finished;
                CreateAction::Fail(IdentityError::UnexpectedEvent)
            },
        }
    }
}

} // verus!
