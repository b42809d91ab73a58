use vstd::prelude::*;

use crate::error::IdentityError;
use crate::service::{
    platform_admin_permissions, platform_permissions, string_views, too_short_message,
    IdentityService,
};
use crate::session::{is_uuid_text, random_uuid};
use crate::text::str_equals;

verus! {

/// The settings that the first start reads: `AIO_BOOTSTRAP_ACCOUNT`,
/// `AIO_BOOTSTRAP_PASSWORD` and `AIO_ALLOW_INSECURE_BOOTSTRAP`, `None` for one not set.
#[derive(Debug, Clone)]
pub struct BootstrapSettings {
    pub account: Option<String>,
    pub password: Option<String>,
    pub allow_insecure: Option<String>,
}

/// The account name of the first administrator when none is configured.
pub open spec fn default_admin_account() -> Seq<char> {
    "admin"@
}

/// The password that local development may fall back to.
pub open spec fn development_password() -> Seq<char> {
    "aio-dev-password"@
}

/// The message that refuses a first start without a password.
pub open spec fn missing_password_message() -> Seq<char> {
    "首次启动必须配置 AIO_BOOTSTRAP_PASSWORD"@
}

/// The password of the first administrator: the configured one; else the development
/// password when insecure bootstrapping is allowed by the exact value `1`; else none.
pub open spec fn bootstrap_password(s: BootstrapSettings) -> Option<Seq<char>> {
    match s.password {
        Some(p) => Some(p@),
        None => match s.allow_insecure {
            Some(a) => if a@ == "1"@ {
                Some(development_password())
            } else {
                None
            },
            None => None,
        },
    }
}

/// The account name of the first administrator.
pub open spec fn bootstrap_account(s: BootstrapSettings) -> Seq<char> {
    match s.account {
        Some(a) => a@,
        None => default_admin_account(),
    }
}

/// Where the first start stands.
#[derive(Debug, Clone, Copy, PartialEq, Eq)]
pub enum BootstrapStep {
    CountUsers,
    HashPassword,
    SeedAdministrator,
    Finished,
}

/// What the first start asks of the store next.
#[derive(Debug)]
pub enum BootstrapAction {
    /// Count the accounts.
    CountUsers,
    /// Hash the administrator's password.
    HashPassword { password: String },
    /// In one transaction: add the administrator; add the tenant `tenant_id` labelled
    /// `tenant_label` if it is not there; make the administrator its member shown as
    /// `display_name`, with the role `role`; and give that role `permissions`.
    SeedAdministrator {
        user_id: String,
        account: String,
        display_name: String,
        password_hash: String,
        tenant_id: String,
        tenant_label: String,
        role: String,
        permissions: Vec<String>,
    },
    /// Nothing more to do.
    Done,
    Fail(IdentityError),
}

/// What the store answered.
#[derive(Debug)]
pub enum BootstrapEvent {
    UserCount(i64),
    Hashed(Result<String, IdentityError>),
    AdministratorSeeded,
}

/// The seeding of the platform administrator on the first start, when there are no
/// accounts yet (`bootstrap`).
#[derive(Debug)]
pub struct BootstrapFlow {
    pub step: BootstrapStep,
    pub service: IdentityService,
    pub settings: BootstrapSettings,
    pub account: String,
}

impl BootstrapFlow {
    /// Starts the first-start check with the settings that were read.
    pub fn start(service: &IdentityService, settings: BootstrapSettings) -> (r: (
        BootstrapFlow,
        BootstrapAction,
    ))
        ensures
            r.0.step == BootstrapStep::CountUsers,
            r.0.service == *service,
            r.0.settings == settings,
            r.1 == BootstrapAction::CountUsers,
    {
        (
            BootstrapFlow {
                step: BootstrapStep::CountUsers,
                service: *service,
                settings,
                account: String::new(),
            },
            BootstrapAction::CountUsers,
        )
    }

    /// Takes the store's answer to the last action and says what to do next.
    pub fn step(&mut self, event: BootstrapEvent) -> (action: BootstrapAction)
        ensures
            final(self).service == old(self).service,
            final(self).settings == old(self).settings,
            // a configured password is the administrator's, whatever else is set
            old(self).step == BootstrapStep::CountUsers && (event matches BootstrapEvent::UserCount(
                n,
            ) && n <= 0) && (old(self).settings.password matches Some(p) && p@.len()
                >= old(self).service.password_min_length) ==> (action matches BootstrapAction::HashPassword {
                password,
            } && old(self).settings.password matches Some(p) && password@ == p@),
            // an administrator is seeded only into an empty store
            action is HashPassword ==> (event matches BootstrapEvent::UserCount(n) && n <= 0),
            match (old(self).step, event) {
                (BootstrapStep::CountUsers, BootstrapEvent::UserCount(n)) => if n > 0 {
                    action == BootstrapAction::Done && final(self).step == BootstrapStep::Finished
                } else {
                    match bootstrap_password(old(self).settings) {
                        None => final(self).step == BootstrapStep::Finished && (
                        action matches BootstrapAction::Fail(IdentityError::Rejected(m))
                            && m@ == missing_password_message()),
                        Some(p) => if p.len() < old(self).service.password_min_length {
                            final(self).step == BootstrapStep::Finished && (
                            action matches BootstrapAction::Fail(IdentityError::Rejected(m))
                                && m@ == too_short_message(
                                "初始密码"@,
                                old(self).service.password_min_length as nat,
                            ))
                        } else {
                            final(self).step == BootstrapStep::HashPassword && final(self).account@ == bootstrap_account(old(self).settings) && (
                            action matches BootstrapAction::HashPassword { password }
                                && password@ == p)
                        },
                    }
                },
                (BootstrapStep::HashPassword, BootstrapEvent::Hashed(Err(e))) => action
                    == BootstrapAction::Fail(e) && final(self).step == BootstrapStep::Finished,
                (BootstrapStep::HashPassword, BootstrapEvent::Hashed(Ok(h))) => final(self).step
                    == BootstrapStep::SeedAdministrator && (action matches BootstrapAction::SeedAdministrator {
                    user_id,
                    account,
                    display_name,
                    password_hash,
                    tenant_id,
                    tenant_label,
                    role,
                    permissions,
                } && is_uuid_text(user_id@) && account == old(self).account && display_name@
                    == "平台管理员"@ && password_hash == h && tenant_id@ == "default"@
                    && tenant_label@ == "默认租户"@ && role@ == "platform-admin"@ && string_views(
                    permissions@,
                ) == platform_admin_permissions()),
                (BootstrapStep::SeedAdministrator, BootstrapEvent::AdministratorSeeded) => action
                    == BootstrapAction::Done && final(self).step == BootstrapStep::Finished,
                _ => action == BootstrapAction::Fail(IdentityError::UnexpectedEvent) && final(self).step == BootstrapStep::Finished,
            },
    {
        proof {
            first_start_password(self.settings);
        }
        match (self.step, event) {
            (BootstrapStep::CountUsers, BootstrapEvent::UserCount(n)) => {
                if n > 0 {
                    self.step = BootstrapStep::Finished;
                    return BootstrapAction::Done;
                }
                let password: String = match &self.settings.password {
                    Some(p) => p.clone(),
                    None => {
                        let allowed = match &self.settings.allow_insecure {
                            Some(a) => str_equals(a.as_str(), "1"),
                            None => false,
                        };
                        if allowed {
                            String::from_str("aio-dev-password")
                        } else {
                            self.step = BootstrapStep::Finished;
                            return BootstrapAction::Fail(
                                IdentityError::Rejected(
                                    String::from_str("首次启动必须配置 AIO_BOOTSTRAP_PASSWORD"),
                                ),
                            );
                        }
                    },
                };
                match self.service.validate_password(password.as_str(), "初始密码") {
                    Err(e) => {
                        self.step = BootstrapStep::Finished;
                        BootstrapAction::Fail(e)
                    },
                    Ok(()) => {
                        self.account = match &self.settings.account {
                            Some(a) => a.clone(),
                            None => String::from_str("admin"),
                        };
                        self.step = BootstrapStep::HashPassword;
                        BootstrapAction::HashPassword { password }
                    },
                }
            },
            (BootstrapStep::HashPassword, BootstrapEvent::Hashed(Err(e))) => {
                self.step = BootstrapStep::Finished;
                BootstrapAction::Fail(e)
            },
            (BootstrapStep::HashPassword, BootstrapEvent::Hashed(Ok(h))) => {
                self.step = BootstrapStep::SeedAdministrator;
                BootstrapAction::SeedAdministrator {
                    user_id: random_uuid(),
                    account: self.account.clone(),
                    display_name: String::from_str("平台管理员"),
                    password_hash: h,
                    tenant_id: String::from_str("default"),
                    tenant_label: String::from_str("默认租户"),
                    role: String::from_str("platform-admin"),
                    permissions: platform_permissions(),
                }
            },
            (BootstrapStep::SeedAdministrator, BootstrapEvent::AdministratorSeeded) => {
                self.step = BootstrapStep::Finished;
                BootstrapAction::Done
            },
            _ => {
                self.step = BootstrapStep::Finished;
                BootstrapAction::Fail(IdentityError::UnexpectedEvent)
            },
        }
    }
}

/// The first administrator's password: a configured `AIO_BOOTSTRAP_PASSWORD` always,
/// whatever `AIO_ALLOW_INSECURE_BOOTSTRAP` holds; without one, `aio-dev-password` exactly
/// when insecure bootstrapping is allowed by the value `1`; otherwise there is none.
pub proof fn first_start_password(s: BootstrapSettings)
    ensures
        s.password matches Some(p) ==> bootstrap_password(s) == Some(p@),
        s.password is None && (s.allow_insecure matches Some(a) && a@ == "1"@) ==> bootstrap_password(
            s,
        ) == Some("aio-dev-password"@),
        s.password is None && !(s.allow_insecure matches Some(a) && a@ == "1"@) ==> bootstrap_password(
            s,
        ) is None,
{
}

} // verus!
