use vstd::prelude::*;

verus! {

/// Why a registration was refused.
#[derive(Debug, Clone, PartialEq, Eq)]
pub enum RegistrationError {
    /// The request is malformed; the message says how.
    Invalid(String),
    /// Another account already has this name.
    AccountTaken,
    /// Too many registrations are running at once.
    Busy,
}

/// What the identity service reports when it cannot do what was asked.
#[derive(Debug, Clone, PartialEq, Eq)]
pub enum IdentityError {
    /// A request or setting that the service refuses; the message says why.
    Rejected(String),
    /// A refused registration.
    Registration(RegistrationError),
    /// The account belongs to no tenant, so no session can be opened for it.
    NoTenant,
    /// The password could not be hashed.
    PasswordHashing,
    /// An event arrived that does not answer the flow's last action.
    UnexpectedEvent,
}

/// The text that the message of a refused registration shows.
pub open spec fn registration_message(e: RegistrationError) -> Seq<char> {
    match e {
        RegistrationError::Invalid(m) => m@,
        RegistrationError::AccountTaken => "账号已被使用"@,
        RegistrationError::Busy => "注册请求较多，请稍后重试"@,
    }
}

impl RegistrationError {
    /// The message shown for this error.
    pub fn message(&self) -> (m: String)
        ensures
            m@ == registration_message(*self),
    {
        match self {
            RegistrationError::Invalid(m) => m.clone(),
            RegistrationError::AccountTaken => String::from_str("账号已被使用"),
            RegistrationError::Busy => String::from_str("注册请求较多，请稍后重试"),
        }
    }
}

/// The text that the message of an error shows.
pub open spec fn error_message(e: IdentityError) -> Seq<char> {
    match e {
        IdentityError::Rejected(m) => m@,
        IdentityError::Registration(r) => registration_message(r),
        IdentityError::NoTenant => "账号没有可用租户"@,
        IdentityError::PasswordHashing => "密码摘要失败"@,
        IdentityError::UnexpectedEvent => "身份服务收到了意外的结果"@,
    }
}

impl IdentityError {
    /// The message shown for this error.
    pub fn message(&self) -> (m: String)
        ensures
            m@ == error_message(*self),
    {
        match self {
            IdentityError::Rejected(m) => m.clone(),
            IdentityError::Registration(r) => r.message(),
            IdentityError::NoTenant => String::from_str("账号没有可用租户"),
            IdentityError::PasswordHashing => String::from_str("密码摘要失败"),
            IdentityError::UnexpectedEvent => String::from_str("身份服务收到了意外的结果"),
        }
    }
}

} // verus!
