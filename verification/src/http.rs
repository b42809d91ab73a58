use vstd::prelude::*;

use crate::error::{error_message, IdentityError, RegistrationError};
use crate::model::{LoginResult, SessionContext};

verus! {

/// `200 OK`.
pub const STATUS_OK: u16 = 200;

/// `201 Created`: a registration succeeded.
pub const STATUS_CREATED: u16 = 201;

/// `204 No Content`: a sign-out or a change of password succeeded.
pub const STATUS_NO_CONTENT: u16 = 204;

/// `400 Bad Request`.
pub const STATUS_BAD_REQUEST: u16 = 400;

/// `401 Unauthorized`.
pub const STATUS_UNAUTHORIZED: u16 = 401;

/// `409 Conflict`.
pub const STATUS_CONFLICT: u16 = 409;

/// `429 Too Many Requests`.
pub const STATUS_TOO_MANY_REQUESTS: u16 = 429;

/// `500 Internal Server Error`.
pub const STATUS_INTERNAL_SERVER_ERROR: u16 = 500;

/// The status that answers an error: a malformed registration is a bad request, a taken
/// account name a conflict, a busy registration too many requests; anything else is the
/// server's failure.
pub open spec fn error_status(e: IdentityError) -> u16 {
    match e {
        IdentityError::Registration(RegistrationError::Invalid(_)) => STATUS_BAD_REQUEST,
        IdentityError::Registration(RegistrationError::AccountTaken) => STATUS_CONFLICT,
        IdentityError::Registration(RegistrationError::Busy) => STATUS_TOO_MANY_REQUESTS,
        _ => STATUS_INTERNAL_SERVER_ERROR,
    }
}

/// An error answer of the identity API: a status and the message of its body.
#[derive(Debug)]
pub struct IdentityHttpError {
    pub status: u16,
    pub message: String,
}

impl IdentityHttpError {
    /// A `401 Unauthorized` answer with `message`.
    pub fn unauthorized(message: &str) -> (e: IdentityHttpError)
        ensures
            e.status == STATUS_UNAUTHORIZED,
            e.message@ == message@,
    {
        IdentityHttpError { status: STATUS_UNAUTHORIZED, message: message.to_owned() }
    }

    /// The answer to an error of the service.
    pub fn from_error(error: &IdentityError) -> (e: IdentityHttpError)
        ensures
            e.status == error_status(*error),
            e.message@ == error_message(*error),
    {
        let status: u16 = match error {
            IdentityError::Registration(RegistrationError::Invalid(_)) => STATUS_BAD_REQUEST,
            IdentityError::Registration(RegistrationError::AccountTaken) => STATUS_CONFLICT,
            IdentityError::Registration(RegistrationError::Busy) => STATUS_TOO_MANY_REQUESTS,
            _ => STATUS_INTERNAL_SERVER_ERROR,
        };
        IdentityHttpError { status, message: error.message() }
    }

    /// A `500 Internal Server Error` answer for a failure outside the service's own rules
    /// (the store, a task), with its message.
    pub fn internal(message: String) -> (e: IdentityHttpError)
        ensures
            e.status == STATUS_INTERNAL_SERVER_ERROR,
            e.message == message,
    {
        IdentityHttpError { status: STATUS_INTERNAL_SERVER_ERROR, message }
    }
}

/// The answer to a sign-in: the new session, or `401` for a wrong account or password.
pub fn login_answer(result: Option<LoginResult>) -> (r: Result<LoginResult, IdentityHttpError>)
    ensures
        match result {
            Some(s) => r == Ok::<LoginResult, IdentityHttpError>(s),
            None => r matches Err(e) && e.status == STATUS_UNAUTHORIZED && e.message@
                == "账号或密码错误"@,
        },
{
    match result {
        Some(s) => Ok(s),
        None => Err(IdentityHttpError::unauthorized("账号或密码错误")),
    }
}

/// The answer to a request that needs a session: the session, or `401` when the
/// request presents none that is valid.
pub fn session_answer(session: Option<SessionContext>) -> (r: Result<
    SessionContext,
    IdentityHttpError,
>)
    ensures
        match session {
            Some(s) => r == Ok::<SessionContext, IdentityHttpError>(s),
            None => r matches Err(e) && e.status == STATUS_UNAUTHORIZED && e.message@
                == "会话无效或已过期"@,
        },
{
    match session {
        Some(s) => Ok(s),
        None => Err(IdentityHttpError::unauthorized("会话无效或已过期")),
    }
}

/// The answer to a change of password: `204`, or `401` for a wrong current password.
pub fn password_change_answer(changed: bool) -> (r: Result<u16, IdentityHttpError>)
    ensures
        changed ==> r == Ok::<u16, IdentityHttpError>(STATUS_NO_CONTENT),
        !changed ==> (r matches Err(e) && e.status == STATUS_UNAUTHORIZED && e.message@
            == "当前密码错误"@),
{
    if changed {
        Ok(STATUS_NO_CONTENT)
    } else {
        Err(IdentityHttpError::unauthorized("当前密码错误"))
    }
}

/// How refused registrations are answered: a malformed request with `400` and its
/// message, a taken account name with `409` and "账号已被使用", a busy instance with `429`.
pub proof fn refused_registration_answers(message: String)
    ensures
        error_status(IdentityError::Registration(RegistrationError::Invalid(message)))
            == STATUS_BAD_REQUEST,
        error_message(IdentityError::Registration(RegistrationError::Invalid(message)))
            == message@,
        error_status(IdentityError::Registration(RegistrationError::AccountTaken))
            == STATUS_CONFLICT,
        error_message(IdentityError::Registration(RegistrationError::AccountTaken))
            == "账号已被使用"@,
        error_status(IdentityError::Registration(RegistrationError::Busy))
            == STATUS_TOO_MANY_REQUESTS,
{
}

} // verus!
