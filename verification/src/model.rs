use vstd::prelude::*;

verus! {

/// A sign-in request.
#[derive(Debug, Clone)]
pub struct LoginRequest {
    pub account: String,
    pub password: String,
}

/// A request to change one's own password.
#[derive(Debug, Clone)]
pub struct PasswordRequest {
    pub current_password: String,
    pub new_password: String,
}

/// A request to open a new account.
#[derive(Debug, Clone)]
pub struct RegisterRequest {
    pub account: String,
    pub password: String,
}

/// What a client is told of its session: everything but the session's id.
#[derive(Debug, Clone)]
pub struct SessionView {
    pub user_id: String,
    pub account: String,
    pub display_name: String,
    pub tenant_id: String,
    pub tenant_label: String,
    pub permissions: Vec<String>,
}

/// A signed-in session: who it belongs to, the tenant it works in, and what it may do
/// there.
#[derive(Debug, Clone)]
pub struct SessionContext {
    pub session_id: String,
    pub user_id: String,
    pub account: String,
    pub display_name: String,
    pub tenant_id: String,
    pub tenant_label: String,
    pub permissions: Vec<String>,
}

/// A session that has just been opened, with the `Set-Cookie` value that hands it to the
/// client.
#[derive(Debug)]
pub struct LoginResult {
    pub session: SessionContext,
    pub cookie: String,
}

/// The stored account that a sign-in names.
#[derive(Debug, Clone)]
pub struct UserRow {
    pub user_id: String,
    pub display_name: String,
    pub password_hash: String,
}

/// A tenant that an account belongs to.
#[derive(Debug, Clone)]
pub struct TenantRow {
    pub tenant_id: String,
    pub tenant_label: String,
}

/// A stored, unexpired session, joined with its account and tenant.
#[derive(Debug, Clone)]
pub struct SessionRow {
    pub user_id: String,
    pub account: String,
    pub display_name: String,
    pub tenant_id: String,
    pub tenant_label: String,
}

/// A copy of `v` with the same strings in the same order.
pub fn clone_strings(v: &Vec<String>) -> (r: Vec<String>)
    ensures
        r@ == v@,
{
    let mut r: Vec<String> = Vec::new();
    for i in 0..v.len()
        invariant
            r@ == v@.take(i as int),
    {
        r.push(v[i].clone());
        assert(r@ =~= v@.take(i + 1));
    }
    assert(v@.take(v.len() as int) =~= v@);
    r
}

impl SessionContext {
    /// What the client is told of this session.
    pub fn view(&self) -> (v: SessionView)
        ensures
            v.user_id == self.user_id,
            v.account == self.account,
            v.display_name == self.display_name,
            v.tenant_id == self.tenant_id,
            v.tenant_label == self.tenant_label,
            v.permissions@ == self.permissions@,
    {
        SessionView {
            user_id: self.user_id.clone(),
            account: self.account.clone(),
            display_name: self.display_name.clone(),
            tenant_id: self.tenant_id.clone(),
            tenant_label: self.tenant_label.clone(),
            permissions: clone_strings(&self.permissions),
        }
    }
}

} // verus!
