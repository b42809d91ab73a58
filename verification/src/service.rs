use vstd::prelude::*;
use vstd::string::StrSliceExecFns;

use crate::cookie::{expired_cookie_text, session_cookie_text, COOKIE_NAME};
use crate::error::IdentityError;
use crate::text::{chars_of, decimal, decimal_reads_back, decimal_string, digits_value, is_decimal, parse_decimal_at_most, str_equals};

verus! {

/// The shortest password that a service accepts unless told otherwise.
pub const DEFAULT_PASSWORD_MIN_LENGTH: usize = 12;

/// The lowest shortest-password length that a deployment may configure.
pub const LOWEST_PASSWORD_MIN_LENGTH: usize = 8;

/// The highest shortest-password length that a deployment may configure, and the
/// longest password that a registration may choose.
pub const PASSWORD_MAX_LENGTH: usize = 128;

/// The longest account name that a registration may choose.
pub const ACCOUNT_MAX_LENGTH: usize = 64;

/// How many registrations one instance handles at once.
pub const REGISTRATION_SLOTS: usize = 4;

/// The largest registration request body, in bytes.
pub const REGISTRATION_BODY_LIMIT: usize = 16384;

/// The settings that the identity service decides by: whether its cookies are sent over
/// HTTPS only, and how many characters a password must have at least.
#[derive(Debug, Clone, Copy)]
pub struct IdentityService {
    pub secure_cookie: bool,
    pub password_min_length: usize,
}

/// Whether the `AIO_SESSION_SECURE` setting asks for secure cookies: any value but `0`
/// and `false` does; no value does not.
pub open spec fn secure_setting(value: Option<Seq<char>>) -> bool {
    match value {
        None => false,
        Some(v) => v != "0"@ && v != "false"@,
    }
}

/// The shortest password length that the `AIO_PASSWORD_MIN_LENGTH` setting asks for:
/// the default when it is not set; its value when that is a decimal number from 8 to 128;
/// `None`, an error, otherwise.
pub open spec fn min_length_setting(value: Option<Seq<char>>) -> Option<nat> {
    match value {
        None => Some(DEFAULT_PASSWORD_MIN_LENGTH as nat),
        Some(v) => if is_decimal(v) && LOWEST_PASSWORD_MIN_LENGTH <= digits_value(v)
            <= PASSWORD_MAX_LENGTH {
            Some(digits_value(v))
        } else {
            None
        },
    }
}

pub open spec fn opt_view(v: Option<&str>) -> Option<Seq<char>> {
    match v {
        None => None,
        Some(s) => Some(s@),
    }
}

/// The message that refuses a password shorter than `min` characters, `label` naming
/// the password.
pub open spec fn too_short_message(label: Seq<char>, min: nat) -> Seq<char> {
    label + "至少需要 "@ + decimal(min) + " 个字符"@
}

/// The message that refuses a bad `AIO_PASSWORD_MIN_LENGTH` setting.
pub open spec fn min_length_setting_message() -> Seq<char> {
    "AIO_PASSWORD_MIN_LENGTH 必须是 8 到 128 之间的整数"@
}

impl IdentityService {
    /// A service with the given settings.
    pub fn new(secure_cookie: bool, password_min_length: usize) -> (s: IdentityService)
        ensures
            s.secure_cookie == secure_cookie,
            s.password_min_length == password_min_length,
    {
        IdentityService { secure_cookie, password_min_length }
    }

    /// The service that the settings `AIO_SESSION_SECURE` (`secure`) and
    /// `AIO_PASSWORD_MIN_LENGTH` (`min_length`) describe, `None` standing for a setting
    /// that is not there.
    pub fn from_settings(secure: Option<&str>, min_length: Option<&str>) -> (r: Result<
        IdentityService,
        IdentityError,
    >)
        ensures
            min_length_setting(opt_view(min_length)) is Some <==> r is Ok,
            r matches Ok(s) ==> s.secure_cookie == secure_setting(opt_view(secure))
                && s.password_min_length == min_length_setting(opt_view(min_length))->0,
            // cookies are secure for any set value but `0` and `false`
            r matches Ok(s) ==> (s.secure_cookie <==> (secure matches Some(v) && v@ != "0"@
                && v@ != "false"@)),
            r matches Err(e) ==> e matches IdentityError::Rejected(m) && m@
                == min_length_setting_message(),
    {
        let secure_cookie = match secure {
            None => false,
            Some(v) => !str_equals(v, "0") && !str_equals(v, "false"),
        };
        let password_min_length: usize = match min_length {
            None => DEFAULT_PASSWORD_MIN_LENGTH,
            Some(v) => match parse_decimal_at_most(v, PASSWORD_MAX_LENGTH) {
                Some(n) if n >= LOWEST_PASSWORD_MIN_LENGTH => n,
                _ => {
                    return Err(
                        IdentityError::Rejected(
                            String::from_str("AIO_PASSWORD_MIN_LENGTH 必须是 8 到 128 之间的整数"),
                        ),
                    );
                },
            },
        };
        Ok(IdentityService { secure_cookie, password_min_length })
    }

    /// The `Set-Cookie` value that hands the session `token` to the client.
    pub fn session_cookie(&self, token: &str) -> (c: String)
        ensures
            c@ == session_cookie_text(token@, self.secure_cookie),
    {
        let mut c = String::from_str(COOKIE_NAME);
        c.append("=");
        c.append(token);
        c.append("; Path=/; HttpOnly; SameSite=Lax; Max-Age=604800");
        if self.secure_cookie {
            c.append("; Secure");
        }
        proof {
            reveal_strlit("");
        }
        assert(c@ =~= session_cookie_text(token@, self.secure_cookie));
        c
    }

    /// The `Set-Cookie` value that makes the client drop its session cookie.
    pub fn expired_cookie(&self) -> (c: String)
        ensures
            c@ == expired_cookie_text(self.secure_cookie),
    {
        let mut c = String::from_str(COOKIE_NAME);
        c.append("=; Path=/; HttpOnly; SameSite=Lax; Max-Age=0");
        if self.secure_cookie {
            c.append("; Secure");
        }
        assert(c@ =~= expired_cookie_text(self.secure_cookie));
        c
    }

    /// Refuses a password shorter than the service's shortest length, counted in
    /// characters; `label` names the password in the message.
    pub fn validate_password(&self, password: &str, label: &str) -> (r: Result<(), IdentityError>)
        ensures
            r is Ok <==> password@.len() >= self.password_min_length,
            r matches Err(e) ==> e matches IdentityError::Rejected(m) && m@ == too_short_message(
                label@,
                self.password_min_length as nat,
            ),
    {
        if password.unicode_len() >= self.password_min_length {
            return Ok(());
        }
        let mut m = String::from_str(label);
        m.append("至少需要 ");
        let n = decimal_string(self.password_min_length);
        m.append(n.as_str());
        m.append(" 个字符");
        Err(IdentityError::Rejected(m))
    }
}

/// A character that an account name may hold: an ASCII letter or digit, `-` or `_`.
pub open spec fn is_account_char(c: char) -> bool {
    ('a' <= c && c <= 'z') || ('A' <= c && c <= 'Z') || ('0' <= c && c <= '9') || c == '-' || c
        == '_'
}

/// Every character of `s` may stand in an account name.
pub open spec fn all_account_chars(s: Seq<char>) -> bool {
    forall|i: int| 0 <= i < s.len() ==> is_account_char(#[trigger] s[i])
}

/// Whether every character of `s` may stand in an account name.
pub fn account_chars_ok(s: &str) -> (b: bool)
    ensures
        b == all_account_chars(s@),
        // the characters of account names: ASCII digits, upper- and lower-case ASCII
        // letters, `-` and `_`, by code point
        b <==> forall|i: int|
            0 <= i < s@.len() ==> {
                let u = #[trigger] s@[i] as u32;
                (0x30 <= u <= 0x39) || (0x41 <= u <= 0x5A) || (0x61 <= u <= 0x7A) || u == 0x2D
                    || u == 0x5F
            },
{
    let cs = chars_of(s);
    let mut i: usize = 0;
    while i < cs.len()
        invariant
            cs@ == s@,
            i <= cs.len(),
            forall|k: int| 0 <= k < i ==> is_account_char(#[trigger] cs@[k]),
        decreases cs.len() - i,
    {
        let c = cs[i];
        if !(('a' <= c && c <= 'z') || ('A' <= c && c <= 'Z') || ('0' <= c && c <= '9') || c == '-'
            || c == '_') {
            proof {
                account_chars_are_ascii_alphanumerics_hyphen_underscore(c);
                assert(s@[i as int] == c);
            }
            return false;
        }
        i = i + 1;
    }
    proof {
        assert forall|k: int| 0 <= k < s@.len() implies {
            let u = #[trigger] s@[k] as u32;
            (0x30 <= u <= 0x39) || (0x41 <= u <= 0x5A) || (0x61 <= u <= 0x7A) || u == 0x2D || u
                == 0x5F
        } by {
            account_chars_are_ascii_alphanumerics_hyphen_underscore(cs@[k]);
        }
    }
    true
}

/// The strings of `v`, as character sequences.
pub open spec fn string_views(v: Seq<String>) -> Seq<Seq<char>> {
    v.map_values(|s: String| s@)
}

/// A vector of owned copies of `items`.
pub fn owned_strings(items: &[&str]) -> (v: Vec<String>)
    ensures
        v@.len() == items@.len(),
        forall|i: int| 0 <= i < items@.len() ==> #[trigger] v@[i]@ == items@[i]@,
{
    let mut v: Vec<String> = Vec::new();
    for i in 0..items.len()
        invariant
            v@.len() == i,
            forall|k: int| 0 <= k < i ==> #[trigger] v@[k]@ == items@[k]@,
    {
        v.push(items[i].to_owned());
    }
    v
}

/// The permissions of a workspace's administrator, the role that registration gives the
/// new account in its own workspace.
pub open spec fn tenant_admin_permissions() -> Seq<Seq<char>> {
    seq!["plugin:manage"@, "rbac:manage"@, "tenant:manage"@]
}

/// The permissions of the platform administrator that the first start creates.
pub open spec fn platform_admin_permissions() -> Seq<Seq<char>> {
    seq!["plugin:manage"@, "tenant:manage"@, "rbac:manage"@]
}

/// The permissions of a workspace's administrator.
pub fn tenant_permissions() -> (v: Vec<String>)
    ensures
        string_views(v@) == tenant_admin_permissions(),
{
    let v = owned_strings(&["plugin:manage", "rbac:manage", "tenant:manage"]);
    assert(string_views(v@) =~= tenant_admin_permissions());
    v
}

/// The permissions of the platform administrator.
pub fn platform_permissions() -> (v: Vec<String>)
    ensures
        string_views(v@) == platform_admin_permissions(),
{
    let v = owned_strings(&["plugin:manage", "tenant:manage", "rbac:manage"]);
    assert(string_views(v@) =~= platform_admin_permissions());
    v
}

/// The characters that an account name may hold are exactly the ASCII digits, the upper-
/// and lower-case ASCII letters, `-` and `_`.
pub proof fn account_chars_are_ascii_alphanumerics_hyphen_underscore(c: char)
    ensures
        is_account_char(c) <==> {
            let u = c as u32;
            (0x30 <= u <= 0x39) || (0x41 <= u <= 0x5A) || (0x61 <= u <= 0x7A) || u == 0x2D || u
                == 0x5F
        },
{
}

/// Secure cookies are asked for by every value of `AIO_SESSION_SECURE` but `0` and
/// `false`; an unset value does not ask for them.
pub proof fn secure_unless_zero_or_false(v: Seq<char>)
    ensures
        v != "0"@ && v != "false"@ ==> secure_setting(Some(v)),
        !secure_setting(Some("0"@)),
        !secure_setting(Some("false"@)),
        !secure_setting(None),
{
}

/// The shortest password length that a deployment can set: any number from 8 to 128
/// written in decimal is taken as it is, any other number is refused, and without the
/// setting the length is 12.
pub proof fn min_length_setting_range(n: nat)
    ensures
        8 <= n <= 128 ==> min_length_setting(Some(decimal(n))) == Some(n),
        n < 8 || n > 128 ==> min_length_setting(Some(decimal(n))) is None,
        min_length_setting(None) == Some(12nat),
{
    decimal_reads_back(n);
}

/// The administrator of a registered workspace may manage its plugins, its tenant and its
/// roles; so may the platform administrator of the first start.
pub proof fn administrator_permissions()
    ensures
        tenant_admin_permissions().contains("plugin:manage"@),
        tenant_admin_permissions().contains("tenant:manage"@),
        tenant_admin_permissions().contains("rbac:manage"@),
        platform_admin_permissions().contains("plugin:manage"@),
        platform_admin_permissions().contains("tenant:manage"@),
        platform_admin_permissions().contains("rbac:manage"@),
{
    assert(tenant_admin_permissions()[0] == "plugin:manage"@);
    assert(tenant_admin_permissions()[1] == "rbac:manage"@);
    assert(tenant_admin_permissions()[2] == "tenant:manage"@);
    assert(platform_admin_permissions()[0] == "plugin:manage"@);
    assert(platform_admin_permissions()[1] == "tenant:manage"@);
    assert(platform_admin_permissions()[2] == "rbac:manage"@);
}

} // verus!
