use aio_identity::cookie::{cookie, header_text, COOKIE_NAME};
use aio_identity::error::{IdentityError, RegistrationError};
use aio_identity::password::{hash, verify};
use aio_identity::service::{
    account_chars_ok, platform_permissions, tenant_permissions, IdentityService,
    DEFAULT_PASSWORD_MIN_LENGTH,
};
use aio_identity::session::{new_session_token, session_id, to_hex_lower};
use aio_identity::text::{decimal_string, parse_decimal_at_most, str_equals, trim_str};

#[test]
fn reads_named_cookie_without_accepting_prefixes() {
    let header = Some("other=1; aio_session=secret");
    assert_eq!(cookie(header, COOKIE_NAME), Some("secret"));
    assert_eq!(cookie(header, "session"), None);
}

#[test]
fn hashes_session_token() {
    assert_ne!(session_id("secret"), "secret");
    assert_eq!(session_id("secret"), session_id("secret"));
}

#[test]
fn session_id_is_the_hex_sha256_of_the_token() {
    assert_eq!(
        session_id("secret"),
        "2bb80d537b1da3e38bd30361aa855686bde0eacd7162fef6a25fe97bf527a25b"
    );
    assert_eq!(
        session_id(""),
        "e3b0c44298fc1c149afbf4c8996fb92427ae41e4649b934ca495991b7852b855"
    );
}

#[test]
fn hex_is_two_lower_case_digits_per_byte() {
    assert_eq!(to_hex_lower(&[10, 20, 30]), "0a141e");
    assert_eq!(to_hex_lower(&[0xff, 0x00]), "ff00");
    assert_eq!(to_hex_lower(&[]), "");
}

#[test]
fn cookie_pieces_are_trimmed_and_cut_at_the_first_equals() {
    assert_eq!(cookie(Some("  aio_session=abc  ;x=1"), COOKIE_NAME), Some("abc"));
    assert_eq!(cookie(Some("aio_session= a=b"), COOKIE_NAME), Some(" a=b"));
    assert_eq!(cookie(Some("a=1;aio_session=first; aio_session=second"), COOKIE_NAME), Some("first"));
    assert_eq!(cookie(Some("xaio_session=1; aio_sessionx=2"), COOKIE_NAME), None);
    assert_eq!(cookie(Some("aio_session"), COOKIE_NAME), None);
    assert_eq!(cookie(Some("aio_session="), COOKIE_NAME), Some(""));
    assert_eq!(cookie(Some(""), COOKIE_NAME), None);
    assert_eq!(cookie(Some(";;"), COOKIE_NAME), None);
    assert_eq!(cookie(None, COOKIE_NAME), None);
}

#[test]
fn session_cookie_carries_the_token_with_its_attributes() {
    let secure = IdentityService::new(true, 12);
    let plain = IdentityService::new(false, 12);
    assert_eq!(
        secure.session_cookie("tok"),
        "aio_session=tok; Path=/; HttpOnly; SameSite=Lax; Max-Age=604800; Secure"
    );
    assert_eq!(
        plain.session_cookie("tok"),
        "aio_session=tok; Path=/; HttpOnly; SameSite=Lax; Max-Age=604800"
    );
    assert_eq!(
        secure.expired_cookie(),
        "aio_session=; Path=/; HttpOnly; SameSite=Lax; Max-Age=0; Secure"
    );
    assert_eq!(plain.expired_cookie(), "aio_session=; Path=/; HttpOnly; SameSite=Lax; Max-Age=0");
}

#[test]
fn a_stored_session_cookie_gives_its_token_back() {
    let service = IdentityService::new(true, 12);
    let token = new_session_token();
    assert_eq!(token.len(), 64);
    assert!(token.chars().all(|c| c.is_ascii_hexdigit() && !c.is_ascii_uppercase()));
    let set_cookie = service.session_cookie(&token);
    let pair = set_cookie.split(';').next().unwrap();
    assert_eq!(cookie(Some(pair), COOKIE_NAME), Some(token.as_str()));
    let header = format!("theme=dark; {pair}");
    assert_eq!(cookie(Some(&header), COOKIE_NAME), Some(token.as_str()));
    let expired = service.expired_cookie();
    let pair = expired.split(';').next().unwrap();
    assert_eq!(cookie(Some(pair), COOKIE_NAME), Some(""));
}

#[test]
fn new_session_tokens_differ() {
    assert_ne!(new_session_token(), new_session_token());
}

#[test]
fn hashed_password_verifies() {
    let password = "registration-test-password";
    let h = hash(password).unwrap();
    assert_ne!(h, password);
    assert!(h.starts_with("$argon2"));
    assert!(verify(password, &h));
    assert!(!verify("another-password-entirely", &h));
    assert!(!verify(password, "not a digest"));
    assert_ne!(hash(password).unwrap(), h);
}

#[test]
fn hash_uses_a_generated_salt() {
    let h = hash("").unwrap();
    let fields: Vec<&str> = h.split('$').collect();
    assert_eq!(fields[1], "argon2id");
    let salt = fields[4];
    assert_eq!(salt.len(), 22);
    assert!(salt.chars().all(|c| c.is_ascii_alphanumeric() || c == '+' || c == '/'));
    assert!(matches!(salt.chars().last(), Some('A' | 'Q' | 'g' | 'w')));
    assert!(verify("", &h));
}

#[test]
fn password_rule_counts_characters() {
    let service = IdentityService::new(false, 12);
    assert!(service.validate_password("123456789012", "密码").is_ok());
    assert!(service.validate_password("一二三四五六七八九十一二", "密码").is_ok());
    assert_eq!(
        service.validate_password("short", "密码"),
        Err(IdentityError::Rejected("密码至少需要 12 个字符".to_string()))
    );
    let strict = IdentityService::new(false, 100);
    assert_eq!(
        strict.validate_password("short", "新密码"),
        Err(IdentityError::Rejected("新密码至少需要 100 个字符".to_string()))
    );
}

#[test]
fn settings_decide_cookie_security_and_password_length() {
    let s = IdentityService::from_settings(None, None).unwrap();
    assert!(!s.secure_cookie);
    assert_eq!(s.password_min_length, DEFAULT_PASSWORD_MIN_LENGTH);
    assert!(IdentityService::from_settings(Some("1"), None).unwrap().secure_cookie);
    assert!(IdentityService::from_settings(Some("true"), None).unwrap().secure_cookie);
    assert!(!IdentityService::from_settings(Some("0"), None).unwrap().secure_cookie);
    assert!(!IdentityService::from_settings(Some("false"), None).unwrap().secure_cookie);
    assert_eq!(IdentityService::from_settings(None, Some("8")).unwrap().password_min_length, 8);
    assert_eq!(IdentityService::from_settings(None, Some("128")).unwrap().password_min_length, 128);
    let message = "AIO_PASSWORD_MIN_LENGTH 必须是 8 到 128 之间的整数".to_string();
    for bad in ["7", "129", "", "abc", "12a", "-9", "99999999999999999999"] {
        assert_eq!(
            IdentityService::from_settings(None, Some(bad)).unwrap_err(),
            IdentityError::Rejected(message.clone())
        );
    }
}

#[test]
fn text_helpers() {
    assert_eq!(trim_str("  a b \t\n"), "a b");
    assert_eq!(trim_str("\u{3000}x\u{A0}"), "x");
    assert_eq!(trim_str("   "), "");
    assert!(str_equals("abc", "abc"));
    assert!(!str_equals("abc", "abd"));
    assert_eq!(decimal_string(0), "0");
    assert_eq!(decimal_string(128), "128");
    assert_eq!(parse_decimal_at_most("0128", 200), Some(128));
    assert_eq!(parse_decimal_at_most("201", 200), None);
    assert!(account_chars_ok("first_user-2"));
    assert!(!account_chars_ok("bad user"));
    assert!(!account_chars_ok("账号"));
}

#[test]
fn permission_sets() {
    assert_eq!(tenant_permissions(), vec!["plugin:manage", "rbac:manage", "tenant:manage"]);
    assert_eq!(platform_permissions(), vec!["plugin:manage", "tenant:manage", "rbac:manage"]);
}

#[test]
fn registration_messages() {
    assert_eq!(RegistrationError::AccountTaken.message(), "账号已被使用");
    assert_eq!(RegistrationError::Busy.message(), "注册请求较多，请稍后重试");
    assert_eq!(RegistrationError::Invalid("x".to_string()).message(), "x");
    assert_eq!(IdentityError::NoTenant.message(), "账号没有可用租户");
}

#[test]
fn header_text_reads_only_visible_ascii() {
    assert_eq!(header_text(b"other=1; aio_session=secret").as_deref(), Some("other=1; aio_session=secret"));
    assert_eq!(header_text(b"a=1;\tb=2").as_deref(), Some("a=1;\tb=2"));
    assert_eq!(header_text(b""), Some(String::new()));
    assert_eq!(header_text(b"a=\x7f"), None);
    assert_eq!(header_text(b"a=\n"), None);
    assert_eq!(header_text("a=账".as_bytes()), None);
}
