use aio_identity::client::{
    password_change_request, profile_view, IdentityPlugin, LoginForm, ProfileView, RegistrationForm,
};
use aio_identity::error::{IdentityError, RegistrationError};
use aio_identity::flows::authenticate::{session_to_end, AuthAction, AuthEvent, AuthFlow, AuthStep};
use aio_identity::flows::bootstrap::{
    BootstrapAction, BootstrapEvent, BootstrapFlow, BootstrapSettings, BootstrapStep,
};
use aio_identity::flows::change_password::{ChangeAction, ChangeEvent, ChangePasswordFlow};
use aio_identity::flows::create_user::{CreateAction, CreateEvent, CreateUserFlow};
use aio_identity::flows::login::{LoginAction, LoginEvent, LoginFlow, LoginStep};
use aio_identity::flows::register::{RegisterAction, RegisterEvent, RegisterFlow, RegisterStep};
use aio_identity::flows::tenant::{SwitchAction, SwitchEvent, SwitchTenantFlow};
use aio_identity::http::{
    login_answer, password_change_answer, session_answer, IdentityHttpError, STATUS_BAD_REQUEST,
    STATUS_CONFLICT, STATUS_INTERNAL_SERVER_ERROR, STATUS_NO_CONTENT, STATUS_TOO_MANY_REQUESTS,
    STATUS_UNAUTHORIZED,
};
use aio_identity::model::{
    LoginRequest, PasswordRequest, RegisterRequest, SessionContext, SessionRow, TenantRow, UserRow,
};
use aio_identity::service::IdentityService;
use aio_identity::cookie::{cookie, COOKIE_NAME};
use aio_identity::session::session_id;

fn service() -> IdentityService {
    IdentityService::new(true, 12)
}

fn register(account: &str, password: &str) -> (RegisterFlow, RegisterAction) {
    let request = RegisterRequest { account: account.to_string(), password: password.to_string() };
    RegisterFlow::start(&service(), &request, true)
}

fn invalid(action: RegisterAction) -> String {
    match action {
        RegisterAction::Fail(IdentityError::Registration(RegistrationError::Invalid(m))) => m,
        other => panic!("expected an invalid registration, got {other:?}"),
    }
}

#[test]
fn registration_refuses_bad_requests_before_storing() {
    assert_eq!(invalid(register("bad user", "registration-test-password").1), "账号需要 1 到 64 位字母、数字、连字符或下划线");
    assert_eq!(invalid(register("   ", "registration-test-password").1), "账号需要 1 到 64 位字母、数字、连字符或下划线");
    assert_eq!(invalid(register(&"a".repeat(65), "registration-test-password").1), "账号需要 1 到 64 位字母、数字、连字符或下划线");
    assert_eq!(invalid(register("账号", "registration-test-password").1), "账号需要 1 到 64 位字母、数字、连字符或下划线");
    assert_eq!(invalid(register("weak", "short").1), "密码至少需要 12 个字符");
    assert_eq!(invalid(register("large", &"x".repeat(129)).1), "密码不能超过 128 个字符");
    let request = RegisterRequest { account: "busy".to_string(), password: "registration-test-password".to_string() };
    let (flow, action) = RegisterFlow::start(&service(), &request, false);
    assert_eq!(flow.step, RegisterStep::Finished);
    assert!(matches!(action, RegisterAction::Fail(IdentityError::Registration(RegistrationError::Busy))));
    let (_, action) = register(&"a".repeat(64), &"x".repeat(128));
    assert!(matches!(action, RegisterAction::HashPassword { .. }));
}

#[test]
fn registration_creates_a_workspace_and_signs_in() {
    let (mut flow, action) = register(" first_user ", "registration-test-password");
    match action {
        RegisterAction::HashPassword { password } => assert_eq!(password, "registration-test-password"),
        other => panic!("{other:?}"),
    }
    assert_eq!(flow.account, "first_user");
    let action = flow.step(RegisterEvent::Hashed(Ok("digest".to_string())));
    let user_id = match action {
        RegisterAction::InsertUser { user_id, account, password_hash } => {
            assert_eq!(account, "first_user");
            assert_eq!(password_hash, "digest");
            assert_eq!(user_id.len(), 36);
            user_id
        }
        other => panic!("{other:?}"),
    };
    let action = flow.step(RegisterEvent::UserInserted(1));
    let (tenant_id, session) = match action {
        RegisterAction::CreateWorkspace {
            user_id: u,
            account,
            tenant_id,
            tenant_label,
            admin_role,
            permissions,
            member_role,
            member_permission,
            session_id,
        } => {
            assert_eq!(u, user_id);
            assert_eq!((admin_role.as_str(), member_role.as_str(), member_permission.as_str()), ("tenant-admin", "member", "workspace:view"));
            assert_eq!(account, "first_user");
            assert_eq!(tenant_label, "first_user 的工作区");
            assert_ne!(tenant_id, "default");
            assert!(permissions.contains(&"plugin:manage".to_string()));
            (tenant_id, session_id)
        }
        other => panic!("{other:?}"),
    };
    let result = match flow.step(RegisterEvent::WorkspaceCreated) {
        RegisterAction::Done(result) => result,
        other => panic!("{other:?}"),
    };
    assert_eq!(result.session.account, "first_user");
    assert_eq!(result.session.display_name, "first_user");
    assert_eq!(result.session.tenant_id, tenant_id);
    assert_eq!(result.session.session_id, session);
    assert!(result.cookie.contains("HttpOnly") && result.cookie.contains("Secure") && result.cookie.contains("SameSite=Lax"));
    let pair = result.cookie.split(';').next().unwrap();
    let token = cookie(Some(pair), COOKIE_NAME).unwrap();
    assert_eq!(session_id(token), session);
    assert_eq!(flow.step, RegisterStep::Finished);
}

#[test]
fn registration_of_a_taken_account_is_a_conflict() {
    let (mut flow, _) = register("first_user", "registration-test-password");
    flow.step(RegisterEvent::Hashed(Ok("digest".to_string())));
    let action = flow.step(RegisterEvent::UserInserted(0));
    let error = match action {
        RegisterAction::Fail(e) => e,
        other => panic!("{other:?}"),
    };
    assert_eq!(error, IdentityError::Registration(RegistrationError::AccountTaken));
    let answer = IdentityHttpError::from_error(&error);
    assert_eq!(answer.status, STATUS_CONFLICT);
    assert_eq!(answer.message, "账号已被使用");
    assert!(matches!(flow.step(RegisterEvent::WorkspaceCreated), RegisterAction::Fail(IdentityError::UnexpectedEvent)));
}

#[test]
fn registration_errors_have_their_statuses() {
    let bad = IdentityHttpError::from_error(&IdentityError::Registration(RegistrationError::Invalid("m".to_string())));
    assert_eq!((bad.status, bad.message.as_str()), (STATUS_BAD_REQUEST, "m"));
    let busy = IdentityHttpError::from_error(&IdentityError::Registration(RegistrationError::Busy));
    assert_eq!(busy.status, STATUS_TOO_MANY_REQUESTS);
    let other = IdentityHttpError::from_error(&IdentityError::NoTenant);
    assert_eq!((other.status, other.message.as_str()), (STATUS_INTERNAL_SERVER_ERROR, "账号没有可用租户"));
    let hashing = IdentityHttpError::from_error(&IdentityError::PasswordHashing);
    assert_eq!(hashing.status, STATUS_INTERNAL_SERVER_ERROR);
}

fn user_row() -> UserRow {
    UserRow { user_id: "u1".to_string(), display_name: "First".to_string(), password_hash: "h".to_string() }
}

#[test]
fn login_opens_a_session_only_for_the_right_password() {
    let request = LoginRequest { account: "  first_user\t".to_string(), password: "pw".to_string() };
    let (mut flow, action) = LoginFlow::start(&service(), &request);
    match action {
        LoginAction::FindUser { account } => assert_eq!(account, "first_user"),
        other => panic!("{other:?}"),
    }
    match flow.step(LoginEvent::User(Some(user_row()))) {
        LoginAction::VerifyPassword { password, password_hash } => {
            assert_eq!(password, "pw");
            assert_eq!(password_hash, "h");
        }
        other => panic!("{other:?}"),
    }
    match flow.step(LoginEvent::PasswordChecked(true)) {
        LoginAction::FindTenant { user_id } => assert_eq!(user_id, "u1"),
        other => panic!("{other:?}"),
    }
    let stored = match flow.step(LoginEvent::Tenant(Some(TenantRow { tenant_id: "default".to_string(), tenant_label: "默认租户".to_string() }))) {
        LoginAction::CreateSession { session_id, user_id, tenant_id } => {
            assert_eq!(user_id, "u1");
            assert_eq!(tenant_id, "default");
            session_id
        }
        other => panic!("{other:?}"),
    };
    match flow.step(LoginEvent::SessionCreated) {
        LoginAction::LoadPermissions { tenant_id, user_id } => assert_eq!((tenant_id.as_str(), user_id.as_str()), ("default", "u1")),
        other => panic!("{other:?}"),
    }
    let result = match flow.step(LoginEvent::Permissions(vec!["plugin:manage".to_string()])) {
        LoginAction::Done(Some(r)) => r,
        other => panic!("{other:?}"),
    };
    assert_eq!(result.session.session_id, stored);
    assert_eq!(result.session.account, "first_user");
    assert_eq!(result.session.display_name, "First");
    assert_eq!(result.session.tenant_label, "默认租户");
    assert_eq!(result.session.permissions, vec!["plugin:manage".to_string()]);
    // the client sends the cookie back: the session it presents is the stored one
    let pair = result.cookie.split(';').next().unwrap().to_string();
    let (auth, action) = AuthFlow::start(Some(&pair));
    match action {
        AuthAction::FindSession { session_id } => assert_eq!(session_id, stored),
        other => panic!("{other:?}"),
    }
    assert_eq!(auth.step, AuthStep::FindSession);
    assert_eq!(session_to_end(Some(&pair)), Some(stored));
    assert_eq!(flow.step, LoginStep::Finished);
}

#[test]
fn login_refusals() {
    let request = LoginRequest { account: "nobody".to_string(), password: "pw".to_string() };
    let (mut flow, _) = LoginFlow::start(&service(), &request);
    assert!(matches!(flow.step(LoginEvent::User(None)), LoginAction::Done(None)));
    let (mut flow, _) = LoginFlow::start(&service(), &request);
    flow.step(LoginEvent::User(Some(user_row())));
    assert!(matches!(flow.step(LoginEvent::PasswordChecked(false)), LoginAction::Done(None)));
    assert!(!flow.password_verified);
    let (mut flow, _) = LoginFlow::start(&service(), &request);
    flow.step(LoginEvent::User(Some(user_row())));
    flow.step(LoginEvent::PasswordChecked(true));
    assert!(matches!(flow.step(LoginEvent::Tenant(None)), LoginAction::Fail(IdentityError::NoTenant)));
    let (mut flow, _) = LoginFlow::start(&service(), &request);
    assert!(matches!(flow.step(LoginEvent::PasswordChecked(true)), LoginAction::Fail(IdentityError::UnexpectedEvent)));
    let answer = login_answer(None).unwrap_err();
    assert_eq!((answer.status, answer.message.as_str()), (STATUS_UNAUTHORIZED, "账号或密码错误"));
}

#[test]
fn authenticate_recognizes_a_presented_session() {
    let (_, action) = AuthFlow::start(None);
    assert!(matches!(action, AuthAction::Done(None)));
    let (_, action) = AuthFlow::start(Some("other=1"));
    assert!(matches!(action, AuthAction::Done(None)));
    let (mut flow, action) = AuthFlow::start(Some("other=1; aio_session=secret"));
    match action {
        AuthAction::FindSession { session_id: id } => assert_eq!(id, session_id("secret")),
        other => panic!("{other:?}"),
    }
    let row = SessionRow {
        user_id: "u1".to_string(),
        account: "first_user".to_string(),
        display_name: "First".to_string(),
        tenant_id: "t1".to_string(),
        tenant_label: "Workspace".to_string(),
    };
    match flow.step(AuthEvent::Session(Some(row))) {
        AuthAction::LoadPermissions { tenant_id, user_id } => assert_eq!((tenant_id.as_str(), user_id.as_str()), ("t1", "u1")),
        other => panic!("{other:?}"),
    }
    let session = match flow.step(AuthEvent::Permissions(vec!["workspace:view".to_string()])) {
        AuthAction::Done(Some(s)) => s,
        other => panic!("{other:?}"),
    };
    assert_eq!(session.session_id, session_id("secret"));
    assert_eq!(session.account, "first_user");
    let view = session.view();
    assert_eq!(view.tenant_label, "Workspace");
    assert_eq!(view.permissions, vec!["workspace:view".to_string()]);
    let (mut flow, _) = AuthFlow::start(Some("aio_session=gone"));
    assert!(matches!(flow.step(AuthEvent::Session(None)), AuthAction::Done(None)));
    let answer = session_answer(None).unwrap_err();
    assert_eq!((answer.status, answer.message.as_str()), (STATUS_UNAUTHORIZED, "会话无效或已过期"));
    assert_eq!(session_to_end(Some("x=1")), None);
}

fn session() -> SessionContext {
    SessionContext {
        session_id: "s1".to_string(),
        user_id: "u1".to_string(),
        account: "first_user".to_string(),
        display_name: "First".to_string(),
        tenant_id: "t1".to_string(),
        tenant_label: "Workspace".to_string(),
        permissions: vec![],
    }
}

#[test]
fn switch_tenant_only_to_a_member_tenant() {
    let (mut flow, action) = SwitchTenantFlow::start(&session(), "t2");
    assert_eq!(action, SwitchAction::CheckMembership { tenant_id: "t2".to_string(), user_id: "u1".to_string() });
    assert_eq!(flow.step(SwitchEvent::Membership(false)), SwitchAction::Done(false));
    let (mut flow, _) = SwitchTenantFlow::start(&session(), "t2");
    assert_eq!(
        flow.step(SwitchEvent::Membership(true)),
        SwitchAction::UpdateSession { session_id: "s1".to_string(), tenant_id: "t2".to_string(), user_id: "u1".to_string() }
    );
    assert_eq!(flow.step(SwitchEvent::SessionsUpdated(1)), SwitchAction::Done(true));
    let (mut flow, _) = SwitchTenantFlow::start(&session(), "t2");
    flow.step(SwitchEvent::Membership(true));
    assert_eq!(flow.step(SwitchEvent::SessionsUpdated(0)), SwitchAction::Done(false));
}

#[test]
fn change_password_keeps_only_the_current_session() {
    let request = PasswordRequest { current_password: "old-password".to_string(), new_password: "new-password-1".to_string() };
    let (mut flow, action) = ChangePasswordFlow::start(&service(), &session(), &request);
    assert!(matches!(action, ChangeAction::LoadPasswordHash { ref user_id } if user_id == "u1"));
    match flow.step(ChangeEvent::PasswordHash("h".to_string())) {
        ChangeAction::VerifyPassword { password, password_hash } => assert_eq!((password.as_str(), password_hash.as_str()), ("old-password", "h")),
        other => panic!("{other:?}"),
    }
    match flow.step(ChangeEvent::PasswordChecked(true)) {
        ChangeAction::HashPassword { password } => assert_eq!(password, "new-password-1"),
        other => panic!("{other:?}"),
    }
    match flow.step(ChangeEvent::Hashed(Ok("h2".to_string()))) {
        ChangeAction::UpdatePasswordHash { user_id, password_hash } => assert_eq!((user_id.as_str(), password_hash.as_str()), ("u1", "h2")),
        other => panic!("{other:?}"),
    }
    match flow.step(ChangeEvent::PasswordUpdated) {
        ChangeAction::EndOtherSessions { user_id, keep_session_id } => assert_eq!((user_id.as_str(), keep_session_id.as_str()), ("u1", "s1")),
        other => panic!("{other:?}"),
    }
    assert!(matches!(flow.step(ChangeEvent::SessionsEnded), ChangeAction::Done(true)));
    assert_eq!(password_change_answer(true).unwrap(), STATUS_NO_CONTENT);
}

#[test]
fn change_password_refusals() {
    let short = PasswordRequest { current_password: "old-password".to_string(), new_password: "short".to_string() };
    let (_, action) = ChangePasswordFlow::start(&service(), &session(), &short);
    assert!(matches!(action, ChangeAction::Fail(IdentityError::Rejected(ref m)) if m == "新密码至少需要 12 个字符"));
    let request = PasswordRequest { current_password: "wrong".to_string(), new_password: "new-password-1".to_string() };
    let (mut flow, _) = ChangePasswordFlow::start(&service(), &session(), &request);
    flow.step(ChangeEvent::PasswordHash("h".to_string()));
    assert!(matches!(flow.step(ChangeEvent::PasswordChecked(false)), ChangeAction::Done(false)));
    assert!(!flow.current_verified);
    let answer = password_change_answer(false).unwrap_err();
    assert_eq!((answer.status, answer.message.as_str()), (STATUS_UNAUTHORIZED, "当前密码错误"));
}

fn created(account: &str, display: &str, password: &str) -> CreateAction {
    CreateUserFlow::start(&service(), "t1", account, display, password).1
}

#[test]
fn create_user_checks_its_input() {
    let rejected = |a: CreateAction| match a {
        CreateAction::Fail(IdentityError::Rejected(m)) => m,
        other => panic!("{other:?}"),
    };
    assert_eq!(rejected(created("  ", "Name", "long-enough-pw")), "账号不能为空");
    assert_eq!(rejected(created("bad user", "Name", "long-enough-pw")), "账号只能包含字母、数字、连字符和下划线");
    assert_eq!(rejected(created("good", "  ", "long-enough-pw")), "显示名称不能为空");
    assert_eq!(rejected(created("good", "Name", "short")), "初始密码至少需要 12 个字符");
    let (mut flow, action) = CreateUserFlow::start(&service(), "t1", " good ", " Name ", "long-enough-pw");
    assert!(matches!(action, CreateAction::HashPassword { ref password } if password == "long-enough-pw"));
    let user_id = match flow.step(CreateEvent::Hashed(Ok("h".to_string()))) {
        CreateAction::InsertUser { user_id, tenant_id, account, display_name, password_hash } => {
            assert_eq!((tenant_id.as_str(), account.as_str(), display_name.as_str(), password_hash.as_str()), ("t1", "good", "Name", "h"));
            user_id
        }
        other => panic!("{other:?}"),
    };
    assert!(matches!(flow.step(CreateEvent::UserInserted), CreateAction::Done(ref id) if *id == user_id));
}

fn settings(account: Option<&str>, password: Option<&str>, allow: Option<&str>) -> BootstrapSettings {
    BootstrapSettings {
        account: account.map(|s| s.to_string()),
        password: password.map(|s| s.to_string()),
        allow_insecure: allow.map(|s| s.to_string()),
    }
}

#[test]
fn bootstrap_seeds_only_an_empty_store() {
    let (mut flow, action) = BootstrapFlow::start(&service(), settings(None, Some("bootstrap-password"), None));
    assert!(matches!(action, BootstrapAction::CountUsers));
    assert!(matches!(flow.step(BootstrapEvent::UserCount(3)), BootstrapAction::Done));
    assert_eq!(flow.step, BootstrapStep::Finished);

    let (mut flow, _) = BootstrapFlow::start(&service(), settings(None, Some("bootstrap-password"), None));
    assert!(matches!(flow.step(BootstrapEvent::UserCount(0)), BootstrapAction::HashPassword { ref password } if password == "bootstrap-password"));
    match flow.step(BootstrapEvent::Hashed(Ok("h".to_string()))) {
        BootstrapAction::SeedAdministrator { account, display_name, password_hash, tenant_id, tenant_label, role, permissions, user_id } => {
            assert_eq!(account, "admin");
            assert_eq!(display_name, "平台管理员");
            assert_eq!(password_hash, "h");
            assert_eq!(tenant_id, "default");
            assert_eq!(tenant_label, "默认租户");
            assert_eq!(role, "platform-admin");
            assert_eq!(permissions, vec!["plugin:manage", "tenant:manage", "rbac:manage"]);
            assert_eq!(user_id.len(), 36);
        }
        other => panic!("{other:?}"),
    }
    assert!(matches!(flow.step(BootstrapEvent::AdministratorSeeded), BootstrapAction::Done));
}

#[test]
fn bootstrap_password_rules() {
    let fail = |s: BootstrapSettings| {
        let (mut flow, _) = BootstrapFlow::start(&service(), s);
        match flow.step(BootstrapEvent::UserCount(0)) {
            BootstrapAction::Fail(IdentityError::Rejected(m)) => m,
            other => panic!("{other:?}"),
        }
    };
    assert_eq!(fail(settings(None, None, None)), "首次启动必须配置 AIO_BOOTSTRAP_PASSWORD");
    assert_eq!(fail(settings(None, None, Some("true"))), "首次启动必须配置 AIO_BOOTSTRAP_PASSWORD");
    assert_eq!(fail(settings(None, Some("short"), None)), "初始密码至少需要 12 个字符");
    let (mut flow, _) = BootstrapFlow::start(&service(), settings(Some("root"), None, Some("1")));
    assert!(matches!(flow.step(BootstrapEvent::UserCount(0)), BootstrapAction::HashPassword { ref password } if password == "aio-dev-password"));
    assert_eq!(flow.account, "root");
}

#[test]
fn client_pages() {
    let pages = IdentityPlugin.pages();
    assert_eq!(pages.len(), 1);
    assert_eq!(pages[0].id, "profile");
    assert_eq!(pages[0].label, "个人资料");
    assert_eq!(pages[0].icon.as_deref(), Some("user"));
    assert_eq!((pages[0].scene_id.as_str(), pages[0].scene_label.as_str()), ("system", "系统"));
    assert!(pages[0].menu_path.is_empty() && pages[0].required_permission.is_none());
}

#[test]
fn login_form_sends_one_request_at_a_time() {
    let mut form = LoginForm::new();
    let request = form.submit("first_user", "pw").unwrap();
    assert_eq!((request.account.as_str(), request.password.as_str()), ("first_user", "pw"));
    assert!(form.busy);
    assert!(form.submit("first_user", "pw").is_none());
    form.finish(Err("账号或密码错误".to_string()));
    assert!(!form.busy);
    assert_eq!(form.error.as_deref(), Some("账号或密码错误"));
    assert!(form.submit("first_user", "pw").is_some());
    assert!(form.error.is_none());
}

#[test]
fn registration_form_checks_the_confirmation() {
    let mut form = RegistrationForm::new();
    assert!(form.submit("first_user", "a-password-1", "a-password-2").is_none());
    assert_eq!(form.error.as_deref(), Some("两次输入的密码不一致"));
    assert!(!form.busy);
    let request = form.submit("first_user", "a-password-1", "a-password-1").unwrap();
    assert_eq!(request.account, "first_user");
    assert!(form.busy && form.error.is_none());
    assert!(!form.closes(false));
    assert!(!form.finish(Err("账号已被使用".to_string())));
    assert_eq!(form.error.as_deref(), Some("账号已被使用"));
    assert!(form.closes(false));
    assert!(!form.closes(true));
    form.submit("first_user", "a-password-1", "a-password-1");
    assert!(form.finish(Ok(())));
}

#[test]
fn profile_page_states() {
    assert_eq!(password_change_request("old", "new-1", "new-2").unwrap_err(), "两次输入的新密码不一致");
    let request = password_change_request("old", "new-1", "new-1").unwrap();
    assert_eq!((request.current_password.as_str(), request.new_password.as_str()), ("old", "new-1"));
    assert!(matches!(profile_view(None), ProfileView::Loading));
    assert!(matches!(profile_view(Some(Ok(None))), ProfileView::Failed(ref m) if m == "会话已失效"));
    assert!(matches!(profile_view(Some(Err("boom".to_string()))), ProfileView::Failed(ref m) if m == "boom"));
    let view = session().view();
    assert!(matches!(profile_view(Some(Ok(Some(view)))), ProfileView::Profile(ref v) if v.account == "first_user"));
}
