use vstd::prelude::*;

use crate::model::{LoginRequest, PasswordRequest, RegisterRequest, SessionView};
use crate::text::str_equals;

verus! {

/// The event that a successful sign-in dispatches on the window, so that the shell reloads
/// its catalog of plugins for the new session.
pub const CATALOG_INVALIDATED_EVENT: &'static str = "aio:catalog-invalidated";

/// The identity plugin of the administration shell: it contributes the profile page.
#[derive(Debug)]
pub struct IdentityPlugin;

/// A page that a plugin adds to the administration shell.
#[derive(Debug)]
pub struct PageDescriptor {
    pub id: String,
    pub label: String,
    pub icon: Option<String>,
    pub scene_id: String,
    pub scene_label: String,
    pub menu_path: Vec<String>,
    pub required_permission: Option<String>,
}

impl IdentityPlugin {
    /// The pages that the plugin adds: the profile page, in the system scene, open to
    /// every signed-in user.
    pub fn pages(&self) -> (pages: Vec<PageDescriptor>)
        ensures
            pages@.len() == 1,
            pages@[0].id@ == "profile"@,
            pages@[0].label@ == "个人资料"@,
            pages@[0].icon matches Some(i) && i@ == "user"@,
            pages@[0].scene_id@ == "system"@,
            pages@[0].scene_label@ == "系统"@,
            pages@[0].menu_path@.len() == 0,
            pages@[0].required_permission is None,
    {
        let mut pages: Vec<PageDescriptor> = Vec::new();
        pages.push(
            PageDescriptor {
                id: String::from_str("profile"),
                label: String::from_str("个人资料"),
                icon: Some(String::from_str("user")),
                scene_id: String::from_str("system"),
                scene_label: String::from_str("系统"),
                menu_path: Vec::new(),
                required_permission: None,
            },
        );
        pages
    }
}

/// The state of the sign-in form: whether a sign-in is under way, and the error to show.
#[derive(Debug)]
pub struct LoginForm {
    pub busy: bool,
    pub error: Option<String>,
}

impl LoginForm {
    /// A fresh form.
    pub fn new() -> (f: LoginForm)
        ensures
            !f.busy,
            f.error is None,
    {
        LoginForm { busy: false, error: None }
    }

    /// Submits the form: the request to send, or `None` while a sign-in is under way.
    pub fn submit(&mut self, account: &str, password: &str) -> (r: Option<LoginRequest>)
        ensures
            old(self).busy ==> r is None && *final(self) == *old(self),
            !old(self).busy ==> final(self).busy && final(self).error is None && (
            r matches Some(req) && req.account@ == account@ && req.password@ == password@),
    {
        if self.busy {
            return None;
        }
        self.busy = true;
        self.error = None;
        Some(LoginRequest { account: account.to_owned(), password: password.to_owned() })
    }

    /// Records how the sign-in ended: a failure's message is shown.
    pub fn finish(&mut self, outcome: Result<(), String>)
        ensures
            !final(self).busy,
            match outcome {
                Ok(()) => final(self).error == old(self).error,
                Err(m) => final(self).error == Some(m),
            },
    {
        if let Err(m) = outcome {
            self.error = Some(m);
        }
        self.busy = false;
    }
}

/// The message shown when the two passwords of the registration form differ.
pub open spec fn registration_mismatch_message() -> Seq<char> {
    "两次输入的密码不一致"@
}

/// The state of the registration dialog: whether a registration is under way, and the
/// error to show.
#[derive(Debug)]
pub struct RegistrationForm {
    pub busy: bool,
    pub error: Option<String>,
}

impl RegistrationForm {
    /// A fresh dialog.
    pub fn new() -> (f: RegistrationForm)
        ensures
            !f.busy,
            f.error is None,
    {
        RegistrationForm { busy: false, error: None }
    }

    /// Submits the dialog: the request to send; `None` while a registration is under way,
    /// or, with an error shown, when the two passwords differ.
    pub fn submit(&mut self, account: &str, password: &str, confirmation: &str) -> (r: Option<
        RegisterRequest,
    >)
        ensures
            old(self).busy ==> r is None && *final(self) == *old(self),
            !old(self).busy && password@ != confirmation@ ==> r is None && !final(self).busy && (
            final(self).error matches Some(m) && m@ == registration_mismatch_message()),
            !old(self).busy && password@ == confirmation@ ==> final(self).busy && final(self).error is None && (r matches Some(req) && req.account@ == account@
                && req.password@ == password@),
    {
        if self.busy {
            return None;
        }
        if !str_equals(password, confirmation) {
            self.error = Some(String::from_str("两次输入的密码不一致"));
            return None;
        }
        self.busy = true;
        self.error = None;
        Some(RegisterRequest { account: account.to_owned(), password: password.to_owned() })
    }

    /// Records how the registration ended; answers whether the dialog closes, which it
    /// does on success. A failure's message is shown.
    pub fn finish(&mut self, outcome: Result<(), String>) -> (close: bool)
        ensures
            !final(self).busy,
            close == outcome is Ok,
            match outcome {
                Ok(()) => final(self).error == old(self).error,
                Err(m) => final(self).error == Some(m),
            },
    {
        self.busy = false;
        match outcome {
            Ok(()) => true,
            Err(m) => {
                self.error = Some(m);
                false
            },
        }
    }

    /// Whether a request to close (`open` false) closes the dialog: not while a
    /// registration is under way.
    pub fn closes(&self, open: bool) -> (close: bool)
        ensures
            close == (!open && !self.busy),
    {
        !open && !self.busy
    }
}

/// The message shown when the two new passwords of the change-of-password form differ.
pub open spec fn new_password_mismatch_message() -> Seq<char> {
    "两次输入的新密码不一致"@
}

/// The request of the change-of-password form, or the message that refuses it when the
/// two new passwords differ.
pub fn password_change_request(current: &str, new_password: &str, confirmation: &str) -> (r: Result<
    PasswordRequest,
    String,
>)
    ensures
        new_password@ != confirmation@ ==> (r matches Err(m) && m@
            == new_password_mismatch_message()),
        new_password@ == confirmation@ ==> (r matches Ok(req) && req.current_password@
            == current@ && req.new_password@ == new_password@),
{
    if !str_equals(new_password, confirmation) {
        return Err(String::from_str("两次输入的新密码不一致"));
    }
    Ok(PasswordRequest { current_password: current.to_owned(), new_password: new_password.to_owned() })
}

/// What the profile page shows.
#[derive(Debug)]
pub enum ProfileView {
    /// The session is being loaded.
    Loading,
    /// Loading failed, or the session is gone; the message is shown with a retry.
    Failed(String),
    /// The profile of the signed-in user.
    Profile(SessionView),
}

/// The message shown when the session is gone.
pub open spec fn expired_session_message() -> Seq<char> {
    "会话已失效"@
}

/// What the profile page shows for the state of its session request: `None` while it
/// runs, then the server's answer.
pub fn profile_view(loaded: Option<Result<Option<SessionView>, String>>) -> (v: ProfileView)
    ensures
        match loaded {
            None => v is Loading,
            Some(Ok(Some(s))) => v == ProfileView::Profile(s),
            Some(Ok(None)) => v matches ProfileView::Failed(m) && m@ == expired_session_message(),
            Some(Err(e)) => v == ProfileView::Failed(e),
        },
{
    match loaded {
        None => ProfileView::Loading,
        Some(Ok(Some(s))) => ProfileView::Profile(s),
        Some(Ok(None)) => ProfileView::Failed(String::from_str("会话已失效")),
        Some(Err(e)) => ProfileView::Failed(e),
    }
}

} // verus!
