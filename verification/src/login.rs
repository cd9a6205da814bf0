//! Launch at login for the desktop app, through the `auto-launch` crate.
//!
//! Whether the app is registered is state on disk, so nothing is stated of
//! what the crate reports; what is stated is what the app asks for and how a
//! refusal is reported.

use vstd::prelude::*;
use vstd::string::*;

use crate::errors::{GuiError, APP_NAME};

verus! {

/// Passed by the login item, so a launch at sign-in starts minimised.
pub const MINIMIZED_ARG: &'static str = "--minimized";

#[verifier::external_type_specification]
#[verifier::external_body]
pub struct ExAutoLaunch(auto_launch::AutoLaunch);

#[verifier::external_type_specification]
#[verifier::external_body]
pub struct ExAutoLaunchError(auto_launch::Error);

/// What the desktop app says when launch at login is changed on macOS, where
/// the menu bar app owns the login item.
pub const MACOS_LOGIN_DETAIL: &'static str = "Use the menu bar app's settings on macOS.";

/// A login item as the library built it: the crate's handle, what the handle
/// was built to start, and what the library last asked of the system through
/// it.
#[derive(Debug)]
pub struct LoginItem {
    handle: auto_launch::AutoLaunch,
    app_name: String,
    app_path: String,
    args: Vec<String>,
    asked: Option<bool>,
}

/// What a login item is, as plain values.
pub struct LoginItemView {
    /// The name the entry is registered under.
    pub app_name: Seq<char>,
    /// The executable the entry starts.
    pub app_path: Seq<char>,
    /// The arguments the executable is started with.
    pub args: Seq<String>,
    /// `Some(true)` once the entry was asked to be written, `Some(false)` once
    /// it was asked to be removed, `None` before either.
    pub asked: Option<bool>,
}

impl View for LoginItem {
    type V = LoginItemView;

    closed spec fn view(&self) -> LoginItemView {
        LoginItemView {
            app_name: self.app_name@,
            app_path: self.app_path@,
            args: self.args@,
            asked: self.asked,
        }
    }
}

/// `AutoLaunchBuilder::build`, for an item named `app_name` that starts
/// `app_path` with `arg`, through an XDG autostart entry on Linux, with the
/// handle's name, path and arguments read back through `get_app_name`,
/// `get_app_path` and `get_args`. With the default macOS launch mode the
/// crate keeps the name, path and arguments it was given, on every platform
/// it builds for; whether it builds (an unsupported platform is refused) is
/// not stated.
#[verifier::external_body]
fn build_login_item(app_name: &str, app_path: &str, arg: &str) -> (built: Result<
    (String, String, Vec<String>, auto_launch::AutoLaunch),
    auto_launch::Error,
>)
    ensures
        built matches Ok(parts) ==> parts.0@ == app_name@ && parts.1@ == app_path@
            && parts.2@.len() == 1 && parts.2@[0]@ == arg@,
{
    let built = auto_launch::AutoLaunchBuilder::new()
        .set_app_name(app_name)
        .set_app_path(app_path)
        .set_args(&[arg])
        .set_linux_launch_mode(auto_launch::LinuxLaunchMode::XdgAutostart)
        .build();
    match built {
        Ok(handle) => Ok((
            handle.get_app_name().to_string(),
            handle.get_app_path().to_string(),
            handle.get_args().to_vec(),
            handle,
        )),
        Err(error) => Err(error),
    }
}

/// `AutoLaunch::is_enabled`: whether the entry exists on disk now. Nothing is
/// stated of the answer.
#[verifier::external_body]
fn login_item_enabled(handle: &auto_launch::AutoLaunch) -> (enabled: Result<bool, auto_launch::Error>) {
    handle.is_enabled()
}

/// `AutoLaunch::enable`: writes the entry. Nothing is stated of the outcome.
#[verifier::external_body]
fn enable_login_item(handle: &auto_launch::AutoLaunch) -> (done: Result<(), auto_launch::Error>) {
    handle.enable()
}

/// `AutoLaunch::disable`: removes the entry. Nothing is stated of the
/// outcome.
#[verifier::external_body]
fn disable_login_item(handle: &auto_launch::AutoLaunch) -> (done: Result<(), auto_launch::Error>) {
    handle.disable()
}

/// The error's `Display` text, which the settings banner shows as detail.
/// Nothing is stated of the wording.
#[verifier::external_body]
fn login_error_text(error: &auto_launch::Error) -> (text: String) {
    error.to_string()
}

impl LoginItem {
    /// Built to start the executable at `path` minimised, under the app's
    /// name.
    pub open spec fn starts(self, path: Seq<char>) -> bool {
        &&& self@.app_name == APP_NAME@
        &&& self@.app_path == path
        &&& self@.args.len() == 1
        &&& self@.args[0]@ == MINIMIZED_ARG@
    }

    /// The name the entry is registered under.
    pub fn app_name(&self) -> (name: &str)
        ensures
            name@ == self@.app_name,
    {
        self.app_name.as_str()
    }

    /// The executable the entry starts.
    pub fn app_path(&self) -> (path: &str)
        ensures
            path@ == self@.app_path,
    {
        self.app_path.as_str()
    }

    /// The arguments the executable is started with.
    pub fn args(&self) -> (args: &[String])
        ensures
            args@ == self@.args,
    {
        self.args.as_slice()
    }

    /// What was last asked of the system through this item.
    pub fn asked(&self) -> (asked: Option<bool>)
        ensures
            asked == self@.asked,
    {
        self.asked
    }

    /// Whether the entry is registered now, or why that could not be read,
    /// as a login-item error carrying the system's reason.
    pub fn lookup(&self) -> (enabled: Result<bool, GuiError>)
        ensures
            enabled matches Err(error) ==> error is LoginItem,
    {
        match login_item_enabled(&self.handle) {
            Ok(enabled) => Ok(enabled),
            Err(error) => Err(GuiError::LoginItem { detail: login_error_text(&error) }),
        }
    }

    /// Writes the entry when `enabled`, removes it otherwise. A refusal comes
    /// back as a login-item error carrying the system's reason.
    pub fn set_enabled(&mut self, enabled: bool) -> (done: Result<(), GuiError>)
        ensures
            final(self)@.asked == Some(enabled),
            final(self)@.app_name == old(self)@.app_name,
            final(self)@.app_path == old(self)@.app_path,
            final(self)@.args == old(self)@.args,
            done matches Err(error) ==> error is LoginItem,
    {
        self.asked = Some(enabled);
        let result = if enabled {
            enable_login_item(&self.handle)
        } else {
            disable_login_item(&self.handle)
        };
        match result {
            Ok(()) => Ok(()),
            Err(error) => Err(GuiError::LoginItem { detail: login_error_text(&error) }),
        }
    }
}

/// The login item for this executable, or the reason there is none. `exe` is
/// the running executable's path, or why it could not be found. The item
/// starts that path with the minimised flag under the app's name, and has
/// not been asked anything yet.
pub fn login_item(exe: &Result<String, String>) -> (item: Result<LoginItem, GuiError>)
    ensures
        exe matches Err(why) ==> item matches Err(GuiError::LoginItem { detail }) && detail@
            == why@,
        item matches Err(error) ==> error is LoginItem,
        item matches Ok(built) ==> exe matches Ok(path) && built.starts(path@)
            && built@.asked is None,
{
    match exe {
        Err(why) => Err(GuiError::LoginItem { detail: why.clone() }),
        Ok(path) => match build_login_item(APP_NAME, path.as_str(), MINIMIZED_ARG) {
            Ok((app_name, app_path, args, handle)) => Ok(
                LoginItem { handle, app_name, app_path, args, asked: None },
            ),
            Err(error) => Err(GuiError::LoginItem { detail: login_error_text(&error) }),
        },
    }
}

/// What the launch-at-login checkbox shows for a lookup of the login item:
/// its answer, or "no" when there is none to show.
pub fn checkbox_reading(lookup: Result<bool, GuiError>) -> (enabled: bool)
    ensures
        enabled == match lookup {
            Ok(answer) => answer,
            Err(_) => false,
        },
{
    match lookup {
        Ok(answer) => answer,
        Err(_) => false,
    }
}

/// Whether the app starts at sign-in. Anything that stops the answer being
/// read reads as "no": the checkbox must still show something. On macOS the
/// menu bar app owns the login item, so the answer is "no" without asking.
pub fn launches_at_login(exe: &Result<String, String>, on_macos: bool) -> (enabled: bool)
    ensures
        on_macos ==> !enabled,
        exe is Err ==> !enabled,
{
    if on_macos {
        return false;
    }
    let lookup = match login_item(exe) {
        Ok(item) => item.lookup(),
        Err(error) => Err(error),
    };
    checkbox_reading(lookup)
}

/// Registers the app to start minimised at sign-in when `enabled`, or
/// unregisters it, and gives back the item it asked through. A refusal comes
/// back as a login-item error carrying the system's reason, for the banner.
/// On macOS it refuses without touching anything, pointing at the menu bar
/// app.
pub fn set_launch_at_login(exe: &Result<String, String>, enabled: bool, on_macos: bool) -> (done:
    Result<LoginItem, GuiError>)
    ensures
        done matches Err(error) ==> error is LoginItem,
        on_macos ==> (done matches Err(GuiError::LoginItem { detail }) && detail@
            == MACOS_LOGIN_DETAIL@),
        !on_macos ==> (exe matches Err(why) ==> done matches Err(GuiError::LoginItem { detail })
            && detail@ == why@),
        done matches Ok(item) ==> !on_macos && (exe matches Ok(path) && item.starts(path@)
            && item@.asked == Some(enabled)),
{
    if on_macos {
        return Err(GuiError::LoginItem { detail: String::from_str(MACOS_LOGIN_DETAIL) });
    }
    let mut item = match login_item(exe) {
        Ok(item) => item,
        Err(error) => return Err(error),
    };
    match item.set_enabled(enabled) {
        Ok(()) => Ok(item),
        Err(error) => Err(error),
    }
}

/// Where the menu bar app's login item stands with the system.
#[derive(Debug, Clone, Copy, PartialEq, Eq, Structural)]
pub enum ServiceStatus {
    NotRegistered,
    Enabled,
    RequiresApproval,
    NotFound,
}

/// What changing the login item asks of the system.
#[derive(Debug, Clone, Copy, PartialEq, Eq, Structural)]
pub enum LoginItemStep {
    /// Already as asked: registering something registered, or unregistering
    /// something that is not, would raise.
    Nothing,
    Register,
    Unregister,
}

pub fn login_item_step(enabled: bool, status: ServiceStatus) -> (step: LoginItemStep)
    ensures
        step == if enabled && status == ServiceStatus::Enabled || !enabled && status
            == ServiceStatus::NotRegistered {
            LoginItemStep::Nothing
        } else if enabled {
            LoginItemStep::Register
        } else {
            LoginItemStep::Unregister
        },
{
    match (enabled, status) {
        (true, ServiceStatus::Enabled) | (false, ServiceStatus::NotRegistered) => {
            LoginItemStep::Nothing
        },
        (true, _) => LoginItemStep::Register,
        (false, _) => LoginItemStep::Unregister,
    }
}

/// What was being attempted, for a refusal's message.
pub fn login_item_action(enabled: bool) -> (action: &'static str)
    ensures
        action@ == if enabled {
            "add Close My Lid to your login items"@
        } else {
            "remove Close My Lid from your login items"@
        },
{
    if enabled {
        "add Close My Lid to your login items"
    } else {
        "remove Close My Lid from your login items"
    }
}

/// What to check when the system refuses the login item change.
pub const LOGIN_ITEM_HINT: &'static str = "Check Login Items in System Settings › General, and that the app is in /Applications rather than being run from a build directory.";

} // verus!
