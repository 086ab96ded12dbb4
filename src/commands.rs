use vstd::prelude::*;
use crate::notify::NotifyError;
use crate::supervisor::{Mode, StartupError};

verus! {

/// The interface theme reported to the front end; no detection is attempted.
pub fn theme() -> (r: String)
    ensures
        r@ == "light"@,
{
    String::from_str("light")
}

/// Message of the update commands in a development build.
pub open spec fn updates_disabled_message() -> Seq<char> {
    "Auto-updates disabled in development"@
}

/// Update commands run only in production builds.
pub fn update_gate(mode: Mode) -> (r: Result<(), String>)
    ensures
        r is Ok <==> mode == Mode::Production,
        r matches Err(m) ==> m@ == updates_disabled_message(),
{
    match mode {
        Mode::Production => Ok(()),
        Mode::Development => Err(String::from_str("Auto-updates disabled in development")),
    }
}

/// Human-readable result of an update check, given the version offered, if
/// any.
pub fn update_status(offered: Option<String>) -> (r: String)
    ensures
        offered matches Some(v) ==> r@ == "Update available: "@ + v@,
        offered is None ==> r@ == "No update available"@,
{
    match offered {
        Some(v) => String::from_str("Update available: ").concat(v.as_str()),
        None => String::from_str("No update available"),
    }
}

/// A session change is confirmed only once the durable store has saved it;
/// a failed save is reported with its message.
pub fn confirm_saved(saved: Result<(), String>) -> (r: Result<bool, String>)
    ensures
        saved is Ok <==> r == Ok::<bool, String>(true),
        saved matches Err(m) ==> (r matches Err(e) && e@ == m@),
{
    match saved {
        Ok(()) => Ok(true),
        Err(m) => Err(m),
    }
}

/// Text reported for a failed notification.
pub open spec fn notify_error_text(e: NotifyError) -> Seq<char> {
    match e {
        NotifyError::PermissionDenied => "Notification permission not granted"@,
        NotifyError::DisplayError => "Failed to show notification"@,
    }
}

/// Text reported for a failed notification.
pub fn notify_error_message(e: NotifyError) -> (r: String)
    ensures
        r@ == notify_error_text(e),
{
    match e {
        NotifyError::PermissionDenied => String::from_str("Notification permission not granted"),
        NotifyError::DisplayError => String::from_str("Failed to show notification"),
    }
}

/// Text shown to the user when the backend could not be started.
pub open spec fn startup_error_text(e: StartupError) -> Seq<char> {
    match e {
        StartupError::ResourceDirUnavailable => "Resource directory not available"@,
        StartupError::MissingResource => "Server directory not found"@,
        StartupError::RuntimeDirUnavailable => "Runtime directory not available"@,
        StartupError::MissingRuntime => "Bundled Node.js not found"@,
        StartupError::SpawnFailed => "Failed to launch the server process"@,
    }
}

/// Text shown to the user when the backend could not be started.
pub fn startup_error_message(e: StartupError) -> (r: String)
    ensures
        r@ == startup_error_text(e),
{
    match e {
        StartupError::ResourceDirUnavailable => String::from_str("Resource directory not available"),
        StartupError::MissingResource => String::from_str("Server directory not found"),
        StartupError::RuntimeDirUnavailable => String::from_str("Runtime directory not available"),
        StartupError::MissingRuntime => String::from_str("Bundled Node.js not found"),
        StartupError::SpawnFailed => String::from_str("Failed to launch the server process"),
    }
}

} // verus!
