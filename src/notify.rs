use vstd::prelude::*;
use crate::paths::BundlePath;
use crate::supervisor::Mode;

verus! {

/// The operating system's answer on notifications.  It is queried anew each
/// time and never cached.
#[derive(Clone, Copy, Debug, PartialEq, Eq, Structural)]
pub enum Permission {
    Granted,
    Denied,
    Unknown,
}

/// Why a notification was not shown.
#[derive(Clone, Copy, Debug, PartialEq, Eq, Structural)]
pub enum NotifyError {
    /// The permission request did not end in `Granted`.
    PermissionDenied,
    /// Neither the display with the icon nor the one without succeeded.
    DisplayError,
}

/// The name by which a permission state is reported to the interface.
pub open spec fn permission_label_spec(p: Permission) -> Seq<char> {
    match p {
        Permission::Granted => "granted"@,
        Permission::Denied => "denied"@,
        Permission::Unknown => "unknown"@,
    }
}

/// The name by which a permission state is reported to the interface.
pub fn permission_label(p: Permission) -> (r: String)
    ensures
        r@ == permission_label_spec(p),
{
    match p {
        Permission::Granted => String::from_str("granted"),
        Permission::Denied => String::from_str("denied"),
        Permission::Unknown => String::from_str("unknown"),
    }
}

/// Answer to a permission request: true exactly when it was granted.
pub fn request_outcome(answer: Option<Permission>) -> (r: bool)
    ensures
        r <==> answer == Some(Permission::Granted),
{
    match answer {
        Some(Permission::Granted) => true,
        _ => false,
    }
}

/// The application icon's path in a development build, relative to the
/// working directory.
pub open spec fn dev_icon_spec() -> Seq<Seq<char>> {
    seq!["icons"@, "icon.png"@]
}

/// The application icon's path in a production build, below the resources.
pub open spec fn bundled_icon_spec(resource_dir: Seq<Seq<char>>) -> Seq<Seq<char>> {
    resource_dir.push("icons"@).push("icon.png"@)
}

/// Where the protocol for showing one notification stands.
pub enum ShowStep {
    Idle,
    AwaitPermission,
    AwaitResourceDir,
    AwaitIconCheck { icon: BundlePath },
    AwaitIconDisplay,
    AwaitPlainDisplay,
    Done,
}

/// What the surrounding program reports back after performing an action.
pub enum ShowEvent {
    Begin,
    /// The state after the permission request, or none where it failed.
    Permission(Option<Permission>),
    /// The resource directory, or none where it could not be determined.
    ResourceDir(Option<BundlePath>),
    /// Whether the icon file exists.
    Exists(bool),
    /// Whether the last display attempt succeeded.
    Displayed(bool),
}

/// What the surrounding program is asked to do next.
pub enum ShowAction {
    RequestPermission,
    ResolveResourceDir,
    CheckExists(BundlePath),
    /// Display the flow's title and body, with this icon or none.
    Display { icon: Option<BundlePath> },
    Finish(Result<(), NotifyError>),
    /// The event does not belong to the current step; nothing changes.
    Ignore,
}

/// Whether `event` is the one that `step` waits for.
pub open spec fn show_accepts(step: ShowStep, event: ShowEvent) -> bool {
    match step {
        ShowStep::Idle => event is Begin,
        ShowStep::AwaitPermission => event is Permission,
        ShowStep::AwaitResourceDir => event is ResourceDir,
        ShowStep::AwaitIconCheck { .. } => event is Exists,
        ShowStep::AwaitIconDisplay => event is Displayed,
        ShowStep::AwaitPlainDisplay => event is Displayed,
        ShowStep::Done => false,
    }
}

/// Showing one titled notification: permission is requested every time, a
/// refusal ends the flow before any display, the icon is used where its file
/// exists, and a display without icon is the fallback.
pub struct ShowFlow {
    pub mode: Mode,
    pub title: String,
    pub body: String,
    pub step: ShowStep,
}

impl ShowFlow {
    pub fn new(mode: Mode, title: String, body: String) -> (r: ShowFlow)
        ensures
            r.mode == mode,
            r.title@ == title@,
            r.body@ == body@,
            r.step is Idle,
    {
        ShowFlow { mode, title, body, step: ShowStep::Idle }
    }

    /// Takes the outcome of the last action and names the next one.
    pub fn next(&mut self, event: ShowEvent) -> (r: ShowAction)
        ensures
            final(self).mode == old(self).mode,
            final(self).title == old(self).title,
            final(self).body == old(self).body,
            r is Ignore <==> !show_accepts(old(self).step, event),
            r is Ignore ==> final(self).step == old(self).step,
            r is Finish <==> (show_accepts(old(self).step, event) && final(self).step is Done),
            old(self).step is Idle && event is Begin ==> r is RequestPermission
                && final(self).step is AwaitPermission,
            old(self).step is AwaitPermission ==> (event matches ShowEvent::Permission(answer) ==> {
                if answer == Some(Permission::Granted) {
                    if old(self).mode == Mode::Development {
                        (r matches ShowAction::CheckExists(p) && p@ == dev_icon_spec()) && (
                        final(self).step matches ShowStep::AwaitIconCheck { icon }
                            && icon@ == dev_icon_spec())
                    } else {
                        r is ResolveResourceDir && final(self).step is AwaitResourceDir
                    }
                } else {
                    r == ShowAction::Finish(Err(NotifyError::PermissionDenied))
                }
            }),
            old(self).step is AwaitResourceDir ==> {
                &&& event matches ShowEvent::ResourceDir(None) ==> r == (ShowAction::Display {
                    icon: None,
                }) && final(self).step is AwaitPlainDisplay
                &&& event matches ShowEvent::ResourceDir(Some(rd)) ==> (r matches ShowAction::CheckExists(p)
                    && p@ == bundled_icon_spec(rd@)) && (final(self).step matches ShowStep::AwaitIconCheck {
                    icon,
                } && icon@ == bundled_icon_spec(rd@))
            },
            old(self).step matches ShowStep::AwaitIconCheck { icon } ==> {
                &&& event == ShowEvent::Exists(true) ==> (r matches ShowAction::Display {
                    icon: Some(i),
                } && i@ == icon@) && final(self).step is AwaitIconDisplay
                &&& event == ShowEvent::Exists(false) ==> r == (ShowAction::Display { icon: None })
                    && final(self).step is AwaitPlainDisplay
            },
            old(self).step is AwaitIconDisplay ==> {
                &&& event == ShowEvent::Displayed(true) ==> r == ShowAction::Finish(Ok(()))
                &&& event == ShowEvent::Displayed(false) ==> r == (ShowAction::Display { icon: None })
                    && final(self).step is AwaitPlainDisplay
            },
            old(self).step is AwaitPlainDisplay ==> {
                &&& event == ShowEvent::Displayed(true) ==> r == ShowAction::Finish(Ok(()))
                &&& event == ShowEvent::Displayed(false) ==> r == ShowAction::Finish(
                    Err(NotifyError::DisplayError),
                )
            },
    {
        match &self.step {
            ShowStep::Idle => match event {
                ShowEvent::Begin => {
                    self.step = ShowStep::AwaitPermission;
                    ShowAction::RequestPermission
                },
                _ => ShowAction::Ignore,
            },
            ShowStep::AwaitPermission => match event {
                ShowEvent::Permission(answer) => {
                    if request_outcome(answer) {
                        match self.mode {
                            Mode::Development => {
                                let icon = dev_icon();
                                let check = icon.duplicate();
                                self.step = ShowStep::AwaitIconCheck { icon };
                                ShowAction::CheckExists(check)
                            },
                            Mode::Production => {
                                self.step = ShowStep::AwaitResourceDir;
                                ShowAction::ResolveResourceDir
                            },
                        }
                    } else {
                        self.step = ShowStep::Done;
                        ShowAction::Finish(Err(NotifyError::PermissionDenied))
                    }
                },
                _ => ShowAction::Ignore,
            },
            ShowStep::AwaitResourceDir => match event {
                ShowEvent::ResourceDir(None) => {
                    self.step = ShowStep::AwaitPlainDisplay;
                    ShowAction::Display { icon: None }
                },
                ShowEvent::ResourceDir(Some(rd)) => {
                    let icon = rd.join("icons").join("icon.png");
                    let check = icon.duplicate();
                    self.step = ShowStep::AwaitIconCheck { icon };
                    ShowAction::CheckExists(check)
                },
                _ => ShowAction::Ignore,
            },
            ShowStep::AwaitIconCheck { icon } => match event {
                ShowEvent::Exists(true) => {
                    let shown = icon.duplicate();
                    self.step = ShowStep::AwaitIconDisplay;
                    ShowAction::Display { icon: Some(shown) }
                },
                ShowEvent::Exists(false) => {
                    self.step = ShowStep::AwaitPlainDisplay;
                    ShowAction::Display { icon: None }
                },
                _ => ShowAction::Ignore,
            },
            ShowStep::AwaitIconDisplay => match event {
                ShowEvent::Displayed(true) => {
                    self.step = ShowStep::Done;
                    ShowAction::Finish(Ok(()))
                },
                ShowEvent::Displayed(false) => {
                    self.step = ShowStep::AwaitPlainDisplay;
                    ShowAction::Display { icon: None }
                },
                _ => ShowAction::Ignore,
            },
            ShowStep::AwaitPlainDisplay => match event {
                ShowEvent::Displayed(true) => {
                    self.step = ShowStep::Done;
                    ShowAction::Finish(Ok(()))
                },
                ShowEvent::Displayed(false) => {
                    self.step = ShowStep::Done;
                    ShowAction::Finish(Err(NotifyError::DisplayError))
                },
                _ => ShowAction::Ignore,
            },
            ShowStep::Done => ShowAction::Ignore,
        }
    }
}

fn dev_icon() -> (r: BundlePath)
    ensures
        r@ == dev_icon_spec(),
{
    let mut parts: Vec<String> = Vec::new();
    parts.push(String::from_str("icons"));
    parts.push(String::from_str("icon.png"));
    let r = BundlePath { parts };
    assert(r@ =~= dev_icon_spec());
    r
}

} // verus!
