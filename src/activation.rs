use vstd::prelude::*;
use crate::supervisor::Platform;

verus! {

/// What the coordinator knows of the main window and of the application.
#[derive(Clone, Copy, Debug, PartialEq, Eq, Structural)]
pub struct WindowState {
    pub minimized: bool,
    pub visible: bool,
    pub focused: bool,
    /// Whether the application itself is in front (distinct from the window
    /// only on macOS).
    pub app_front: bool,
}

/// A window or application operation, each idempotent at the OS level.
#[derive(Clone, Copy, Debug, PartialEq, Eq, Structural)]
pub enum WindowAction {
    Unminimize,
    Show,
    Focus,
    /// Bring the application itself to the foreground (macOS).
    PromoteApp,
}

/// The notification-click signals the runtime may fire; one click can fire
/// several of them.
#[derive(Clone, Copy, Debug, PartialEq, Eq, Structural)]
pub enum NotificationSource {
    Action,
    Plain,
    Runtime,
}

/// The events the coordinator subscribes to.
#[derive(Clone, Copy, Debug, PartialEq, Eq, Structural)]
pub enum ActivationEvent {
    FocusGained,
    NotificationClicked(NotificationSource),
    ShowRequested,
    CloseRequested,
}

/// The window is visible, not minimized and focused, and on macOS the
/// application is in front.
pub open spec fn activated(w: WindowState, platform: Platform) -> bool {
    &&& !w.minimized
    &&& w.visible
    &&& w.focused
    &&& platform == Platform::MacOS ==> w.app_front
}

/// The effect of one operation.
pub open spec fn apply(w: WindowState, a: WindowAction) -> WindowState {
    match a {
        WindowAction::Unminimize => WindowState { minimized: false, ..w },
        WindowAction::Show => WindowState { visible: true, ..w },
        WindowAction::Focus => WindowState { focused: true, ..w },
        WindowAction::PromoteApp => WindowState { app_front: true, ..w },
    }
}

/// The effect of a sequence of operations, first to last.
pub open spec fn apply_all(w: WindowState, actions: Seq<WindowAction>) -> WindowState
    decreases actions.len(),
{
    if actions.len() == 0 {
        w
    } else {
        apply(apply_all(w, actions.drop_last()), actions.last())
    }
}

/// The operations still needed to activate `w`: unminimize if minimized,
/// show if hidden, focus if unfocused, and on macOS promote the application
/// if it is not in front.
pub open spec fn plan_spec(w: WindowState, platform: Platform) -> Seq<WindowAction> {
    (if w.minimized { seq![WindowAction::Unminimize] } else { Seq::empty() })
        + (if !w.visible { seq![WindowAction::Show] } else { Seq::empty() })
        + (if !w.focused { seq![WindowAction::Focus] } else { Seq::empty() })
        + (if platform == Platform::MacOS && !w.app_front {
        seq![WindowAction::PromoteApp]
    } else {
        Seq::empty()
    })
}

/// The state after `event`: every event but a close request activates.
pub open spec fn on_event_spec(w: WindowState, platform: Platform, event: ActivationEvent) -> WindowState {
    if event is CloseRequested {
        w
    } else {
        apply_all(w, plan_spec(w, platform))
    }
}

proof fn lemma_apply_all_push(w: WindowState, s: Seq<WindowAction>, a: WindowAction)
    ensures
        apply_all(w, s.push(a)) == apply(apply_all(w, s), a),
{
    assert(s.push(a).drop_last() =~= s);
}

/// The plan reaches the activated state, and activates nothing else: the
/// application's front status only changes where the plan promotes it.
proof fn lemma_plan_activates(w: WindowState, platform: Platform)
    ensures
        activated(apply_all(w, plan_spec(w, platform)), platform),
        apply_all(w, plan_spec(w, platform)) == (WindowState {
            minimized: false,
            visible: true,
            focused: true,
            app_front: w.app_front || platform == Platform::MacOS,
        }),
{
    let s1: Seq<WindowAction> = if w.minimized { seq![WindowAction::Unminimize] } else { Seq::empty() };
    let s2: Seq<WindowAction> = if !w.visible { seq![WindowAction::Show] } else { Seq::empty() };
    let s3: Seq<WindowAction> = if !w.focused { seq![WindowAction::Focus] } else { Seq::empty() };
    let s4: Seq<WindowAction> = if platform == Platform::MacOS && !w.app_front {
        seq![WindowAction::PromoteApp]
    } else {
        Seq::empty()
    };
    let p1 = s1;
    let p2 = s1 + s2;
    let p3 = s1 + s2 + s3;
    let p4 = s1 + s2 + s3 + s4;
    assert(p4 =~= plan_spec(w, platform));
    if w.minimized {
        assert(p1 =~= Seq::<WindowAction>::empty().push(WindowAction::Unminimize));
        lemma_apply_all_push(w, Seq::empty(), WindowAction::Unminimize);
    } else {
        assert(p1 =~= Seq::<WindowAction>::empty());
    }
    if !w.visible {
        assert(p2 =~= p1.push(WindowAction::Show));
        lemma_apply_all_push(w, p1, WindowAction::Show);
    } else {
        assert(p2 =~= p1);
    }
    if !w.focused {
        assert(p3 =~= p2.push(WindowAction::Focus));
        lemma_apply_all_push(w, p2, WindowAction::Focus);
    } else {
        assert(p3 =~= p2);
    }
    if platform == Platform::MacOS && !w.app_front {
        assert(p4 =~= p3.push(WindowAction::PromoteApp));
        lemma_apply_all_push(w, p3, WindowAction::PromoteApp);
    } else {
        assert(p4 =~= p3);
    }
}

/// Focus, notification clicks and show requests all lead to the same fully
/// activated state, in whatever order and however often they arrive: once
/// activated, a further event plans no operation at all.
pub proof fn lemma_activation_converges(
    w: WindowState,
    platform: Platform,
    first: ActivationEvent,
    second: ActivationEvent,
)
    requires
        !(first is CloseRequested),
        !(second is CloseRequested),
    ensures
        activated(on_event_spec(w, platform, first), platform),
        on_event_spec(w, platform, first) == on_event_spec(w, platform, second),
        on_event_spec(on_event_spec(w, platform, first), platform, second) == on_event_spec(
            w,
            platform,
            first,
        ),
        on_event_spec(on_event_spec(w, platform, first), platform, second) == on_event_spec(
            on_event_spec(w, platform, second),
            platform,
            first,
        ),
        plan_spec(on_event_spec(w, platform, first), platform).len() == 0,
{
    lemma_plan_activates(w, platform);
    let a = on_event_spec(w, platform, first);
    lemma_plan_activates(a, platform);
    assert(plan_spec(a, platform) =~= Seq::<WindowAction>::empty());
}

/// The operations that activate `w` on `platform`, in order; none when it is
/// already activated.
pub fn activation_plan(w: WindowState, platform: Platform) -> (r: Vec<WindowAction>)
    ensures
        r@ == plan_spec(w, platform),
        activated(apply_all(w, r@), platform),
        r@.len() == 0 <==> activated(w, platform),
{
    let mut r: Vec<WindowAction> = Vec::new();
    if w.minimized {
        r.push(WindowAction::Unminimize);
    }
    if !w.visible {
        r.push(WindowAction::Show);
    }
    if !w.focused {
        r.push(WindowAction::Focus);
    }
    if platform == Platform::MacOS && !w.app_front {
        r.push(WindowAction::PromoteApp);
    }
    assert(r@ =~= plan_spec(w, platform));
    proof {
        lemma_plan_activates(w, platform);
    }
    r
}

/// The state of the window after `event`.
pub fn on_event(w: WindowState, platform: Platform, event: ActivationEvent) -> (r: WindowState)
    ensures
        r == on_event_spec(w, platform, event),
        !(event is CloseRequested) ==> activated(r, platform),
{
    proof {
        lemma_plan_activates(w, platform);
    }
    match event {
        ActivationEvent::CloseRequested => w,
        _ => WindowState {
            minimized: false,
            visible: true,
            focused: true,
            app_front: w.app_front || platform == Platform::MacOS,
        },
    }
}

/// Name of the runtime event through which a notification click arrives.
pub open spec fn source_event_name(source: NotificationSource) -> Seq<char> {
    match source {
        NotificationSource::Action => "notification-action"@,
        NotificationSource::Plain => "notification"@,
        NotificationSource::Runtime => "tauri://notification"@,
    }
}

impl NotificationSource {
    /// Name of the runtime event through which this click arrives.
    pub fn event_name(&self) -> (r: &'static str)
        ensures
            r@ == source_event_name(*self),
    {
        match self {
            NotificationSource::Action => "notification-action",
            NotificationSource::Plain => "notification",
            NotificationSource::Runtime => "tauri://notification",
        }
    }

    /// Every notification-click source, each subscribed once.
    pub fn all() -> (r: Vec<NotificationSource>)
        ensures
            r@ == seq![NotificationSource::Action, NotificationSource::Plain, NotificationSource::Runtime],
    {
        let mut r: Vec<NotificationSource> = Vec::new();
        r.push(NotificationSource::Action);
        r.push(NotificationSource::Plain);
        r.push(NotificationSource::Runtime);
        assert(r@ =~= seq![NotificationSource::Action, NotificationSource::Plain, NotificationSource::Runtime]);
        r
    }
}

/// Runtime event that signals application focus.
pub fn focus_event_name() -> (r: &'static str)
    ensures
        r@ == "tauri://focus"@,
{
    "tauri://focus"
}

/// Runtime event that signals a request to close the application.
pub fn close_event_name() -> (r: &'static str)
    ensures
        r@ == "tauri://close-requested"@,
{
    "tauri://close-requested"
}

/// The maximize button's effect: a maximized window is restored, any other
/// is maximized.
#[derive(Clone, Copy, Debug, PartialEq, Eq, Structural)]
pub enum MaximizeAction {
    Maximize,
    Unmaximize,
}

/// The maximize button's effect given whether the window is maximized.
pub fn maximize_toggle(is_maximized: bool) -> (r: MaximizeAction)
    ensures
        r == (if is_maximized { MaximizeAction::Unmaximize } else { MaximizeAction::Maximize }),
{
    if is_maximized {
        MaximizeAction::Unmaximize
    } else {
        MaximizeAction::Maximize
    }
}

} // verus!
