use vstd::prelude::*;
use crate::decimal::{decimal, decimal_text};

verus! {

/// The application's display name, used on every surface that shows the
/// unread count.
pub open spec fn app_name() -> Seq<char> {
    "Unpod"@
}

/// Tray tooltip for `count` unread notifications.
pub open spec fn tooltip_spec(count: nat) -> Seq<char> {
    if count == 0 {
        app_name()
    } else {
        app_name() + " - "@ + decimal(count) + " unread notification"@ + if count > 1 {
            "s"@
        } else {
            ""@
        }
    }
}

/// Main window title for `count` unread notifications.
pub open spec fn title_spec(count: nat) -> Seq<char> {
    if count == 0 {
        app_name()
    } else {
        "("@ + decimal(count) + ") "@ + app_name()
    }
}

/// Dock or taskbar badge for `count` unread notifications: none at zero.
pub open spec fn badge_spec(count: nat) -> Option<int> {
    if count == 0 {
        None
    } else {
        Some(count as int)
    }
}

/// The application's display name.
pub fn app_name_text() -> (r: String)
    ensures
        r@ == app_name(),
{
    String::from_str("Unpod")
}

/// Tray tooltip for `count` unread notifications, with the plural from two on.
pub fn tooltip_text(count: u32) -> (r: String)
    ensures
        r@ == tooltip_spec(count as nat),
{
    let mut s = app_name_text();
    if count == 0 {
        return s;
    }
    s.append(" - ");
    let digits = decimal_text(count as u64);
    s.append(digits.as_str());
    s.append(" unread notification");
    if count > 1 {
        s.append("s");
    } else {
        s.append("");
    }
    s
}

/// Main window title for `count` unread notifications.
pub fn title_text(count: u32) -> (r: String)
    ensures
        r@ == title_spec(count as nat),
{
    if count == 0 {
        return app_name_text();
    }
    let mut s = String::from_str("(");
    let digits = decimal_text(count as u64);
    s.append(digits.as_str());
    s.append(") ");
    let name = app_name_text();
    s.append(name.as_str());
    s
}

/// Value handed to the dock or taskbar badge: cleared at zero.
pub fn badge_value(count: u32) -> (r: Option<i64>)
    ensures
        r matches Some(v) ==> badge_spec(count as nat) == Some(v as int),
        r is None <==> badge_spec(count as nat) is None,
{
    if count == 0 {
        None
    } else {
        Some(count as i64)
    }
}

/// The unread count and the three surfaces derived from it.
pub struct TrayState {
    count: u32,
    tooltip: String,
    title: String,
    badge: Option<i64>,
}

impl TrayState {
    /// Every surface agrees with the stored count.
    pub closed spec fn wf(&self) -> bool {
        &&& self.tooltip@ == tooltip_spec(self.count as nat)
        &&& self.title@ == title_spec(self.count as nat)
        &&& self.badge matches Some(v) ==> badge_spec(self.count as nat) == Some(v as int)
        &&& self.badge is None <==> badge_spec(self.count as nat) is None
    }

    /// The unread count last set.
    pub closed spec fn spec_count(&self) -> nat {
        self.count as nat
    }

    /// A tray with no unread notifications.
    pub fn new() -> (r: TrayState)
        ensures
            r.wf(),
            r.spec_count() == 0,
    {
        TrayState { count: 0, tooltip: tooltip_text(0), title: title_text(0), badge: badge_value(0) }
    }

    /// Sets the unread count; all three surfaces follow from it alone.
    pub fn set_badge(&mut self, count: u32)
        ensures
            final(self).wf(),
            final(self).spec_count() == count as nat,
    {
        self.count = count;
        self.tooltip = tooltip_text(count);
        self.title = title_text(count);
        self.badge = badge_value(count);
    }

    /// The unread count last set.
    pub fn count(&self) -> (r: u32)
        ensures
            r as nat == self.spec_count(),
    {
        self.count
    }

    /// The tray tooltip for the current count.
    pub fn tooltip(&self) -> (r: &str)
        requires
            self.wf(),
        ensures
            r@ == tooltip_spec(self.spec_count()),
    {
        self.tooltip.as_str()
    }

    /// The window title for the current count.
    pub fn title(&self) -> (r: &str)
        requires
            self.wf(),
        ensures
            r@ == title_spec(self.spec_count()),
    {
        self.title.as_str()
    }

    /// The dock or taskbar badge for the current count.
    pub fn badge(&self) -> (r: Option<i64>)
        requires
            self.wf(),
        ensures
            r matches Some(v) ==> badge_spec(self.spec_count()) == Some(v as int),
            r is None <==> badge_spec(self.spec_count()) is None,
    {
        self.badge
    }
}

} // verus!
