use vstd::prelude::*;

verus! {

/// The actions of the tray menu.
#[derive(Clone, Copy, Debug, PartialEq, Eq, Structural)]
pub enum TrayCommand {
    /// Show and focus the main window.
    Show,
    /// Look for an update in the background.
    CheckUpdates,
    /// Leave the application.
    Quit,
}

/// Identifier of a tray menu item.
pub open spec fn command_id(c: TrayCommand) -> Seq<char> {
    match c {
        TrayCommand::Show => "show"@,
        TrayCommand::CheckUpdates => "check_updates"@,
        TrayCommand::Quit => "quit"@,
    }
}

/// Text of a tray menu item.
pub open spec fn command_label(c: TrayCommand) -> Seq<char> {
    match c {
        TrayCommand::Show => "Show App"@,
        TrayCommand::CheckUpdates => "Check for Updates"@,
        TrayCommand::Quit => "Quit"@,
    }
}

impl TrayCommand {
    pub fn id(&self) -> (r: &'static str)
        ensures
            r@ == command_id(*self),
    {
        match self {
            TrayCommand::Show => "show",
            TrayCommand::CheckUpdates => "check_updates",
            TrayCommand::Quit => "quit",
        }
    }

    pub fn label(&self) -> (r: &'static str)
        ensures
            r@ == command_label(*self),
    {
        match self {
            TrayCommand::Show => "Show App",
            TrayCommand::CheckUpdates => "Check for Updates",
            TrayCommand::Quit => "Quit",
        }
    }
}

/// The command whose identifier is `id`; none for an unknown identifier.
pub fn command_for_id(id: &str) -> (r: Option<TrayCommand>)
    ensures
        r matches Some(c) ==> command_id(c) == id@,
        r is None ==> forall|c: TrayCommand| command_id(c) != id@,
{
    let given = String::from_str(id);
    let show = String::from_str(TrayCommand::Show.id());
    let check = String::from_str(TrayCommand::CheckUpdates.id());
    let quit = String::from_str(TrayCommand::Quit.id());
    if given == show {
        Some(TrayCommand::Show)
    } else if given == check {
        Some(TrayCommand::CheckUpdates)
    } else if given == quit {
        Some(TrayCommand::Quit)
    } else {
        assert forall|c: TrayCommand| command_id(c) != id@ by {
            match c {
                TrayCommand::Show => {},
                TrayCommand::CheckUpdates => {},
                TrayCommand::Quit => {},
            }
        }
        None
    }
}

/// One line of the tray menu.
#[derive(Clone, Copy, Debug, PartialEq, Eq, Structural)]
pub enum TrayEntry {
    Item(TrayCommand),
    Separator,
}

/// The tray menu, top to bottom.
pub open spec fn tray_menu_spec() -> Seq<TrayEntry> {
    seq![
        TrayEntry::Item(TrayCommand::Show),
        TrayEntry::Separator,
        TrayEntry::Item(TrayCommand::CheckUpdates),
        TrayEntry::Separator,
        TrayEntry::Item(TrayCommand::Quit),
    ]
}

/// The tray menu, top to bottom.
pub fn tray_menu() -> (r: Vec<TrayEntry>)
    ensures
        r@ == tray_menu_spec(),
{
    let mut r: Vec<TrayEntry> = Vec::new();
    r.push(TrayEntry::Item(TrayCommand::Show));
    r.push(TrayEntry::Separator);
    r.push(TrayEntry::Item(TrayCommand::CheckUpdates));
    r.push(TrayEntry::Separator);
    r.push(TrayEntry::Item(TrayCommand::Quit));
    assert(r@ =~= tray_menu_spec());
    r
}

/// Mouse buttons reported by a tray click.
#[derive(Clone, Copy, Debug, PartialEq, Eq, Structural)]
pub enum MouseButton {
    Left,
    Right,
    Middle,
}

/// Whether a tray click was reported on press or on release.
#[derive(Clone, Copy, Debug, PartialEq, Eq, Structural)]
pub enum ButtonState {
    Down,
    Up,
}

/// A release of the primary button on the tray icon shows the window; any
/// other click is left to the menu.
pub fn tray_click(button: MouseButton, state: ButtonState) -> (r: Option<TrayCommand>)
    ensures
        r == (if button == MouseButton::Left && state == ButtonState::Up {
            Some(TrayCommand::Show)
        } else {
            None
        }),
{
    if button == MouseButton::Left && state == ButtonState::Up {
        Some(TrayCommand::Show)
    } else {
        None
    }
}

/// The standard items of the application menu.
#[derive(Clone, Copy, Debug, PartialEq, Eq, Structural)]
pub enum StandardItem {
    Quit,
    Undo,
    Redo,
    Cut,
    Copy,
    Paste,
    SelectAll,
    Minimize,
    Maximize,
    Fullscreen,
    CloseWindow,
    Separator,
}

/// Text of a standard item; none for a separator.
pub open spec fn item_label(item: StandardItem) -> Seq<char> {
    match item {
        StandardItem::Quit => "Quit"@,
        StandardItem::Undo => "Undo"@,
        StandardItem::Redo => "Redo"@,
        StandardItem::Cut => "Cut"@,
        StandardItem::Copy => "Copy"@,
        StandardItem::Paste => "Paste"@,
        StandardItem::SelectAll => "Select All"@,
        StandardItem::Minimize => "Minimize"@,
        StandardItem::Maximize => "Zoom"@,
        StandardItem::Fullscreen => "Toggle Full Screen"@,
        StandardItem::CloseWindow => "Close"@,
        StandardItem::Separator => ""@,
    }
}

impl StandardItem {
    pub fn label(&self) -> (r: &'static str)
        ensures
            r@ == item_label(*self),
    {
        match self {
            StandardItem::Quit => "Quit",
            StandardItem::Undo => "Undo",
            StandardItem::Redo => "Redo",
            StandardItem::Cut => "Cut",
            StandardItem::Copy => "Copy",
            StandardItem::Paste => "Paste",
            StandardItem::SelectAll => "Select All",
            StandardItem::Minimize => "Minimize",
            StandardItem::Maximize => "Zoom",
            StandardItem::Fullscreen => "Toggle Full Screen",
            StandardItem::CloseWindow => "Close",
            StandardItem::Separator => "",
        }
    }
}

/// One submenu of the application menu.
pub struct MenuGroup {
    pub title: &'static str,
    pub items: Vec<StandardItem>,
}

/// The application menu's submenus, by title, with their items.
pub open spec fn app_menu_spec() -> Seq<(Seq<char>, Seq<StandardItem>)> {
    seq![
        ("File"@, seq![StandardItem::Quit]),
        (
            "Edit"@,
            seq![
                StandardItem::Undo,
                StandardItem::Redo,
                StandardItem::Separator,
                StandardItem::Cut,
                StandardItem::Copy,
                StandardItem::Paste,
                StandardItem::SelectAll,
            ],
        ),
        (
            "View"@,
            seq![
                StandardItem::Minimize,
                StandardItem::Maximize,
                StandardItem::Separator,
                StandardItem::Fullscreen,
            ],
        ),
        ("Window"@, seq![StandardItem::Minimize, StandardItem::CloseWindow]),
    ]
}

/// The application menu, left to right: file, edit, view and window groups
/// of standard items.
pub fn app_menu() -> (r: Vec<MenuGroup>)
    ensures
        r@.len() == app_menu_spec().len(),
        forall|i: int|
            0 <= i < r@.len() ==> (#[trigger] r@[i]).title@ == app_menu_spec()[i].0
                && r@[i].items@ == app_menu_spec()[i].1,
{
    let mut file: Vec<StandardItem> = Vec::new();
    file.push(StandardItem::Quit);
    let mut edit: Vec<StandardItem> = Vec::new();
    edit.push(StandardItem::Undo);
    edit.push(StandardItem::Redo);
    edit.push(StandardItem::Separator);
    edit.push(StandardItem::Cut);
    edit.push(StandardItem::Copy);
    edit.push(StandardItem::Paste);
    edit.push(StandardItem::SelectAll);
    let mut view: Vec<StandardItem> = Vec::new();
    view.push(StandardItem::Minimize);
    view.push(StandardItem::Maximize);
    view.push(StandardItem::Separator);
    view.push(StandardItem::Fullscreen);
    let mut window: Vec<StandardItem> = Vec::new();
    window.push(StandardItem::Minimize);
    window.push(StandardItem::CloseWindow);
    let ghost spec = app_menu_spec();
    assert(file@ =~= spec[0].1);
    assert(edit@ =~= spec[1].1);
    assert(view@ =~= spec[2].1);
    assert(window@ =~= spec[3].1);
    let mut r: Vec<MenuGroup> = Vec::new();
    r.push(MenuGroup { title: "File", items: file });
    r.push(MenuGroup { title: "Edit", items: edit });
    r.push(MenuGroup { title: "View", items: view });
    r.push(MenuGroup { title: "Window", items: window });
    r
}

} // verus!
