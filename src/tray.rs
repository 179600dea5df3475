use vstd::prelude::*;

verus! {

/// Identifier of the menu item that shows the main window.
pub const MENU_SHOW: &'static str = "show";

/// Identifier of the display-only status item.
pub const MENU_STATUS: &'static str = "status";

/// Identifier of the menu item that quits the application.
pub const MENU_QUIT: &'static str = "quit";

/// Label of the window the tray brings forward.
pub const MAIN_WINDOW: &'static str = "main";

/// Tooltip of the tray icon.
pub const TRAY_TOOLTIP: &'static str = "AI Matrx Desktop";

pub const LABEL_SHOW: &'static str = "Show AI Matrx";

/// Initial text of the status item, which the host updates later.
pub const LABEL_STATUS: &'static str = "Status: Starting...";

pub const LABEL_QUIT: &'static str = "Quit AI Matrx";

/// One entry of the tray menu, top to bottom.
pub enum MenuEntry {
    Item { id: &'static str, label: &'static str, enabled: bool },
    Separator,
}

pub open spec fn is_item(entry: MenuEntry, id: Seq<char>, label: Seq<char>, enabled: bool) -> bool {
    match entry {
        MenuEntry::Item { id: i, label: l, enabled: e } => i@ == id && l@ == label && e == enabled,
        MenuEntry::Separator => false,
    }
}

/// The tray menu: "show", a separator, the disabled status item, a
/// separator, and "quit".
pub fn tray_menu() -> (r: Vec<MenuEntry>)
    ensures
        r@.len() == 5,
        is_item(r@[0], MENU_SHOW@, LABEL_SHOW@, true),
        r@[1] is Separator,
        is_item(r@[2], MENU_STATUS@, LABEL_STATUS@, false),
        r@[3] is Separator,
        is_item(r@[4], MENU_QUIT@, LABEL_QUIT@, true),
{
    vec![
        MenuEntry::Item { id: MENU_SHOW, label: LABEL_SHOW, enabled: true },
        MenuEntry::Separator,
        MenuEntry::Item { id: MENU_STATUS, label: LABEL_STATUS, enabled: false },
        MenuEntry::Separator,
        MenuEntry::Item { id: MENU_QUIT, label: LABEL_QUIT, enabled: true },
    ]
}

/// What the host does in answer to a tray event.
#[derive(Clone, Copy, PartialEq, Eq, Structural, Debug)]
pub enum TrayAction {
    /// Show and focus the main window; the supervisor is left alone.
    ShowMainWindow,
    /// Stop the engine (ignoring a kill failure), then exit the application.
    Quit,
    /// Nothing to do.
    Ignore,
}

impl TrayAction {
    /// Whether the host must stop the engine before acting.
    pub fn stops_engine(&self) -> (r: bool)
        ensures
            r <==> *self == TrayAction::Quit,
    {
        match self {
            TrayAction::Quit => true,
            _ => false,
        }
    }
}

#[derive(Clone, Copy, PartialEq, Eq, Structural, Debug)]
pub enum MouseButton {
    Left,
    Right,
    Middle,
}

#[derive(Clone, Copy, PartialEq, Eq, Structural, Debug)]
pub enum ButtonState {
    Up,
    Down,
}

/// An event on the tray icon itself.
#[derive(Clone, Copy, PartialEq, Eq, Structural, Debug)]
pub enum IconEvent {
    Click { button: MouseButton, state: ButtonState },
    /// Double clicks, hovering and the like.
    Other,
}

/// Whether two strings hold the same characters.
fn same_text(a: &str, b: &str) -> (r: bool)
    ensures
        r == (a@ == b@),
{
    let n = a.unicode_len();
    if n != b.unicode_len() {
        return false;
    }
    let mut i: usize = 0;
    while i < n
        invariant
            n == a@.len(),
            n == b@.len(),
            i <= n,
            a@.subrange(0, i as int) == b@.subrange(0, i as int),
        decreases n - i,
    {
        if a.get_char(i) != b.get_char(i) {
            assert(a@[i as int] != b@[i as int]);
            return false;
        }
        assert(a@.subrange(0, i + 1) == a@.subrange(0, i as int).push(a@[i as int]));
        assert(b@.subrange(0, i + 1) == b@.subrange(0, i as int).push(b@[i as int]));
        i = i + 1;
    }
    assert(a@ == a@.subrange(0, n as int));
    assert(b@ == b@.subrange(0, n as int));
    true
}

pub open spec fn menu_action_for(id: Seq<char>) -> TrayAction {
    if id == MENU_SHOW@ {
        TrayAction::ShowMainWindow
    } else if id == MENU_QUIT@ {
        TrayAction::Quit
    } else {
        TrayAction::Ignore
    }
}

/// Maps the identifier of a clicked menu item to its action.
pub fn menu_action(id: &str) -> (r: TrayAction)
    ensures
        r == menu_action_for(id@),
{
    if same_text(id, MENU_SHOW) {
        TrayAction::ShowMainWindow
    } else if same_text(id, MENU_QUIT) {
        TrayAction::Quit
    } else {
        TrayAction::Ignore
    }
}

/// Maps an event on the tray icon to its action: releasing the left
/// button shows the main window; nothing else does anything.
pub fn icon_action(event: IconEvent) -> (r: TrayAction)
    ensures
        r == (if event == (IconEvent::Click { button: MouseButton::Left, state: ButtonState::Up }) {
            TrayAction::ShowMainWindow
        } else {
            TrayAction::Ignore
        }),
{
    match event {
        IconEvent::Click { button: MouseButton::Left, state: ButtonState::Up } => {
            TrayAction::ShowMainWindow
        },
        _ => TrayAction::Ignore,
    }
}

/// What the host does when the user asks to close the main window.
#[derive(Clone, Copy, PartialEq, Eq, Structural, Debug)]
pub struct CloseAction {
    pub hide_window: bool,
    pub prevent_close: bool,
    pub stop_engine: bool,
}

/// Closing the window hides it and keeps the application, and the engine,
/// running in the tray: a close request is never a stop.
pub fn close_request_action() -> (r: CloseAction)
    ensures
        r.hide_window,
        r.prevent_close,
        !r.stop_engine,
{
    CloseAction { hide_window: true, prevent_close: true, stop_engine: false }
}

} // verus!
