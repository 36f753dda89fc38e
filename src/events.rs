use vstd::prelude::*;

verus! {

/// Whether the global hotkey went down or came up.
#[derive(Clone, Copy, Debug, PartialEq, Eq, Structural)]
pub enum KeyState {
    Pressed,
    Released,
}

/// What the launcher does to its window in answer to an event.
#[derive(Clone, Copy, Debug, PartialEq, Eq, Structural)]
pub enum WindowAction {
    /// Leave the window as it is.
    Nothing,
    /// Hide the window.
    Hide,
    /// Place the window on the active monitor, show it and focus it.
    Show,
    /// Leave the application.
    Quit,
}

/// A mouse button of a click on the tray icon.
#[derive(Clone, Copy, Debug, PartialEq, Eq, Structural)]
pub enum PointerButton {
    Left,
    Right,
    Middle,
}

/// Whether a tray click event reports the button going down or coming up.
#[derive(Clone, Copy, Debug, PartialEq, Eq, Structural)]
pub enum ButtonState {
    Up,
    Down,
}

/// The events of the tray icon that the launcher tells apart.
#[derive(Clone, Copy, Debug, PartialEq, Eq, Structural)]
pub enum TrayEvent {
    Click { button: PointerButton, state: ButtonState },
    Other,
}

/// The events of the window that the launcher tells apart.
#[derive(Clone, Copy, Debug, PartialEq, Eq, Structural)]
pub enum WindowEventKind {
    CloseRequested,
    Other,
}

/// The identifier of the tray menu's entry that shows the window.
pub const MENU_SHOW_ID: &'static str = "show";

/// The identifier of the tray menu's entry that leaves the application.
pub const MENU_QUIT_ID: &'static str = "quit";

/// The process exit code used when the user leaves from the tray menu.
pub const QUIT_EXIT_CODE: i32 = 0;

/// The hotkey toggles the window when it goes down: a visible window is
/// hidden, any other is shown. `visible` is `None` when the window system
/// could not say; the window then counts as hidden. Releasing the hotkey
/// does nothing.
pub open spec fn spec_shortcut_action(state: KeyState, visible: Option<bool>) -> WindowAction {
    match state {
        KeyState::Pressed => if visible == Some(true) {
            WindowAction::Hide
        } else {
            WindowAction::Show
        },
        KeyState::Released => WindowAction::Nothing,
    }
}

pub fn shortcut_action(state: KeyState, visible: Option<bool>) -> (r: WindowAction)
    ensures
        r == spec_shortcut_action(state, visible),
{
    match state {
        KeyState::Pressed => {
            let shown = match visible {
                Some(v) => v,
                None => false,
            };
            if shown {
                WindowAction::Hide
            } else {
                WindowAction::Show
            }
        },
        KeyState::Released => WindowAction::Nothing,
    }
}

/// Whether two strings hold the same characters.
pub fn same_text(a: &str, b: &str) -> (r: bool)
    ensures
        r == (a@ == b@),
{
    let n = a.unicode_len();
    if n != b.unicode_len() {
        return false;
    }
    let mut i: usize = 0;
    while i < n
        invariant
            n == a@.len() == b@.len(),
            i <= n,
            forall|j: int| 0 <= j < i ==> a@[j] == b@[j],
        decreases n - i,
    {
        if a.get_char(i) != b.get_char(i) {
            return false;
        }
        i = i + 1;
    }
    proof {
        assert(a@ =~= b@);
    }
    true
}

/// The entry "show" of the tray menu shows the window, "quit" leaves the
/// application; any other identifier does nothing.
pub open spec fn spec_menu_action(id: Seq<char>) -> WindowAction {
    if id == MENU_SHOW_ID@ {
        WindowAction::Show
    } else if id == MENU_QUIT_ID@ {
        WindowAction::Quit
    } else {
        WindowAction::Nothing
    }
}

pub fn menu_action(id: &str) -> (r: WindowAction)
    ensures
        r == spec_menu_action(id@),
{
    if same_text(id, MENU_SHOW_ID) {
        WindowAction::Show
    } else if same_text(id, MENU_QUIT_ID) {
        WindowAction::Quit
    } else {
        WindowAction::Nothing
    }
}

/// Releasing the left button over the tray icon shows the window; every
/// other tray event does nothing.
pub open spec fn spec_tray_action(event: TrayEvent) -> WindowAction {
    match event {
        TrayEvent::Click { button: PointerButton::Left, state: ButtonState::Up } => WindowAction::Show,
        _ => WindowAction::Nothing,
    }
}

pub fn tray_action(event: TrayEvent) -> (r: WindowAction)
    ensures
        r == spec_tray_action(event),
{
    match event {
        TrayEvent::Click { button: PointerButton::Left, state: ButtonState::Up } => WindowAction::Show,
        _ => WindowAction::Nothing,
    }
}

/// Whether the window event asks for the global hotkey to be released:
/// exactly when the window is asked to close.
pub fn releases_shortcut(event: WindowEventKind) -> (r: bool)
    ensures
        r <==> event == WindowEventKind::CloseRequested,
{
    match event {
        WindowEventKind::CloseRequested => true,
        WindowEventKind::Other => false,
    }
}

} // verus!
