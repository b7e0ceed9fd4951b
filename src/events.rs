use vstd::prelude::*;
use crate::window::{toggle_ops, toggle_window, Visibility, WindowOp};

verus! {

/// The id of the tray icon.
pub const TRAY_ID: &'static str = "main";

/// The tooltip of the tray icon.
pub const TRAY_TOOLTIP: &'static str = "QuickCMD - Click to open";

/// The id of the menu entry that toggles the window.
pub const MENU_SHOW_ID: &'static str = "show";

/// The text of the menu entry that toggles the window.
pub const MENU_SHOW_TEXT: &'static str = "Show QuickCMD";

/// The id of the menu entry that ends the process.
pub const MENU_QUIT_ID: &'static str = "quit";

/// The text of the menu entry that ends the process.
pub const MENU_QUIT_TEXT: &'static str = "Quit QuickCMD";

#[derive(Clone, Copy, Debug, PartialEq, Eq, Structural)]
pub enum MouseButton {
    Left,
    Right,
    Middle,
}

#[derive(Clone, Copy, Debug, PartialEq, Eq, Structural)]
pub enum MouseButtonState {
    Up,
    Down,
}

/// What happened on the tray icon.
#[derive(Clone, Copy, Debug, PartialEq, Eq, Structural)]
pub enum TrayEvent {
    Click { button: MouseButton, button_state: MouseButtonState },
    DoubleClick { button: MouseButton },
    Enter,
    Move,
    Leave,
}

/// What the host framework is to do after a menu entry was chosen.
#[derive(Debug)]
pub enum MenuReaction {
    /// Perform these operations on the main window, first to last.
    Window(Vec<WindowOp>),
    /// End the process with this exit code.
    Exit(i32),
}

/// A click of the left button, pressed or released.
pub open spec fn is_left_click(event: TrayEvent) -> bool {
    event matches TrayEvent::Click { button: MouseButton::Left, .. }
}

/// The window operations that a tray event calls for: a left click toggles,
/// every other event is ignored.
pub open spec fn tray_ops(event: TrayEvent, observed: Option<Visibility>) -> Seq<WindowOp> {
    if is_left_click(event) {
        toggle_ops(observed)
    } else {
        seq![]
    }
}

/// Decides what a tray event does, given what was observed of the main window.
pub fn on_tray_event(event: TrayEvent, observed: Option<Visibility>) -> (ops: Vec<WindowOp>)
    ensures
        ops@ == tray_ops(event, observed),
{
    match event {
        TrayEvent::Click { button: MouseButton::Left, .. } => toggle_window(observed),
        _ => Vec::new(),
    }
}

/// Whether two strings hold the same characters.
fn same_text(a: &str, b: &str) -> (r: bool)
    ensures
        r == (a@ == b@),
{
    let n = a.unicode_len();
    if n != b.unicode_len() {
        return false;
    }
    let mut i: usize = 0;
    while i < n
        invariant
            n == a@.len(),
            n == b@.len(),
            i <= n,
            forall|k: int| 0 <= k < i ==> a@[k] == b@[k],
        decreases n - i,
    {
        if a.get_char(i) != b.get_char(i) {
            return false;
        }
        i = i + 1;
    }
    assert(a@ =~= b@);
    true
}

/// Decides what choosing the menu entry `id` does, given what was observed of
/// the main window: "quit" ends the process with exit code 0 whatever the
/// window's state, "show" toggles the window, and any other id is ignored.
pub fn on_menu_event(id: &str, observed: Option<Visibility>) -> (r: MenuReaction)
    ensures
        id@ == MENU_QUIT_ID@ ==> r == MenuReaction::Exit(0),
        id@ == MENU_SHOW_ID@ ==> (r matches MenuReaction::Window(ops) && ops@ == toggle_ops(observed)),
        id@ != MENU_QUIT_ID@ && id@ != MENU_SHOW_ID@ ==> (r matches MenuReaction::Window(ops) && ops@.len() == 0),
{
    proof {
        reveal_strlit("quit");
        reveal_strlit("show");
        assert(MENU_QUIT_ID@[0] != MENU_SHOW_ID@[0]);
    }
    if same_text(id, MENU_QUIT_ID) {
        MenuReaction::Exit(0)
    } else if same_text(id, MENU_SHOW_ID) {
        MenuReaction::Window(toggle_window(observed))
    } else {
        MenuReaction::Window(Vec::new())
    }
}

/// What setting up the application does to the main window, once it is
/// created: it hides it, when there is one.
pub fn on_setup(observed: Option<Visibility>) -> (ops: Vec<WindowOp>)
    ensures
        observed is Some ==> ops@ == seq![WindowOp::Hide],
        observed is None ==> ops@.len() == 0,
{
    match observed {
        Some(_) => vec![WindowOp::Hide],
        None => Vec::new(),
    }
}

} // verus!
