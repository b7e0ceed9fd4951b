//! Decisions of a menu-bar utility: a tray icon that shows and hides the one
//! application window, a two-entry tray menu, and a greeting command.
//!
//! The library decides; the host GUI framework acts. Each event handler takes
//! what was observed of the window and returns the window operations to
//! perform, in order, or the request to end the process. `MainWindow` models
//! what those operations do, and the laws in `window` are stated over it.
pub mod events;
pub mod greeting;
pub mod window;

pub use events::{
    on_menu_event, on_setup, on_tray_event, MenuReaction, MouseButton, MouseButtonState, TrayEvent,
    MENU_QUIT_ID, MENU_QUIT_TEXT, MENU_SHOW_ID, MENU_SHOW_TEXT, TRAY_ID, TRAY_TOOLTIP,
};
pub use greeting::greet;
pub use window::{show_window, toggle_window, MainWindow, Visibility, WindowOp, MAIN_WINDOW_LABEL};
