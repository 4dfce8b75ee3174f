// Window lifecycle coordination for a table and chart editor: descriptors of
// the windows the editor opens, the errors and diagnostics of a failed open,
// the state of the main window while dialogs are open, and the menu bar.
pub mod descriptor;
pub mod error;
pub mod menubar;
pub mod windows;
