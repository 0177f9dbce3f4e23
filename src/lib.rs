//! The core of a multi-window desktop shell: window templates, window
//! labels, the "File" menu with its "New Window" command, and the routing of
//! menu events to window creation.
pub mod label;
pub mod template;
pub mod menu;
pub mod router;
