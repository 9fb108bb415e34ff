//! The stateful core of an always-on-top task widget: path validation for the
//! markdown file it shows, the click-through ("lock") flag shared by the UI
//! command and the global hotkey, and the single file watch that reports
//! changes on disk.

pub mod error;
pub mod lock;
pub mod notification;
pub mod path;
pub mod watch;
