//! What the core tells the UI.

use vstd::prelude::*;

verus! {

/// The click-through flag, as the UI is told of it.
#[derive(Clone, Copy, Debug, PartialEq, Eq, Structural)]
pub struct LockState {
    /// `true` while pointer events pass through the window.
    pub locked: bool,
}

/// A message for the UI, sent under the name [`Notification::event_name`].
#[derive(Debug, PartialEq, Eq)]
pub enum Notification {
    /// Something changed next to the watched file; `path` is the file that
    /// was registered for watching.
    FileChanged { path: String },
    /// The click-through flag changed.
    LockStateChanged(LockState),
}

impl Notification {
    /// The name under which the notification is sent.
    pub open spec fn event_name_text(self) -> Seq<char> {
        match self {
            Notification::FileChanged { .. } => "md-file-changed"@,
            Notification::LockStateChanged(_) => "lock-state-changed"@,
        }
    }

    /// The name under which the notification is sent.
    pub fn event_name(&self) -> (name: &'static str)
        ensures
            name@ == self.event_name_text(),
    {
        match self {
            Notification::FileChanged { .. } => "md-file-changed",
            Notification::LockStateChanged(_) => "lock-state-changed",
        }
    }
}

} // verus!
