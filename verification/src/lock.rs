//! The click-through ("lock") flag and the decisions taken around it.
//!
//! Two triggers change the flag: the UI command, which asks for a value, and
//! the global hotkey, which flips it. Whoever changes it owes the window its
//! new click-through setting and the UI word of the new value: the command
//! gives that word in its answer, the hotkey in a notification. The functions
//! here decide what is owed; carrying it out is the caller's part.

use crate::error::CommandError;
use crate::notification::{LockState, Notification};
use vstd::prelude::*;

verus! {

/// The interaction mode of the widget window: `true` while pointer events pass
/// through it.
///
/// The store is a plain value. Every mutation takes `&mut self`, so a caller
/// that shares one store between the UI command and the hotkey handler has to
/// put it behind a lock, and each operation is then atomic with respect to the
/// other: no update is lost.
#[derive(Debug)]
pub struct LockStateStore {
    locked: bool,
}

impl View for LockStateStore {
    type V = bool;

    closed spec fn view(&self) -> bool {
        self.locked
    }
}

/// The flag after one toggle.
pub open spec fn toggled(locked: bool) -> bool {
    !locked
}

impl LockStateStore {
    /// The store at process start: unlocked.
    pub fn new() -> (store: Self)
        ensures
            store@ == false,
    {
        LockStateStore { locked: false }
    }

    /// Sets the flag and returns the value the store holds afterwards.
    pub fn set_locked(&mut self, value: bool) -> (now: bool)
        ensures
            final(self)@ == value,
            now == value,
    {
        self.locked = value;
        self.locked
    }

    /// Flips the flag and returns the new value.
    pub fn toggle(&mut self) -> (now: bool)
        ensures
            final(self)@ == toggled(old(self)@),
            now == final(self)@,
    {
        self.locked = !self.locked;
        self.locked
    }

    /// Reads the flag.
    pub fn get(&self) -> (now: bool)
        ensures
            now == self@,
    {
        self.locked
    }
}

/// Two toggles in a row, from whichever sources, each take effect: the first
/// yields the flipped flag, the second the flag that was there at the start.
pub proof fn lemma_two_toggles_both_count(locked: bool)
    ensures
        toggled(locked) != locked,
        toggled(toggled(locked)) == locked,
{
}

/// The key combination that flips the flag from anywhere on the desktop,
/// registered once at startup.
pub const HOTKEY: &'static str = "Control+Shift+Space";

/// Which way the hotkey went.
#[derive(Clone, Copy, Debug, PartialEq, Eq, Structural)]
pub enum KeyTransition {
    /// The key combination went down.
    Pressed,
    /// The key combination came up.
    Released,
}

/// What is owed after a hotkey event. The two effects are separate: the
/// caller attempts each of them, whether or not the other succeeded, and
/// reports a failure of either on its own.
#[derive(Debug, PartialEq, Eq)]
pub struct HotkeyEffects {
    /// The click-through setting to apply to the window, if any.
    pub click_through: Option<bool>,
    /// The notification to send to the UI, if any.
    pub notification: Option<Notification>,
}

/// The effects owed when the flag changed to `locked` and there is a window
/// to apply them to.
pub open spec fn effects_of_change(locked: bool) -> HotkeyEffects {
    HotkeyEffects {
        click_through: Some(locked),
        notification: Some(Notification::LockStateChanged(LockState { locked })),
    }
}

/// No effect at all.
pub open spec fn no_effects() -> HotkeyEffects {
    HotkeyEffects { click_through: None, notification: None }
}

/// The flag after a hotkey event: flipped on a press, untouched on a release.
pub open spec fn flag_after_hotkey(locked: bool, transition: KeyTransition) -> bool {
    match transition {
        KeyTransition::Pressed => toggled(locked),
        KeyTransition::Released => locked,
    }
}

/// The effects owed after a hotkey event that left the flag at `now`: both
/// of them on a press with a window to apply them to, none otherwise.
pub open spec fn effects_after_hotkey(
    now: bool,
    transition: KeyTransition,
    window_present: bool,
) -> HotkeyEffects {
    if transition is Pressed && window_present {
        effects_of_change(now)
    } else {
        no_effects()
    }
}

/// Handles one event of the global hotkey. A press flips the flag; a release
/// does nothing. Without a window the flag still flips, and the effects are
/// skipped, so flag and UI may differ until a window exists.
pub fn on_hotkey(store: &mut LockStateStore, transition: KeyTransition, window_present: bool) -> (effects:
    HotkeyEffects)
    ensures
        final(store)@ == flag_after_hotkey(old(store)@, transition),
        effects == effects_after_hotkey(final(store)@, transition, window_present),
{
    match transition {
        KeyTransition::Released => HotkeyEffects { click_through: None, notification: None },
        KeyTransition::Pressed => {
            let now = store.toggle();
            if window_present {
                HotkeyEffects {
                    click_through: Some(now),
                    notification: Some(Notification::LockStateChanged(LockState { locked: now })),
                }
            } else {
                HotkeyEffects { click_through: None, notification: None }
            }
        },
    }
}

/// The answer of the lock command, once the requested value is in the store
/// and the window was asked to follow. If the window refused, the command
/// fails with its words; otherwise it answers with what the store holds now,
/// which is the authoritative value and need not be what was asked for.
pub fn toggle_lock_reply(store: &LockStateStore, applied: Result<(), String>) -> (reply: Result<
    bool,
    CommandError,
>)
    ensures
        applied is Ok ==> reply == Ok::<bool, CommandError>(store@),
        applied matches Err(refusal) ==> reply == Err::<bool, CommandError>(
            CommandError::Window(refusal),
        ),
{
    match applied {
        Ok(()) => Ok(store.get()),
        Err(refusal) => Err(CommandError::Window(refusal)),
    }
}

} // verus!
