//! Global-hotkey logic: classification of low-level keyboard hook events,
//! the double-tap detector for the designated modifier key, and the focus
//! context that remembers which window should regain input focus.
//!
//! The OS hook itself (installing it, pumping messages, forwarding every
//! event to the next handler) lives outside the library; it feeds each
//! qualifying event into these functions and carries out the returned
//! decisions.

use vstd::prelude::*;

verus! {

/// Virtual-key code of the left control key.
pub const VK_LCONTROL_CODE: u32 = 0xA2;

/// Virtual-key code of the right control key.
pub const VK_RCONTROL_CODE: u32 = 0xA3;

/// Key-down window messages delivered to a low-level keyboard hook.
pub const WM_KEYDOWN_MSG: u32 = 0x100;

/// Key-up window messages delivered to a low-level keyboard hook.
pub const WM_KEYUP_MSG: u32 = 0x101;

/// Key-down variant delivered while the ALT key is held.
pub const WM_SYSKEYDOWN_MSG: u32 = 0x104;

/// Key-up variant delivered while the ALT key is held.
pub const WM_SYSKEYUP_MSG: u32 = 0x105;

/// How a low-level keyboard hook event relates to the double-tap gesture.
#[derive(Debug, PartialEq, Eq, Structural, Clone, Copy)]
pub enum HookEvent {
    /// A release of the designated modifier key: the only event the
    /// double-tap detector reacts to.
    ModifierRelease,
    /// A press of the designated modifier key: observed, never acted on.
    ModifierPress,
    /// Any other key or message: passed through untouched.
    Other,
}

/// Bit 7 of the hook flags is the transition state: set for a key release.
pub open spec fn spec_is_key_up(flags: u32) -> bool {
    (flags >> 7) & 1 == 1
}

/// True for the virtual-key codes of the designated modifier key.
pub open spec fn spec_is_modifier(vk_code: u32) -> bool {
    vk_code == VK_LCONTROL_CODE || vk_code == VK_RCONTROL_CODE
}

/// How the hook classifies an event with the given virtual-key code, window
/// message and flags.
pub open spec fn spec_classify(vk_code: u32, message: u32, flags: u32) -> HookEvent {
    if spec_is_modifier(vk_code) && spec_is_key_up(flags) && (message == WM_KEYUP_MSG
        || message == WM_SYSKEYUP_MSG) {
        HookEvent::ModifierRelease
    } else if spec_is_modifier(vk_code) && !spec_is_key_up(flags) && (message == WM_KEYDOWN_MSG
        || message == WM_SYSKEYDOWN_MSG) {
        HookEvent::ModifierPress
    } else {
        HookEvent::Other
    }
}

/// Classifies one low-level keyboard hook event. Only `ModifierRelease`
/// advances the double-tap detector; everything is forwarded to the OS by
/// the caller regardless of the classification.
pub fn classify_hook_event(vk_code: u32, message: u32, flags: u32) -> (r: HookEvent)
    ensures
        r == spec_classify(vk_code, message, flags),
{
    let is_modifier = vk_code == VK_LCONTROL_CODE || vk_code == VK_RCONTROL_CODE;
    let is_up = (flags >> 7) & 1 == 1;
    if is_modifier && is_up && (message == WM_KEYUP_MSG || message == WM_SYSKEYUP_MSG) {
        HookEvent::ModifierRelease
    } else if is_modifier && !is_up && (message == WM_KEYDOWN_MSG || message
        == WM_SYSKEYDOWN_MSG) {
        HookEvent::ModifierPress
    } else {
        HookEvent::Other
    }
}

/// State of the double-tap detector: the timestamp (milliseconds) of the
/// last qualifying modifier release, with `0` meaning idle (no release
/// armed). Timestamps are non-negative; `0` is reserved for the idle state.
#[derive(Debug, PartialEq, Eq, Structural, Clone, Copy)]
pub struct HotkeyState {
    pub last_release_ms: i64,
}

impl HotkeyState {
    /// Timestamps never go negative; `0` doubles as the idle marker.
    pub open spec fn wf(self) -> bool {
        self.last_release_ms >= 0
    }

    /// A release at `now` fires the toggle exactly when the detector is
    /// armed and the release falls inside the double-tap window.
    pub open spec fn spec_fires(self, now: i64) -> bool {
        self.last_release_ms != 0 && now - self.last_release_ms < crate::DOUBLE_TAP_WINDOW_MS
    }

    /// The detector after a release at `now`, paired with whether the
    /// release fired the toggle: firing resets to idle, anything else
    /// re-arms from `now`.
    pub open spec fn spec_release(self, now: i64) -> (HotkeyState, bool) {
        if self.spec_fires(now) {
            (HotkeyState { last_release_ms: 0 }, true)
        } else {
            (HotkeyState { last_release_ms: now }, false)
        }
    }

    /// A fresh detector, idle.
    pub fn new() -> (s: Self)
        ensures
            s.wf(),
            s.last_release_ms == 0,
    {
        HotkeyState { last_release_ms: 0 }
    }

    /// Advances the detector on a release of the designated modifier key at
    /// time `now` (milliseconds, positive: `0` is reserved for idle).
    /// Returns whether the release completed a double tap and the
    /// presentation-window toggle must fire.
    pub fn on_modifier_release(&mut self, now: i64) -> (fire: bool)
        requires
            old(self).wf(),
            now >= 1,
        ensures
            final(self).wf(),
            fire == old(self).spec_fires(now),
            (*final(self), fire) == old(self).spec_release(now),
    {
        let last = self.last_release_ms;
        if last != 0 && now - last < crate::DOUBLE_TAP_WINDOW_MS {
            self.last_release_ms = 0;
            true
        } else {
            self.last_release_ms = now;
            false
        }
    }
}

/// What the toggle does once it fires: a visible presentation window is
/// hidden; a hidden one is shown after capturing the handle of the window
/// that currently holds OS foreground focus.
#[derive(Debug, PartialEq, Eq, Structural, Clone, Copy)]
pub enum ToggleAction {
    Hide,
    Show { capture_handle: u64 },
}

/// Decides what a fired toggle does, from whether the presentation window
/// is currently visible and which window currently has foreground focus.
pub fn toggle_plan(window_visible: bool, foreground_handle: u64) -> (a: ToggleAction)
    ensures
        window_visible ==> a == ToggleAction::Hide,
        !window_visible ==> a == (ToggleAction::Show { capture_handle: foreground_handle }),
{
    if window_visible {
        ToggleAction::Hide
    } else {
        ToggleAction::Show { capture_handle: foreground_handle }
    }
}

/// The window handle captured when the presentation window was last shown,
/// with `0` meaning that no window has been captured yet. Written by the
/// hook's toggle action, read when paste injection restores focus.
#[derive(Debug, PartialEq, Eq, Structural, Clone, Copy)]
pub struct FocusContext {
    pub last_foreground_handle: u64,
}

impl FocusContext {
    /// A fresh context with no captured window.
    pub fn new() -> (c: Self)
        ensures
            c.last_foreground_handle == 0,
    {
        FocusContext { last_foreground_handle: 0 }
    }

    /// Records the handle of the window to which focus should later return.
    pub fn record(&mut self, handle: u64)
        ensures
            final(self).last_foreground_handle == handle,
    {
        self.last_foreground_handle = handle;
    }

    /// The handle focus restoration should target, or `None` when no window
    /// was ever captured: restoration is then skipped, never an error.
    pub fn handle_to_restore(&self) -> (r: Option<u64>)
        ensures
            self.last_foreground_handle != 0 ==> r == Some(self.last_foreground_handle),
            self.last_foreground_handle == 0 ==> r is None,
    {
        if self.last_foreground_handle != 0 {
            Some(self.last_foreground_handle)
        } else {
            None
        }
    }
}

/// Law: from an idle detector, a release at `t0` arms it without firing, and
/// a second release within the double-tap window fires the toggle and
/// returns the detector to idle.
pub proof fn lemma_double_tap_fires(s: HotkeyState, t0: i64, t1: i64)
    requires
        s.last_release_ms == 0,
        1 <= t0 <= t1,
        t1 - t0 < crate::DOUBLE_TAP_WINDOW_MS,
    ensures
        !s.spec_release(t0).1,
        s.spec_release(t0).0.last_release_ms == t0,
        s.spec_release(t0).0.spec_release(t1).1,
        s.spec_release(t0).0.spec_release(t1).0.last_release_ms == 0,
{
}

/// Law: from an idle detector, a release at `t0` arms it, and a second
/// release at or past the end of the double-tap window does not fire; it
/// re-arms the detector from the later release instead.
pub proof fn lemma_double_tap_rearms(s: HotkeyState, t0: i64, t1: i64)
    requires
        s.last_release_ms == 0,
        1 <= t0 <= t1,
        t1 - t0 >= crate::DOUBLE_TAP_WINDOW_MS,
    ensures
        !s.spec_release(t0).1,
        s.spec_release(t0).0.last_release_ms == t0,
        !s.spec_release(t0).0.spec_release(t1).1,
        s.spec_release(t0).0.spec_release(t1).0.last_release_ms == t1,
{
}

} // verus!
