//! The keyboard event that a low-level keyboard hook of Windows delivers.

use std::time::Duration;
use vstd::prelude::*;
use crate::event_handler::{HoldEvent, KeyState, MenuTrigger, MenuTriggerEvent};
use crate::keys::{
    VirtualKey, VK_LMENU, VK_LWIN, VK_MENU, VK_RMENU, VK_RWIN, WM_KEYDOWN, WM_KEYUP,
    WM_SYSKEYDOWN, WM_SYSKEYUP,
};

verus! {

/// The keystroke message that came with a keyboard event.
#[derive(Debug, Clone, Copy, PartialEq, Eq, Structural)]
pub enum WmKeyState {
    /// `WM_KEYDOWN`
    KeyDown,
    /// `WM_KEYUP`
    KeyUp,
    /// `WM_SYSKEYDOWN`
    SysKeyDown,
    /// `WM_SYSKEYUP`
    SysKeyUp,
}

impl WmKeyState {
    /// The keystroke message with the number `w_param`, if there is one.
    pub open spec fn spec_from_w_param(w_param: usize) -> Option<WmKeyState> {
        if w_param == WM_KEYDOWN {
            Some(WmKeyState::KeyDown)
        } else if w_param == WM_KEYUP {
            Some(WmKeyState::KeyUp)
        } else if w_param == WM_SYSKEYDOWN {
            Some(WmKeyState::SysKeyDown)
        } else if w_param == WM_SYSKEYUP {
            Some(WmKeyState::SysKeyUp)
        } else {
            None
        }
    }

    /// Whether the message tells of a press or of a release.
    pub open spec fn spec_key_state(self) -> KeyState {
        match self {
            WmKeyState::KeyDown => KeyState::Down,
            WmKeyState::SysKeyDown => KeyState::Down,
            WmKeyState::KeyUp => KeyState::Up,
            WmKeyState::SysKeyUp => KeyState::Up,
        }
    }

    /// The keystroke message with the number `w_param`; `None` if `w_param` is
    /// the number of no keystroke message.
    pub fn from_w_param(w_param: usize) -> (message: Option<WmKeyState>)
        ensures
            message == Self::spec_from_w_param(w_param),
    {
        if w_param == WM_KEYDOWN as usize {
            Some(WmKeyState::KeyDown)
        } else if w_param == WM_KEYUP as usize {
            Some(WmKeyState::KeyUp)
        } else if w_param == WM_SYSKEYDOWN as usize {
            Some(WmKeyState::SysKeyDown)
        } else if w_param == WM_SYSKEYUP as usize {
            Some(WmKeyState::SysKeyUp)
        } else {
            None
        }
    }

    /// Whether the message tells of a press or of a release.
    pub fn key_state(&self) -> (state: KeyState)
        ensures
            state == self.spec_key_state(),
    {
        match self {
            WmKeyState::KeyDown | WmKeyState::SysKeyDown => KeyState::Down,
            WmKeyState::KeyUp | WmKeyState::SysKeyUp => KeyState::Up,
        }
    }

    /// `true` if the message tells of a press.
    pub fn is_key_down(&self) -> (down: bool)
        ensures
            down == (*self == WmKeyState::KeyDown || *self == WmKeyState::SysKeyDown),
    {
        KeyState::from(*self) == KeyState::Down
    }

    /// `true` if the message tells of a release.
    pub fn is_key_up(&self) -> (up: bool)
        ensures
            up == (*self == WmKeyState::KeyUp || *self == WmKeyState::SysKeyUp),
    {
        !self.is_key_down()
    }
}

impl From<WmKeyState> for KeyState {
    fn from(value: WmKeyState) -> (state: KeyState) {
        value.key_state()
    }
}

impl vstd::std_specs::convert::FromSpecImpl<WmKeyState> for KeyState {
    open spec fn obeys_from_spec() -> bool {
        true
    }

    open spec fn from_spec(value: WmKeyState) -> KeyState {
        value.spec_key_state()
    }
}

/// What a low-level keyboard hook is told about a keystroke.
#[derive(Debug, Clone, Copy, PartialEq, Eq, Structural)]
pub struct KeyboardHookStruct {
    /// The virtual-key code of the key.
    pub vk_code: u32,
    /// The hardware scan code of the key.
    pub scan_code: u32,
    /// Flags: extended key, injected event, Alt held, transition.
    pub flags: u32,
    /// When the keystroke happened, in milliseconds on a clock that starts
    /// over after `u32::MAX`.
    pub time: u32,
    /// What the sender of the keystroke attached to it.
    pub extra_info: usize,
}

/// One keyboard event from a low-level keyboard hook.
#[derive(Debug, Clone, Copy, PartialEq, Eq, Structural)]
pub struct KeyboardEvent {
    /// What the hook was told about the keystroke.
    pub kbd: KeyboardHookStruct,
    /// The keystroke message that came with it.
    pub wm_key_state: WmKeyState,
}

/// The milliseconds from `earlier` to `later` on a clock that counts to
/// `u32::MAX` and then starts over at zero.
pub open spec fn millis_between(earlier: u32, later: u32) -> u32 {
    if later >= earlier {
        (later - earlier) as u32
    } else {
        (later + 0x1_0000_0000 - earlier) as u32
    }
}

/// The `Duration` that `Duration::from_millis` makes of a number of
/// milliseconds.
pub uninterp spec fn duration_of_millis(millis: u64) -> Duration;

/// `std::time::Duration::from_millis`: the duration of that many milliseconds.
/// The result depends on the number alone.
#[verifier::external_body]
fn duration_from_millis(millis: u64) -> (duration: Duration)
    ensures
        duration == duration_of_millis(millis),
{
    Duration::from_millis(millis)
}

impl KeyboardEvent {
    /// The virtual-key code of the event: the low 16 bits of the code that the
    /// hook was told.
    pub open spec fn spec_virtual_key(&self) -> VirtualKey {
        (self.kbd.vk_code % 0x1_0000) as u16
    }

    /// The event that a hook procedure is called with: `kbd` is what its
    /// `lParam` points to, and `w_param` is its `wParam`, the number of a
    /// keystroke message.
    pub fn from_params(kbd: KeyboardHookStruct, w_param: usize) -> (event: KeyboardEvent)
        requires
            WmKeyState::spec_from_w_param(w_param) is Some,
        ensures
            event.kbd == kbd,
            Some(event.wm_key_state) == WmKeyState::spec_from_w_param(w_param),
    {
        let wm_key_state = WmKeyState::from_w_param(w_param).unwrap();
        KeyboardEvent { kbd, wm_key_state }
    }

    /// The virtual-key code of the event.
    pub fn virtual_key(&self) -> (key: VirtualKey)
        ensures
            key == self.spec_virtual_key(),
    {
        let code: u32 = self.kbd.vk_code;
        assert((code as u16) == (code % 0x1_0000) as u16) by (bit_vector);
        #[verifier::truncate]
        (code as u16)
    }

    /// The milliseconds from `earlier` to this event. The clock of the events
    /// starts over after `u32::MAX`, and so does the count: an event at 1 is
    /// two milliseconds after one at `u32::MAX`.
    pub fn millis_since(&self, earlier: &Self) -> (millis: u32)
        ensures
            millis == millis_between(earlier.kbd.time, self.kbd.time),
    {
        self.kbd.time.wrapping_sub(earlier.kbd.time)
    }

    /// The time from `earlier` to this event.
    pub fn duration_since(&self, earlier: &Self) -> (duration: Duration)
        ensures
            duration == duration_of_millis(
                millis_between(earlier.kbd.time, self.kbd.time) as u64,
            ),
    {
        let millis: u32 = self.millis_since(earlier);
        duration_from_millis(millis as u64)
    }
}

impl MenuTriggerEvent for KeyboardEvent {
    open spec fn spec_menu_trigger(&self) -> Option<MenuTrigger> {
        let key = self.spec_virtual_key();
        if key == VK_LWIN || key == VK_RWIN {
            Some(MenuTrigger::Win)
        } else if key == VK_MENU || key == VK_LMENU || key == VK_RMENU {
            Some(MenuTrigger::Alt)
        } else {
            None
        }
    }

    open spec fn spec_key_state(&self) -> KeyState {
        self.wm_key_state.spec_key_state()
    }

    fn menu_trigger(&self) -> (trigger: Option<MenuTrigger>) {
        let key: VirtualKey = self.virtual_key();
        if key == VK_LWIN || key == VK_RWIN {
            Some(MenuTrigger::Win)
        } else if key == VK_MENU || key == VK_LMENU || key == VK_RMENU {
            Some(MenuTrigger::Alt)
        } else {
            None
        }
    }

    fn key_state(&self) -> (state: KeyState) {
        self.wm_key_state.key_state()
    }
}

impl HoldEvent<KeyboardEvent> {
    /// The milliseconds from the press to the release.
    pub fn millis(&self) -> (millis: u32)
        ensures
            millis == millis_between(self.press.kbd.time, self.release.kbd.time),
    {
        self.release.millis_since(&self.press)
    }

    /// The time from the press to the release.
    pub fn duration(&self) -> (duration: Duration)
        ensures
            duration == duration_of_millis(
                millis_between(self.press.kbd.time, self.release.kbd.time) as u64,
            ),
    {
        self.release.duration_since(&self.press)
    }
}

/// Time is counted round the clock: an event that comes `elapsed`
/// milliseconds after another is that many milliseconds after it, also where
/// the clock has started over in between.
pub proof fn law_millis_wrap_around(earlier: u32, elapsed: u32)
    ensures
        millis_between(earlier, ((earlier + elapsed) % 0x1_0000_0000) as u32) == elapsed,
{
}

} // verus!
