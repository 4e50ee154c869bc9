use std::time::Duration;

use prevent_alt_win_menu::event_handler::{
    Action, Config, Handler, HoldEvent, KeyState, MenuTrigger, MenuTriggerEvent,
};
use prevent_alt_win_menu::hold_state::HoldStates;
use prevent_alt_win_menu::keyboard_event::{KeyboardEvent, KeyboardHookStruct, WmKeyState};
use prevent_alt_win_menu::keys::{
    VK_LMENU, VK_LWIN, VK_MENU, VK_NONE, VK_RMENU, VK_RWIN, WM_KEYDOWN, WM_KEYUP,
    WM_SYSKEYDOWN, WM_SYSKEYUP,
};

fn key_event(vk_code: u32, wm_key_state: WmKeyState, time: u32) -> KeyboardEvent {
    KeyboardEvent {
        kbd: KeyboardHookStruct { vk_code, scan_code: 0, flags: 0, time, extra_info: 0 },
        wm_key_state,
    }
}

#[test]
fn key_codes_are_those_of_windows() {
    assert_eq!(VK_MENU, 18);
    assert_eq!(VK_LWIN, 91);
    assert_eq!(VK_RWIN, 92);
    assert_eq!(VK_LMENU, 164);
    assert_eq!(VK_RMENU, 165);
    assert_eq!(VK_NONE, 255);
}

#[test]
fn keystroke_messages_are_those_of_windows() {
    assert_eq!(WM_KEYDOWN, 256);
    assert_eq!(WM_KEYUP, 257);
    assert_eq!(WM_SYSKEYDOWN, 260);
    assert_eq!(WM_SYSKEYUP, 261);
}

#[test]
fn from_w_param_knows_the_four_keystroke_messages() {
    assert_eq!(WmKeyState::from_w_param(0x0100), Some(WmKeyState::KeyDown));
    assert_eq!(WmKeyState::from_w_param(0x0101), Some(WmKeyState::KeyUp));
    assert_eq!(WmKeyState::from_w_param(0x0104), Some(WmKeyState::SysKeyDown));
    assert_eq!(WmKeyState::from_w_param(0x0105), Some(WmKeyState::SysKeyUp));
}

#[test]
fn from_w_param_knows_no_other_message() {
    assert_eq!(WmKeyState::from_w_param(0), None);
    assert_eq!(WmKeyState::from_w_param(0x00FF), None);
    assert_eq!(WmKeyState::from_w_param(0x0102), None);
    assert_eq!(WmKeyState::from_w_param(0x0103), None);
    assert_eq!(WmKeyState::from_w_param(0x0106), None);
    assert_eq!(WmKeyState::from_w_param(usize::MAX), None);
}

#[test]
fn down_messages_are_key_down() {
    assert!(WmKeyState::KeyDown.is_key_down());
    assert!(WmKeyState::SysKeyDown.is_key_down());
    assert!(!WmKeyState::KeyUp.is_key_down());
    assert!(!WmKeyState::SysKeyUp.is_key_down());
}

#[test]
fn up_messages_are_key_up() {
    assert!(WmKeyState::KeyUp.is_key_up());
    assert!(WmKeyState::SysKeyUp.is_key_up());
    assert!(!WmKeyState::KeyDown.is_key_up());
    assert!(!WmKeyState::SysKeyDown.is_key_up());
}

#[test]
fn key_state_from_message() {
    assert_eq!(KeyState::from(WmKeyState::KeyDown), KeyState::Down);
    assert_eq!(KeyState::from(WmKeyState::SysKeyDown), KeyState::Down);
    assert_eq!(KeyState::from(WmKeyState::KeyUp), KeyState::Up);
    assert_eq!(KeyState::from(WmKeyState::SysKeyUp), KeyState::Up);
    assert_eq!(WmKeyState::SysKeyDown.key_state(), KeyState::Down);
    assert_eq!(WmKeyState::SysKeyUp.key_state(), KeyState::Up);
    let state: KeyState = WmKeyState::KeyUp.into();
    assert_eq!(state, KeyState::Up);
}

#[test]
fn event_key_state_is_that_of_its_message() {
    assert_eq!(key_event(91, WmKeyState::KeyDown, 0).key_state(), KeyState::Down);
    assert_eq!(key_event(91, WmKeyState::SysKeyDown, 0).key_state(), KeyState::Down);
    assert_eq!(key_event(91, WmKeyState::KeyUp, 0).key_state(), KeyState::Up);
    assert_eq!(key_event(91, WmKeyState::SysKeyUp, 0).key_state(), KeyState::Up);
}

#[test]
fn windows_keys_are_the_win_trigger() {
    assert_eq!(key_event(0x5B, WmKeyState::KeyDown, 0).menu_trigger(), Some(MenuTrigger::Win));
    assert_eq!(key_event(0x5C, WmKeyState::KeyUp, 0).menu_trigger(), Some(MenuTrigger::Win));
}

#[test]
fn alt_keys_are_the_alt_trigger() {
    assert_eq!(key_event(0x12, WmKeyState::SysKeyDown, 0).menu_trigger(), Some(MenuTrigger::Alt));
    assert_eq!(key_event(0xA4, WmKeyState::SysKeyDown, 0).menu_trigger(), Some(MenuTrigger::Alt));
    assert_eq!(key_event(0xA5, WmKeyState::KeyUp, 0).menu_trigger(), Some(MenuTrigger::Alt));
}

#[test]
fn other_keys_are_no_trigger() {
    for vk_code in [0u32, 0x10, 0x11, 0x13, 0x41, 0x5A, 0x5D, 0xA3, 0xA6, 0xFF] {
        assert_eq!(key_event(vk_code, WmKeyState::KeyDown, 0).menu_trigger(), None);
    }
}

#[test]
fn every_key_code_below_256_is_classified_by_the_five_trigger_keys() {
    for vk_code in 0u32..256 {
        let expected = match vk_code {
            91 | 92 => Some(MenuTrigger::Win),
            18 | 164 | 165 => Some(MenuTrigger::Alt),
            _ => None,
        };
        assert_eq!(key_event(vk_code, WmKeyState::KeyUp, 0).menu_trigger(), expected);
    }
}

#[test]
fn virtual_key_is_the_low_sixteen_bits() {
    assert_eq!(key_event(0x5B, WmKeyState::KeyDown, 0).virtual_key(), 0x5B);
    assert_eq!(key_event(0xFFFF, WmKeyState::KeyDown, 0).virtual_key(), 0xFFFF);
    assert_eq!(key_event(0x0001_005B, WmKeyState::KeyDown, 0).virtual_key(), 0x5B);
    assert_eq!(key_event(u32::MAX, WmKeyState::KeyDown, 0).virtual_key(), 0xFFFF);
    assert_eq!(
        key_event(0x0001_005B, WmKeyState::KeyDown, 0).menu_trigger(),
        Some(MenuTrigger::Win)
    );
}

#[test]
fn from_params_keeps_the_hook_data_and_reads_the_message() {
    let kbd = KeyboardHookStruct {
        vk_code: 0xA4,
        scan_code: 0x38,
        flags: 0x20,
        time: 123_456,
        extra_info: 7,
    };
    let event = KeyboardEvent::from_params(kbd, 0x0104);
    assert_eq!(event.kbd, kbd);
    assert_eq!(event.wm_key_state, WmKeyState::SysKeyDown);
    assert_eq!(event, KeyboardEvent { kbd, wm_key_state: WmKeyState::SysKeyDown });
    assert_eq!(KeyboardEvent::from_params(kbd, 0x0101).wm_key_state, WmKeyState::KeyUp);
}

#[test]
fn millis_since_counts_forward() {
    let press = key_event(91, WmKeyState::KeyDown, 1_000);
    let release = key_event(91, WmKeyState::KeyUp, 1_050);
    assert_eq!(release.millis_since(&press), 50);
    assert_eq!(press.millis_since(&press), 0);
}

#[test]
fn millis_since_counts_across_the_wrap_of_the_clock() {
    let release = key_event(91, WmKeyState::KeyUp, 1);
    assert_eq!(release.millis_since(&key_event(91, WmKeyState::KeyDown, u32::MAX)), 2);
    assert_eq!(release.millis_since(&key_event(91, WmKeyState::KeyDown, u32::MAX - 1)), 3);
    assert_eq!(
        key_event(91, WmKeyState::KeyUp, 0).millis_since(&key_event(
            91,
            WmKeyState::KeyDown,
            u32::MAX
        )),
        1
    );
    assert_eq!(
        key_event(91, WmKeyState::KeyUp, 5).millis_since(&key_event(91, WmKeyState::KeyDown, 10)),
        u32::MAX - 4
    );
}

#[test]
fn duration_since_is_the_duration_of_the_milliseconds() {
    let press = key_event(91, WmKeyState::KeyDown, 1_000);
    let release = key_event(91, WmKeyState::KeyUp, 1_050);
    assert_eq!(release.duration_since(&press), Duration::from_millis(50));
    assert_eq!(press.duration_since(&press), Duration::from_millis(0));
    assert_ne!(release.duration_since(&press), Duration::from_secs(50));
}

#[test]
fn hold_duration_counts_across_the_wrap_of_the_clock() {
    let hold = HoldEvent {
        press: key_event(91, WmKeyState::KeyDown, u32::MAX),
        release: key_event(91, WmKeyState::KeyUp, 1),
    };
    assert_eq!(hold.millis(), 2);
    assert_eq!(hold.duration(), Duration::from_millis(2));
    let hold = HoldEvent {
        press: key_event(91, WmKeyState::KeyDown, u32::MAX - 1),
        release: key_event(91, WmKeyState::KeyUp, 1),
    };
    assert_eq!(hold.millis(), 3);
    assert_eq!(hold.duration(), Duration::from_millis(3));
}

#[test]
fn hold_duration_is_from_press_to_release() {
    let hold = HoldEvent {
        press: key_event(18, WmKeyState::SysKeyDown, 200),
        release: key_event(18, WmKeyState::KeyUp, 750),
    };
    assert_eq!(hold.millis(), 550);
    assert_eq!(hold.duration(), Duration::from_millis(550));
    assert!(hold.duration() > Duration::from_millis(300));
}

#[test]
fn duration_threshold_callback() {
    let config: Config<KeyboardEvent> =
        Config::default().set_on_released(|hold: HoldEvent<KeyboardEvent>| {
            if hold.duration() > Duration::from_millis(300) {
                Some(VK_NONE)
            } else {
                None
            }
        });
    let mut handler = Handler::new(config);
    let actions = handler.handle_keyboard_events(vec![
        key_event(18, WmKeyState::SysKeyDown, 0),
        key_event(18, WmKeyState::KeyUp, 100),
        key_event(91, WmKeyState::KeyDown, u32::MAX - 100),
        key_event(91, WmKeyState::KeyUp, 300),
    ]);
    assert_eq!(
        actions,
        vec![
            Action::Nothing,
            Action::ShowMenu(MenuTrigger::Alt),
            Action::Nothing,
            Action::SendKeyUp(MenuTrigger::Win, VK_NONE),
        ]
    );
}

#[test]
fn sys_key_messages_pair_like_plain_ones() {
    let mut states: HoldStates<KeyboardEvent> = HoldStates::default();
    let press = key_event(0xA4, WmKeyState::SysKeyDown, 10);
    let release = key_event(0xA4, WmKeyState::SysKeyUp, 20);
    assert_eq!(states.update(press), None);
    assert_eq!(states.update(release), Some((MenuTrigger::Alt, HoldEvent { press, release })));
}
