use std::time::Duration;

use cliptype::error::ClipTypeError;
use cliptype::platform::input::macos::{MacKeyEvent, RETURN_KEY_CODE};
use cliptype::platform::input::windows::{
    keyboard_input, send_pair, send_unicode, send_virtual_key, KeyboardInput, WindowsKeyEvent,
    KEYEVENTF_KEYUP, KEYEVENTF_UNICODE, VK_RETURN,
};
use cliptype::platform::input::{self, InputPlan};
use cliptype::platform::permission;
use cliptype::platform::Platform;
use cliptype::services::permission::{PermissionInfo, PermissionService};

fn ms(n: u64) -> Duration {
    Duration::from_millis(n)
}

#[test]
fn macos_plan_types_each_character_then_return() {
    let plan = input::macos::type_text("hé😀", ms(8), true, true).unwrap();
    assert_eq!(
        plan,
        vec![
            MacKeyEvent::Character('h'),
            MacKeyEvent::Pause(ms(8)),
            MacKeyEvent::Character('é'),
            MacKeyEvent::Pause(ms(8)),
            MacKeyEvent::Character('😀'),
            MacKeyEvent::Pause(ms(8)),
            MacKeyEvent::Key(RETURN_KEY_CODE),
        ]
    );
    assert_eq!(RETURN_KEY_CODE, 36);
}

#[test]
fn macos_plan_without_enter() {
    let plan = input::macos::type_text("ab", ms(0), false, true).unwrap();
    assert_eq!(
        plan,
        vec![
            MacKeyEvent::Character('a'),
            MacKeyEvent::Pause(ms(0)),
            MacKeyEvent::Character('b'),
            MacKeyEvent::Pause(ms(0)),
        ]
    );
}

#[test]
fn macos_typing_needs_accessibility() {
    let err = input::macos::type_text("ab", ms(8), false, false).unwrap_err();
    assert_eq!(
        err,
        ClipTypeError::Permission("accessibility permission is required before typing".to_owned())
    );
}

#[test]
fn windows_plan_sends_utf16_units_then_enter() {
    let plan = input::windows::type_text("a😀", ms(5), true);
    let pair = |u: u16| {
        WindowsKeyEvent::Send(
            KeyboardInput { virtual_key: 0, scan: u, flags: 4 },
            KeyboardInput { virtual_key: 0, scan: u, flags: 6 },
        )
    };
    assert_eq!(
        plan,
        vec![
            pair(0x61),
            WindowsKeyEvent::Pause(ms(5)),
            pair(0xD83D),
            WindowsKeyEvent::Pause(ms(5)),
            pair(0xDE00),
            WindowsKeyEvent::Pause(ms(5)),
            WindowsKeyEvent::Send(
                KeyboardInput { virtual_key: 0x0D, scan: 0, flags: 0 },
                KeyboardInput { virtual_key: 0x0D, scan: 0, flags: 2 },
            ),
        ]
    );
}

#[test]
fn windows_plan_of_empty_text_without_enter_is_empty() {
    assert!(input::windows::type_text("", ms(5), false).is_empty());
}

#[test]
fn windows_inputs() {
    assert_eq!(
        keyboard_input(7, 8, 9),
        KeyboardInput { virtual_key: 7, scan: 8, flags: 9 }
    );
    assert_eq!(
        send_unicode(0x41),
        WindowsKeyEvent::Send(
            KeyboardInput { virtual_key: 0, scan: 0x41, flags: KEYEVENTF_UNICODE },
            KeyboardInput { virtual_key: 0, scan: 0x41, flags: KEYEVENTF_UNICODE | KEYEVENTF_KEYUP },
        )
    );
    assert_eq!(
        send_virtual_key(VK_RETURN),
        WindowsKeyEvent::Send(
            KeyboardInput { virtual_key: 13, scan: 0, flags: 0 },
            KeyboardInput { virtual_key: 13, scan: 0, flags: KEYEVENTF_KEYUP },
        )
    );
}

#[test]
fn send_pair_checks_the_count() {
    assert_eq!(send_pair(2), Ok(()));
    assert_eq!(
        send_pair(1),
        Err(ClipTypeError::Input("SendInput sent 1 of 2 input events".to_owned()))
    );
    assert_eq!(
        send_pair(0).unwrap_err().message(),
        "input error: SendInput sent 0 of 2 input events"
    );
}

#[test]
fn other_platforms_cannot_type() {
    let err = input::type_text(Platform::Other, "abc", ms(8), false, true).unwrap_err();
    assert_eq!(
        err.message(),
        "platform error: input simulation is currently implemented for macOS and Windows"
    );
}

#[test]
fn dispatch_picks_the_platform_plan() {
    match input::type_text(Platform::MacOs, "x", ms(1), false, true).unwrap() {
        InputPlan::MacOs(events) => {
            assert_eq!(events, vec![MacKeyEvent::Character('x'), MacKeyEvent::Pause(ms(1))])
        }
        other => panic!("unexpected plan {other:?}"),
    }
    match input::type_text(Platform::Windows, "x", ms(1), false, false).unwrap() {
        InputPlan::Windows(events) => assert_eq!(events.len(), 2),
        other => panic!("unexpected plan {other:?}"),
    }
}

#[test]
fn permission_info_per_platform() {
    assert_eq!(
        permission::info(Platform::MacOs, false),
        PermissionInfo { accessibility_required: true, accessibility_granted: false, can_prompt: true }
    );
    assert_eq!(
        permission::macos::info(true),
        PermissionInfo { accessibility_required: true, accessibility_granted: true, can_prompt: true }
    );
    assert_eq!(
        permission::windows::info(),
        PermissionInfo { accessibility_required: false, accessibility_granted: true, can_prompt: false }
    );
    assert_eq!(
        permission::other::info(),
        PermissionInfo { accessibility_required: false, accessibility_granted: false, can_prompt: false }
    );
}

#[test]
fn permission_request_per_platform() {
    assert_eq!(
        permission::macos::request(Ok(()), true),
        Ok(PermissionInfo { accessibility_required: true, accessibility_granted: true, can_prompt: true })
    );
    assert_eq!(
        permission::macos::request(Err("no such file".to_owned()), true),
        Err(ClipTypeError::Platform("failed to open system settings: no such file".to_owned()))
    );
    assert_eq!(permission::windows::request(), Ok(permission::windows::info()));
    assert_eq!(permission::other::request(), Ok(permission::other::info()));
    let service = PermissionService::new(Platform::Windows);
    assert_eq!(service.request(Err("ignored".to_owned()), false), Ok(permission::windows::info()));
    assert_eq!(service.info(false), permission::windows::info());
}
