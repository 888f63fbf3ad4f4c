use tdu2_runtime_patch::overlay_input::{
    bits_to_i32, device_data_step, enabled_label, handle_overlay_input_message, i32_to_bits,
    is_directinput_mouse_offset, is_overlay_input_message, lparam_high_word_signed,
    lparam_is_extended, lparam_low_word_signed, map_alpha_key, map_function_key, map_number_key,
    map_virtual_key_to_imgui_key, should_clear_mouse_state, should_suppress_device_data,
    wparam_high_word_signed, DeviceDataStep, ImguiKey, MouseButtonKind, OverlayInputEvent,
    WM_CHAR, WM_INPUT, WM_KEYDOWN, WM_KEYUP, WM_LBUTTONDOWN, WM_MBUTTONUP, WM_MOUSEHWHEEL,
    WM_MOUSEMOVE, WM_MOUSEWHEEL, WM_NCDESTROY, WM_RBUTTONUP, WM_SETCURSOR, WM_SYSKEYDOWN,
    WM_SYSKEYUP, WM_XBUTTONDOWN, WM_XBUTTONUP,
};
use tdu2_runtime_patch::overlay_state::{
    route_overlay_message, CursorAction, CursorCapture, HookPlan, HotkeyResult, InstallOutcome,
    OverlayInputState, OverlayState, RemoveOutcome, TargetSource, WndProcHookState, WndProcRoute,
};

#[test]
fn words_of_message_parameters() {
    let lparam = ((-5i16 as u16 as u32) << 16 | (-3i16 as u16 as u32)) as i32 as isize;
    assert_eq!(lparam_low_word_signed(lparam), -3);
    assert_eq!(lparam_high_word_signed(lparam), -5);
    assert_eq!(lparam_low_word_signed(0x0002_0001), 1);
    assert_eq!(lparam_high_word_signed(0x0002_0001), 2);
    assert_eq!(lparam_low_word_signed(0x7FFF), 0x7FFF);
    assert_eq!(lparam_low_word_signed(0x8000), -0x8000);
    assert_eq!(wparam_high_word_signed((120u32 << 16) as usize), 120);
    assert_eq!(wparam_high_word_signed(((-120i16 as u16 as u32) << 16) as usize), -120);
    assert!(lparam_is_extended(0x0100_0000));
    assert!(!lparam_is_extended(0x00FF_FFFF));
    assert!(lparam_is_extended(-1));
}

#[test]
fn i32_bits_round_trip() {
    for v in [0, 1, -1, i32::MIN, i32::MAX, 0x1234_5678, -0x1234_5678] {
        assert_eq!(bits_to_i32(i32_to_bits(v)), v);
        assert_eq!(i32_to_bits(v), v as u32 as usize);
    }
    assert_eq!(bits_to_i32(0xFFFF_FFFF), -1);
}

#[test]
fn labels() {
    assert_eq!(enabled_label(true), "ON");
    assert_eq!(enabled_label(false), "OFF");
}

#[test]
fn key_tables() {
    assert_eq!(map_alpha_key(0x41), Some(ImguiKey::A));
    assert_eq!(map_alpha_key(0x5A), Some(ImguiKey::Z));
    assert_eq!(map_alpha_key(0x4D), Some(ImguiKey::M));
    assert_eq!(map_alpha_key(0x40), None);
    assert_eq!(map_alpha_key(0x5B), None);
    assert_eq!(map_number_key(0x30), Some(ImguiKey::Alpha0));
    assert_eq!(map_number_key(0x39), Some(ImguiKey::Alpha9));
    assert_eq!(map_number_key(0x3A), None);
    assert_eq!(map_function_key(0x70), Some(ImguiKey::F1));
    assert_eq!(map_function_key(0x77), Some(ImguiKey::F8));
    assert_eq!(map_function_key(0x7B), Some(ImguiKey::F12));
    assert_eq!(map_function_key(0x7C), None);
}

#[test]
fn virtual_keys() {
    assert_eq!(map_virtual_key_to_imgui_key(0x0D, 0), Some(ImguiKey::Enter));
    assert_eq!(map_virtual_key_to_imgui_key(0x0D, 0x0100_0000), Some(ImguiKey::KeypadEnter));
    assert_eq!(map_virtual_key_to_imgui_key(0x11, 0), Some(ImguiKey::LeftCtrl));
    assert_eq!(map_virtual_key_to_imgui_key(0x11, 0x0100_0000), Some(ImguiKey::RightCtrl));
    assert_eq!(map_virtual_key_to_imgui_key(0x12, 0x0100_0000), Some(ImguiKey::RightAlt));
    assert_eq!(map_virtual_key_to_imgui_key(0x10, 0x0100_0000), Some(ImguiKey::LeftShift));
    assert_eq!(map_virtual_key_to_imgui_key(0x5C, 0), Some(ImguiKey::RightSuper));
    assert_eq!(map_virtual_key_to_imgui_key(0x43, 0x0100_0000), Some(ImguiKey::C));
    assert_eq!(map_virtual_key_to_imgui_key(0x35, 0), Some(ImguiKey::Alpha5));
    assert_eq!(map_virtual_key_to_imgui_key(0x75, 0), Some(ImguiKey::F6));
    assert_eq!(map_virtual_key_to_imgui_key(0x90, 0), None);
}

#[test]
fn overlay_messages() {
    for m in [WM_INPUT, WM_SETCURSOR, WM_MOUSEMOVE, WM_KEYDOWN, WM_CHAR, WM_XBUTTONUP] {
        assert!(is_overlay_input_message(m));
    }
    assert!(!is_overlay_input_message(WM_NCDESTROY));
    assert!(!is_overlay_input_message(0x0010));
}

#[test]
fn translate_mouse_messages() {
    let r = handle_overlay_input_message(WM_MOUSEMOVE, 0, 0x0014_000A);
    assert!(r.handled);
    assert_eq!(r.events, vec![OverlayInputEvent::MousePos { x: 10, y: 20 }]);
    let r = handle_overlay_input_message(WM_LBUTTONDOWN, 0, 0);
    assert_eq!(r.events, vec![OverlayInputEvent::MouseButton { button: MouseButtonKind::Left, down: true }]);
    let r = handle_overlay_input_message(WM_RBUTTONUP, 0, 0);
    assert_eq!(r.events, vec![OverlayInputEvent::MouseButton { button: MouseButtonKind::Right, down: false }]);
    let r = handle_overlay_input_message(WM_MBUTTONUP, 0, 0);
    assert_eq!(r.events, vec![OverlayInputEvent::MouseButton { button: MouseButtonKind::Middle, down: false }]);
    let r = handle_overlay_input_message(WM_XBUTTONDOWN, 1 << 16, 0);
    assert_eq!(r.events, vec![OverlayInputEvent::MouseButton { button: MouseButtonKind::Extra1, down: true }]);
    let r = handle_overlay_input_message(WM_XBUTTONUP, 2 << 16, 0);
    assert_eq!(r.events, vec![OverlayInputEvent::MouseButton { button: MouseButtonKind::Extra2, down: false }]);
    let r = handle_overlay_input_message(WM_MOUSEWHEEL, ((-240i16 as u16 as usize) << 16) | 8, 0);
    assert_eq!(r.events, vec![OverlayInputEvent::MouseWheel { horizontal: false, delta: -240 }]);
    let r = handle_overlay_input_message(WM_MOUSEHWHEEL, 120 << 16, 0);
    assert_eq!(r.events, vec![OverlayInputEvent::MouseWheel { horizontal: true, delta: 120 }]);
    let r = handle_overlay_input_message(WM_SETCURSOR, 0, 0);
    assert_eq!(r.events, vec![OverlayInputEvent::SetArrowCursor]);
    let r = handle_overlay_input_message(WM_INPUT, 0, 0);
    assert!(r.handled && r.events.is_empty());
}

#[test]
fn translate_key_messages() {
    let r = handle_overlay_input_message(WM_KEYDOWN, 0x11, 0x0100_0000);
    assert!(r.handled);
    assert_eq!(
        r.events,
        vec![
            OverlayInputEvent::Key { key: ImguiKey::RightCtrl, down: true },
            OverlayInputEvent::Key { key: ImguiKey::ModCtrl, down: true },
        ]
    );
    let r = handle_overlay_input_message(WM_SYSKEYUP, 0xA0, 0);
    assert_eq!(
        r.events,
        vec![
            OverlayInputEvent::Key { key: ImguiKey::LeftShift, down: false },
            OverlayInputEvent::Key { key: ImguiKey::ModShift, down: false },
        ]
    );
    let r = handle_overlay_input_message(WM_SYSKEYDOWN, 0x41, 0);
    assert_eq!(r.events, vec![OverlayInputEvent::Key { key: ImguiKey::A, down: true }]);
    let r = handle_overlay_input_message(WM_KEYUP, 0x5B, 0);
    assert_eq!(
        r.events,
        vec![
            OverlayInputEvent::Key { key: ImguiKey::LeftSuper, down: false },
            OverlayInputEvent::Key { key: ImguiKey::ModSuper, down: false },
        ]
    );
    let r = handle_overlay_input_message(WM_KEYDOWN, 0xFF, 0);
    assert!(r.handled && r.events.is_empty());
}

#[test]
fn translate_char_messages() {
    let r = handle_overlay_input_message(WM_CHAR, 'x' as usize, 0);
    assert_eq!(r.events, vec![OverlayInputEvent::Char('x')]);
    let r = handle_overlay_input_message(WM_CHAR, 'é' as usize, 0);
    assert_eq!(r.events, vec![OverlayInputEvent::Char('é')]);
    let r = handle_overlay_input_message(WM_CHAR, 0x08, 0);
    assert!(r.handled && r.events.is_empty());
    let r = handle_overlay_input_message(WM_CHAR, 0x85, 0);
    assert!(r.events.is_empty());
    let r = handle_overlay_input_message(WM_CHAR, 0xD800, 0);
    assert!(r.events.is_empty());
}

#[test]
fn unknown_message_not_handled() {
    let r = handle_overlay_input_message(WM_NCDESTROY, 0, 0);
    assert!(!r.handled);
    assert!(r.events.is_empty());
}

#[test]
fn dinput_decisions() {
    for o in [0u32, 4, 8, 12, 13, 19] {
        assert!(is_directinput_mouse_offset(o));
    }
    for o in [1u32, 9, 11, 20, 256] {
        assert!(!is_directinput_mouse_offset(o));
    }
    assert!(should_clear_mouse_state(0, true, true, 16, 16, 20));
    assert!(should_clear_mouse_state(1, true, true, 20, 16, 20));
    assert!(!should_clear_mouse_state(-1, true, true, 16, 16, 20));
    assert!(!should_clear_mouse_state(0, false, true, 16, 16, 20));
    assert!(!should_clear_mouse_state(0, true, false, 16, 16, 20));
    assert!(!should_clear_mouse_state(0, true, true, 24, 16, 20));
    assert_eq!(device_data_step(-1, true, true, true, 20, 20), DeviceDataStep::Keep);
    assert_eq!(device_data_step(0, false, true, true, 20, 20), DeviceDataStep::Keep);
    assert_eq!(device_data_step(0, true, false, true, 20, 20), DeviceDataStep::Keep);
    assert_eq!(device_data_step(0, true, true, false, 20, 20), DeviceDataStep::ClearCount);
    assert_eq!(device_data_step(0, true, true, true, 16, 20), DeviceDataStep::Keep);
    assert_eq!(device_data_step(0, true, true, true, 20, 20), DeviceDataStep::InspectEvents);
    assert!(should_suppress_device_data(&[0, 4, 12]));
    assert!(!should_suppress_device_data(&[0, 30]));
    assert!(!should_suppress_device_data(&[]));
}

#[test]
fn f8_toggles_panel_and_capture() {
    let mut s = OverlayInputState::new();
    assert_eq!(s.process_overlay_toggle_hotkey_message(WM_KEYDOWN, 0x77), HotkeyResult::Swallowed);
    assert!(!s.panel_visible);
    assert_eq!(
        s.process_overlay_toggle_hotkey_message(WM_KEYUP, 0x77),
        HotkeyResult::Toggled { visible: true }
    );
    assert!(s.panel_visible && s.input_capture_enabled);
    assert_eq!(
        s.process_overlay_toggle_hotkey_message(WM_SYSKEYUP, 0x77),
        HotkeyResult::Toggled { visible: false }
    );
    assert!(!s.panel_visible && !s.input_capture_enabled);
    assert_eq!(s.process_overlay_toggle_hotkey_message(WM_KEYUP, 0x76), HotkeyResult::NotHotkey);
    assert_eq!(s.process_overlay_toggle_hotkey_message(WM_CHAR, 0x77), HotkeyResult::NotHotkey);
    s.process_overlay_toggle_hotkey_message(WM_KEYUP, 0x77);
    s.close_panel();
    assert!(!s.panel_visible && !s.input_capture_enabled);
}

#[test]
fn cursor_capture_balance() {
    let mut c = CursorCapture::new();
    assert!(c.begin_capture());
    assert!(!c.begin_capture());
    assert!(c.record_show_cursor(-2));
    assert!(c.record_show_cursor(-1));
    assert!(!c.record_show_cursor(0));
    assert_eq!(c.end_capture(), 3);
    assert_eq!(c.end_capture(), 0);
    assert!(!c.is_active());
}

#[test]
fn cursor_capture_stops_after_eight_calls() {
    let mut c = CursorCapture::new();
    assert!(c.begin_capture());
    let mut calls = 0;
    loop {
        calls += 1;
        if !c.record_show_cursor(-5) {
            break;
        }
    }
    assert_eq!(calls, 8);
    assert!(!c.record_show_cursor(-5));
    assert_eq!(c.end_capture(), 8);
}

#[test]
fn wndproc_hook_lifecycle() {
    let mut h = WndProcHookState::new();
    assert_eq!(h.resolve_overlay_target_hwnd(0), TargetSource::QueryDevice);
    assert_eq!(h.resolve_overlay_target_hwnd(0x55), TargetSource::Override(0x55));
    assert_eq!(h.plan_install(0x100), HookPlan::Install);
    assert_eq!(h.resolve_overlay_target_hwnd(0), TargetSource::Cached(0x100));
    assert_eq!(h.record_install(0x100, 0), InstallOutcome::FailedReport);
    assert_eq!(h.record_install(0x100, 0), InstallOutcome::FailedQuiet);
    assert_eq!(h.original_wndproc(), None);
    assert_eq!(h.record_install(0x100, -0x1234), InstallOutcome::Installed);
    assert_eq!(h.original_wndproc(), Some(-0x1234));
    assert_eq!(h.plan_install(0x100), HookPlan::AlreadyInstalled);
    assert_eq!(h.plan_install(0x200), HookPlan::ReplaceThenInstall);
    assert_eq!(
        h.remove_overlay_wndproc_hook(),
        RemoveOutcome::Restore { hwnd: 0x100, original_proc: -0x1234 }
    );
    assert_eq!(h.remove_overlay_wndproc_hook(), RemoveOutcome::NotInstalled);
    assert_eq!(h.plan_install(0x200), HookPlan::Install);
    h.clear_target();
    assert_eq!(h.resolve_overlay_target_hwnd(0), TargetSource::QueryDevice);
}

#[test]
fn message_routing() {
    assert_eq!(route_overlay_message(HotkeyResult::Swallowed, WM_KEYDOWN, true), WndProcRoute::Swallow);
    assert_eq!(
        route_overlay_message(HotkeyResult::Toggled { visible: false }, WM_KEYUP, false),
        WndProcRoute::Swallow
    );
    assert_eq!(route_overlay_message(HotkeyResult::NotHotkey, WM_NCDESTROY, true), WndProcRoute::ForwardThenUnhook);
    assert_eq!(route_overlay_message(HotkeyResult::NotHotkey, WM_MOUSEMOVE, true), WndProcRoute::OfferToOverlay);
    assert_eq!(route_overlay_message(HotkeyResult::NotHotkey, WM_MOUSEMOVE, false), WndProcRoute::Forward);
}

#[test]
fn f8_cursor_follows_panel() {
    let mut s = OverlayState::new();
    assert_eq!(
        s.process_overlay_toggle_hotkey_message(WM_KEYDOWN, 0x77),
        (HotkeyResult::Swallowed, CursorAction::Keep)
    );
    assert_eq!(
        s.process_overlay_toggle_hotkey_message(WM_KEYUP, 0x77),
        (HotkeyResult::Toggled { visible: true }, CursorAction::Show)
    );
    assert!(s.input.panel_visible && s.input.input_capture_enabled && s.cursor.is_active());
    assert!(s.cursor.record_show_cursor(-1));
    assert!(!s.cursor.record_show_cursor(0));
    assert_eq!(
        s.process_overlay_toggle_hotkey_message(WM_SYSKEYUP, 0x77),
        (HotkeyResult::Toggled { visible: false }, CursorAction::Hide(2))
    );
    assert!(!s.input.panel_visible && !s.input.input_capture_enabled && !s.cursor.is_active());
    assert_eq!(
        s.process_overlay_toggle_hotkey_message(WM_KEYUP, 0x20),
        (HotkeyResult::NotHotkey, CursorAction::Keep)
    );
}

#[test]
fn removing_hook_closes_panel_and_releases_cursor() {
    let mut s = OverlayState::new();
    assert_eq!(s.remove_overlay_wndproc_hook(), (RemoveOutcome::NotInstalled, CursorAction::Keep));
    assert_eq!(s.hook.plan_install(0x100), HookPlan::Install);
    assert_eq!(s.hook.record_install(0x100, 0x4242), InstallOutcome::Installed);
    s.process_overlay_toggle_hotkey_message(WM_KEYUP, 0x77);
    assert!(s.cursor.record_show_cursor(-3));
    assert_eq!(
        s.remove_overlay_wndproc_hook(),
        (RemoveOutcome::Restore { hwnd: 0x100, original_proc: 0x4242 }, CursorAction::Hide(1))
    );
    assert!(!s.input.panel_visible && !s.input.input_capture_enabled && !s.cursor.is_active());
    assert!(!s.hook.installed && s.hook.hwnd_bits == 0 && s.hook.original_proc_bits == 0);
    assert_eq!(s.remove_overlay_wndproc_hook(), (RemoveOutcome::NotInstalled, CursorAction::Keep));
}
