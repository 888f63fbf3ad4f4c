//! The overlay's input: which window messages it takes while it captures
//! input, what Dear ImGui events they become, and which DirectInput mouse data
//! it hides from the game.
use vstd::prelude::*;

verus! {

// Window messages (values of the Win32 API).
pub const WM_SETCURSOR: u32 = 0x0020;
pub const WM_NCDESTROY: u32 = 0x0082;
pub const WM_INPUT: u32 = 0x00FF;
pub const WM_KEYDOWN: u32 = 0x0100;
pub const WM_KEYUP: u32 = 0x0101;
pub const WM_CHAR: u32 = 0x0102;
pub const WM_SYSKEYDOWN: u32 = 0x0104;
pub const WM_SYSKEYUP: u32 = 0x0105;
pub const WM_MOUSEMOVE: u32 = 0x0200;
pub const WM_LBUTTONDOWN: u32 = 0x0201;
pub const WM_LBUTTONUP: u32 = 0x0202;
pub const WM_RBUTTONDOWN: u32 = 0x0204;
pub const WM_RBUTTONUP: u32 = 0x0205;
pub const WM_MBUTTONDOWN: u32 = 0x0207;
pub const WM_MBUTTONUP: u32 = 0x0208;
pub const WM_MOUSEWHEEL: u32 = 0x020A;
pub const WM_XBUTTONDOWN: u32 = 0x020B;
pub const WM_XBUTTONUP: u32 = 0x020C;
pub const WM_MOUSEHWHEEL: u32 = 0x020E;
pub const XBUTTON1: u16 = 0x0001;

// Virtual-key codes.
pub const VK_BACK: u32 = 0x08;
pub const VK_TAB: u32 = 0x09;
pub const VK_RETURN: u32 = 0x0D;
pub const VK_SHIFT: u32 = 0x10;
pub const VK_CONTROL: u32 = 0x11;
pub const VK_MENU: u32 = 0x12;
pub const VK_ESCAPE: u32 = 0x1B;
pub const VK_SPACE: u32 = 0x20;
pub const VK_PRIOR: u32 = 0x21;
pub const VK_NEXT: u32 = 0x22;
pub const VK_END: u32 = 0x23;
pub const VK_HOME: u32 = 0x24;
pub const VK_LEFT: u32 = 0x25;
pub const VK_UP: u32 = 0x26;
pub const VK_RIGHT: u32 = 0x27;
pub const VK_DOWN: u32 = 0x28;
pub const VK_INSERT: u32 = 0x2D;
pub const VK_DELETE: u32 = 0x2E;
pub const VK_ALPHA_0: u32 = 0x30;
pub const VK_ALPHA_9: u32 = 0x39;
pub const VK_A: u32 = 0x41;
pub const VK_Z: u32 = 0x5A;
pub const VK_LWIN: u32 = 0x5B;
pub const VK_RWIN: u32 = 0x5C;
pub const VK_F1: u32 = 0x70;
pub const VK_F8: u32 = 0x77;
pub const VK_F12: u32 = 0x7B;
pub const VK_LSHIFT: u32 = 0xA0;
pub const VK_RSHIFT: u32 = 0xA1;
pub const VK_LCONTROL: u32 = 0xA2;
pub const VK_RCONTROL: u32 = 0xA3;
pub const VK_LMENU: u32 = 0xA4;
pub const VK_RMENU: u32 = 0xA5;

/// The Dear ImGui keys the overlay reports.
#[derive(Clone, Copy, Debug, PartialEq, Eq, Structural)]
pub enum ImguiKey {
    Tab,
    LeftArrow,
    RightArrow,
    UpArrow,
    DownArrow,
    PageUp,
    PageDown,
    Home,
    End,
    Insert,
    Delete,
    Backspace,
    Space,
    Enter,
    KeypadEnter,
    Escape,
    LeftShift,
    RightShift,
    LeftCtrl,
    RightCtrl,
    LeftAlt,
    RightAlt,
    LeftSuper,
    RightSuper,
    A,
    B,
    C,
    D,
    E,
    F,
    G,
    H,
    I,
    J,
    K,
    L,
    M,
    N,
    O,
    P,
    Q,
    R,
    S,
    T,
    U,
    V,
    W,
    X,
    Y,
    Z,
    Alpha0,
    Alpha1,
    Alpha2,
    Alpha3,
    Alpha4,
    Alpha5,
    Alpha6,
    Alpha7,
    Alpha8,
    Alpha9,
    F1,
    F2,
    F3,
    F4,
    F5,
    F6,
    F7,
    F8,
    F9,
    F10,
    F11,
    F12,
    ModCtrl,
    ModShift,
    ModAlt,
    ModSuper,
}

/// The letter keys in alphabetical order.
pub open spec fn alpha_key_at(i: int) -> ImguiKey {
    if i == 0 { ImguiKey::A }
    else if i == 1 { ImguiKey::B }
    else if i == 2 { ImguiKey::C }
    else if i == 3 { ImguiKey::D }
    else if i == 4 { ImguiKey::E }
    else if i == 5 { ImguiKey::F }
    else if i == 6 { ImguiKey::G }
    else if i == 7 { ImguiKey::H }
    else if i == 8 { ImguiKey::I }
    else if i == 9 { ImguiKey::J }
    else if i == 10 { ImguiKey::K }
    else if i == 11 { ImguiKey::L }
    else if i == 12 { ImguiKey::M }
    else if i == 13 { ImguiKey::N }
    else if i == 14 { ImguiKey::O }
    else if i == 15 { ImguiKey::P }
    else if i == 16 { ImguiKey::Q }
    else if i == 17 { ImguiKey::R }
    else if i == 18 { ImguiKey::S }
    else if i == 19 { ImguiKey::T }
    else if i == 20 { ImguiKey::U }
    else if i == 21 { ImguiKey::V }
    else if i == 22 { ImguiKey::W }
    else if i == 23 { ImguiKey::X }
    else if i == 24 { ImguiKey::Y }
    else { ImguiKey::Z }
}

/// The digit keys of the main keyboard from 0 to 9.
pub open spec fn number_key_at(i: int) -> ImguiKey {
    if i == 0 { ImguiKey::Alpha0 }
    else if i == 1 { ImguiKey::Alpha1 }
    else if i == 2 { ImguiKey::Alpha2 }
    else if i == 3 { ImguiKey::Alpha3 }
    else if i == 4 { ImguiKey::Alpha4 }
    else if i == 5 { ImguiKey::Alpha5 }
    else if i == 6 { ImguiKey::Alpha6 }
    else if i == 7 { ImguiKey::Alpha7 }
    else if i == 8 { ImguiKey::Alpha8 }
    else { ImguiKey::Alpha9 }
}

/// The function keys from F1 to F12.
pub open spec fn function_key_at(i: int) -> ImguiKey {
    if i == 0 { ImguiKey::F1 }
    else if i == 1 { ImguiKey::F2 }
    else if i == 2 { ImguiKey::F3 }
    else if i == 3 { ImguiKey::F4 }
    else if i == 4 { ImguiKey::F5 }
    else if i == 5 { ImguiKey::F6 }
    else if i == 6 { ImguiKey::F7 }
    else if i == 7 { ImguiKey::F8 }
    else if i == 8 { ImguiKey::F9 }
    else if i == 9 { ImguiKey::F10 }
    else if i == 10 { ImguiKey::F11 }
    else { ImguiKey::F12 }
}

pub open spec fn spec_map_alpha_key(vk: u32) -> Option<ImguiKey> {
    if VK_A <= vk <= VK_Z {
        Some(alpha_key_at(vk - VK_A))
    } else {
        None
    }
}

pub open spec fn spec_map_number_key(vk: u32) -> Option<ImguiKey> {
    if VK_ALPHA_0 <= vk <= VK_ALPHA_9 {
        Some(number_key_at(vk - VK_ALPHA_0))
    } else {
        None
    }
}

pub open spec fn spec_map_function_key(vk: u32) -> Option<ImguiKey> {
    if VK_F1 <= vk <= VK_F12 {
        Some(function_key_at(vk - VK_F1))
    } else {
        None
    }
}

/// Bit 24 of a key message's `lParam`: the key is an extended key (the right
/// Ctrl and Alt, the keypad Enter).
pub open spec fn is_extended_key(lparam: isize) -> bool {
    (lparam as int % 0x1_0000_0000) / 0x0100_0000 % 2 == 1
}

/// The Dear ImGui key of a virtual key.
pub open spec fn spec_map_virtual_key(vk: u32, lparam: isize) -> Option<ImguiKey> {
    let ext = is_extended_key(lparam);
    if vk == VK_TAB { Some(ImguiKey::Tab) }
    else if vk == VK_LEFT { Some(ImguiKey::LeftArrow) }
    else if vk == VK_RIGHT { Some(ImguiKey::RightArrow) }
    else if vk == VK_UP { Some(ImguiKey::UpArrow) }
    else if vk == VK_DOWN { Some(ImguiKey::DownArrow) }
    else if vk == VK_PRIOR { Some(ImguiKey::PageUp) }
    else if vk == VK_NEXT { Some(ImguiKey::PageDown) }
    else if vk == VK_HOME { Some(ImguiKey::Home) }
    else if vk == VK_END { Some(ImguiKey::End) }
    else if vk == VK_INSERT { Some(ImguiKey::Insert) }
    else if vk == VK_DELETE { Some(ImguiKey::Delete) }
    else if vk == VK_BACK { Some(ImguiKey::Backspace) }
    else if vk == VK_SPACE { Some(ImguiKey::Space) }
    else if vk == VK_RETURN { Some(if ext { ImguiKey::KeypadEnter } else { ImguiKey::Enter }) }
    else if vk == VK_ESCAPE { Some(ImguiKey::Escape) }
    else if vk == VK_SHIFT { Some(ImguiKey::LeftShift) }
    else if vk == VK_CONTROL { Some(if ext { ImguiKey::RightCtrl } else { ImguiKey::LeftCtrl }) }
    else if vk == VK_MENU { Some(if ext { ImguiKey::RightAlt } else { ImguiKey::LeftAlt }) }
    else if vk == VK_LSHIFT { Some(ImguiKey::LeftShift) }
    else if vk == VK_RSHIFT { Some(ImguiKey::RightShift) }
    else if vk == VK_LCONTROL { Some(ImguiKey::LeftCtrl) }
    else if vk == VK_RCONTROL { Some(ImguiKey::RightCtrl) }
    else if vk == VK_LMENU { Some(ImguiKey::LeftAlt) }
    else if vk == VK_RMENU { Some(ImguiKey::RightAlt) }
    else if vk == VK_LWIN { Some(ImguiKey::LeftSuper) }
    else if vk == VK_RWIN { Some(ImguiKey::RightSuper) }
    else if spec_map_alpha_key(vk) is Some { spec_map_alpha_key(vk) }
    else if spec_map_number_key(vk) is Some { spec_map_number_key(vk) }
    else { spec_map_function_key(vk) }
}

/// The letter key of a virtual key in `A`..=`Z`.
pub fn map_alpha_key(vk: u32) -> (r: Option<ImguiKey>)
    ensures
        r == spec_map_alpha_key(vk),
{
    if VK_A <= vk && vk <= VK_Z {
        let k = match vk - VK_A {
            0 => ImguiKey::A,
            1 => ImguiKey::B,
            2 => ImguiKey::C,
            3 => ImguiKey::D,
            4 => ImguiKey::E,
            5 => ImguiKey::F,
            6 => ImguiKey::G,
            7 => ImguiKey::H,
            8 => ImguiKey::I,
            9 => ImguiKey::J,
            10 => ImguiKey::K,
            11 => ImguiKey::L,
            12 => ImguiKey::M,
            13 => ImguiKey::N,
            14 => ImguiKey::O,
            15 => ImguiKey::P,
            16 => ImguiKey::Q,
            17 => ImguiKey::R,
            18 => ImguiKey::S,
            19 => ImguiKey::T,
            20 => ImguiKey::U,
            21 => ImguiKey::V,
            22 => ImguiKey::W,
            23 => ImguiKey::X,
            24 => ImguiKey::Y,
            _ => ImguiKey::Z,
        };
        Some(k)
    } else {
        None
    }
}

/// The digit key of a virtual key in `0`..=`9`.
pub fn map_number_key(vk: u32) -> (r: Option<ImguiKey>)
    ensures
        r == spec_map_number_key(vk),
{
    if VK_ALPHA_0 <= vk && vk <= VK_ALPHA_9 {
        let k = match vk - VK_ALPHA_0 {
            0 => ImguiKey::Alpha0,
            1 => ImguiKey::Alpha1,
            2 => ImguiKey::Alpha2,
            3 => ImguiKey::Alpha3,
            4 => ImguiKey::Alpha4,
            5 => ImguiKey::Alpha5,
            6 => ImguiKey::Alpha6,
            7 => ImguiKey::Alpha7,
            8 => ImguiKey::Alpha8,
            _ => ImguiKey::Alpha9,
        };
        Some(k)
    } else {
        None
    }
}

/// The function key of a virtual key in `F1`..=`F12`.
pub fn map_function_key(vk: u32) -> (r: Option<ImguiKey>)
    ensures
        r == spec_map_function_key(vk),
{
    if VK_F1 <= vk && vk <= VK_F12 {
        let k = match vk - VK_F1 {
            0 => ImguiKey::F1,
            1 => ImguiKey::F2,
            2 => ImguiKey::F3,
            3 => ImguiKey::F4,
            4 => ImguiKey::F5,
            5 => ImguiKey::F6,
            6 => ImguiKey::F7,
            7 => ImguiKey::F8,
            8 => ImguiKey::F9,
            9 => ImguiKey::F10,
            10 => ImguiKey::F11,
            _ => ImguiKey::F12,
        };
        Some(k)
    } else {
        None
    }
}

/// Whether bit 24 of `lparam` (the extended-key flag) is set.
pub fn lparam_is_extended(lparam: isize) -> (b: bool)
    ensures
        b == is_extended_key(lparam),
{
    let low = lparam_low_u32(lparam);
    (low / 0x0100_0000) % 2 == 1
}

/// The Dear ImGui key of a key message's virtual key and `lParam`.
pub fn map_virtual_key_to_imgui_key(vk: u32, lparam: isize) -> (r: Option<ImguiKey>)
    ensures
        r == spec_map_virtual_key(vk, lparam),
{
    let is_extended = lparam_is_extended(lparam);
    if vk == VK_TAB {
        Some(ImguiKey::Tab)
    } else if vk == VK_LEFT {
        Some(ImguiKey::LeftArrow)
    } else if vk == VK_RIGHT {
        Some(ImguiKey::RightArrow)
    } else if vk == VK_UP {
        Some(ImguiKey::UpArrow)
    } else if vk == VK_DOWN {
        Some(ImguiKey::DownArrow)
    } else if vk == VK_PRIOR {
        Some(ImguiKey::PageUp)
    } else if vk == VK_NEXT {
        Some(ImguiKey::PageDown)
    } else if vk == VK_HOME {
        Some(ImguiKey::Home)
    } else if vk == VK_END {
        Some(ImguiKey::End)
    } else if vk == VK_INSERT {
        Some(ImguiKey::Insert)
    } else if vk == VK_DELETE {
        Some(ImguiKey::Delete)
    } else if vk == VK_BACK {
        Some(ImguiKey::Backspace)
    } else if vk == VK_SPACE {
        Some(ImguiKey::Space)
    } else if vk == VK_RETURN {
        if is_extended {
            Some(ImguiKey::KeypadEnter)
        } else {
            Some(ImguiKey::Enter)
        }
    } else if vk == VK_ESCAPE {
        Some(ImguiKey::Escape)
    } else if vk == VK_SHIFT {
        Some(ImguiKey::LeftShift)
    } else if vk == VK_CONTROL {
        if is_extended {
            Some(ImguiKey::RightCtrl)
        } else {
            Some(ImguiKey::LeftCtrl)
        }
    } else if vk == VK_MENU {
        if is_extended {
            Some(ImguiKey::RightAlt)
        } else {
            Some(ImguiKey::LeftAlt)
        }
    } else if vk == VK_LSHIFT {
        Some(ImguiKey::LeftShift)
    } else if vk == VK_RSHIFT {
        Some(ImguiKey::RightShift)
    } else if vk == VK_LCONTROL {
        Some(ImguiKey::LeftCtrl)
    } else if vk == VK_RCONTROL {
        Some(ImguiKey::RightCtrl)
    } else if vk == VK_LMENU {
        Some(ImguiKey::LeftAlt)
    } else if vk == VK_RMENU {
        Some(ImguiKey::RightAlt)
    } else if vk == VK_LWIN {
        Some(ImguiKey::LeftSuper)
    } else if vk == VK_RWIN {
        Some(ImguiKey::RightSuper)
    } else {
        match map_alpha_key(vk) {
            Some(k) => Some(k),
            None => match map_number_key(vk) {
                Some(k) => Some(k),
                None => map_function_key(vk),
            },
        }
    }
}

/// Letters, digits and function keys reach their own keys whatever the
/// `lParam`, and only Enter, Ctrl and Alt depend on the extended-key flag.
pub proof fn lemma_virtual_key_fallbacks(vk: u32, lparam: isize, other: isize)
    ensures
        VK_A <= vk <= VK_Z ==> spec_map_virtual_key(vk, lparam) == spec_map_alpha_key(vk),
        VK_ALPHA_0 <= vk <= VK_ALPHA_9 ==> spec_map_virtual_key(vk, lparam)
            == spec_map_number_key(vk),
        VK_F1 <= vk <= VK_F12 ==> spec_map_virtual_key(vk, lparam) == spec_map_function_key(vk),
        vk != VK_RETURN && vk != VK_CONTROL && vk != VK_MENU ==> spec_map_virtual_key(vk, lparam)
            == spec_map_virtual_key(vk, other),
{
}

/// The modifier that accompanies a key event, if any.
pub open spec fn spec_modifier_of(k: ImguiKey) -> Option<ImguiKey> {
    match k {
        ImguiKey::LeftCtrl | ImguiKey::RightCtrl => Some(ImguiKey::ModCtrl),
        ImguiKey::LeftShift | ImguiKey::RightShift => Some(ImguiKey::ModShift),
        ImguiKey::LeftAlt | ImguiKey::RightAlt => Some(ImguiKey::ModAlt),
        ImguiKey::LeftSuper | ImguiKey::RightSuper => Some(ImguiKey::ModSuper),
        _ => None,
    }
}

/// The modifier key Dear ImGui expects along with `k`, if any.
pub fn modifier_of(k: ImguiKey) -> (r: Option<ImguiKey>)
    ensures
        r == spec_modifier_of(k),
{
    match k {
        ImguiKey::LeftCtrl | ImguiKey::RightCtrl => Some(ImguiKey::ModCtrl),
        ImguiKey::LeftShift | ImguiKey::RightShift => Some(ImguiKey::ModShift),
        ImguiKey::LeftAlt | ImguiKey::RightAlt => Some(ImguiKey::ModAlt),
        ImguiKey::LeftSuper | ImguiKey::RightSuper => Some(ImguiKey::ModSuper),
        _ => None,
    }
}

// ---------------------------------------------------------------------------
// Message parameters
// ---------------------------------------------------------------------------

/// A 16-bit word read as a signed value.
pub open spec fn signed_word(w: int) -> int {
    if w >= 0x8000 {
        w - 0x10000
    } else {
        w
    }
}

/// The low 32 bits of an `lParam`, as the 32-bit API sees it.
pub open spec fn lparam_low_bits(lparam: isize) -> int {
    lparam as int % 0x1_0000_0000
}

fn lparam_low_u32(lparam: isize) -> (r: u32)
    ensures
        r as int == lparam_low_bits(lparam),
{
    if lparam >= 0 {
        ((lparam as u64) % 0x1_0000_0000) as u32
    } else {
        let shifted: u128 = (lparam as i128 + 0x1_0000_0000_0000_0000i128) as u128;
        proof {
            vstd::arithmetic::div_mod::lemma_mod_multiples_vanish(
                0x1_0000_0000,
                lparam as int,
                0x1_0000_0000,
            );
            assert(0x1_0000_0000 * 0x1_0000_0000 + lparam as int == shifted as int);
        }
        (shifted % 0x1_0000_0000) as u32
    }
}

fn signed_word_of(w: u32) -> (r: i16)
    requires
        w < 0x10000,
    ensures
        r as int == signed_word(w as int),
{
    if w >= 0x8000 {
        (w as i32 - 0x10000) as i16
    } else {
        w as i16
    }
}

/// The low word of `lParam` as a signed value (a mouse message's x).
pub fn lparam_low_word_signed(lparam: isize) -> (r: i16)
    ensures
        r as int == signed_word(lparam_low_bits(lparam) % 0x10000),
{
    signed_word_of(lparam_low_u32(lparam) % 0x10000)
}

/// The high word of `lParam`'s low 32 bits as a signed value (a mouse
/// message's y).
pub fn lparam_high_word_signed(lparam: isize) -> (r: i16)
    ensures
        r as int == signed_word(lparam_low_bits(lparam) / 0x10000),
{
    signed_word_of(lparam_low_u32(lparam) / 0x10000)
}

/// The high word of `wParam`'s low 32 bits, as an unsigned value.
pub open spec fn wparam_high_word(wparam: usize) -> int {
    (wparam as int / 0x10000) % 0x10000
}

/// The high word of `wParam` as a signed value (a wheel delta).
pub fn wparam_high_word_signed(wparam: usize) -> (r: i16)
    ensures
        r as int == signed_word(wparam_high_word(wparam)),
{
    signed_word_of(((wparam as u64 / 0x10000) % 0x10000) as u32)
}

/// The low 32 bits of `wParam`.
pub fn wparam_low_u32(wparam: usize) -> (r: u32)
    ensures
        r as int == wparam as int % 0x1_0000_0000,
{
    (wparam as u64 % 0x1_0000_0000) as u32
}

/// A signed 32-bit window value stored as the bits of a `usize`.
pub fn i32_to_bits(value: i32) -> (r: usize)
    ensures
        r as int == (if value < 0 {
            value + 0x1_0000_0000
        } else {
            value as int
        }),
{
    if value < 0 {
        (((value as i64) + 0x1_0000_0000) as u32) as usize
    } else {
        (value as u32) as usize
    }
}

/// The low 32 bits of `bits` read as a signed value.
pub open spec fn spec_bits_to_i32(bits: usize) -> int {
    let u = bits as int % 0x1_0000_0000;
    if u >= 0x8000_0000 {
        u - 0x1_0000_0000
    } else {
        u
    }
}

/// The signed 32-bit value held in the low bits of `bits`.
pub fn bits_to_i32(bits: usize) -> (r: i32)
    ensures
        r as int == spec_bits_to_i32(bits),
{
    let u: u64 = bits as u64 % 0x1_0000_0000;
    if u >= 0x8000_0000 {
        (u as i64 - 0x1_0000_0000) as i32
    } else {
        u as i32
    }
}

/// Storing a window value as bits and reading it back gives it.
pub proof fn lemma_i32_bits_roundtrip(value: i32, bits: usize)
    requires
        bits as int == (if value < 0 {
            value + 0x1_0000_0000
        } else {
            value as int
        }),
    ensures
        spec_bits_to_i32(bits) == value,
{
}

/// `ON` or `OFF`.
pub fn enabled_label(enabled: bool) -> (r: &'static str)
    ensures
        r@ == (if enabled {
            "ON"@
        } else {
            "OFF"@
        }),
{
    if enabled {
        "ON"
    } else {
        "OFF"
    }
}

/// The messages the overlay takes while it captures input.
pub open spec fn spec_is_overlay_input_message(msg: u32) -> bool {
    ||| msg == WM_INPUT
    ||| msg == WM_SETCURSOR
    ||| msg == WM_MOUSEMOVE
    ||| msg == WM_LBUTTONDOWN
    ||| msg == WM_LBUTTONUP
    ||| msg == WM_RBUTTONDOWN
    ||| msg == WM_RBUTTONUP
    ||| msg == WM_MBUTTONDOWN
    ||| msg == WM_MBUTTONUP
    ||| msg == WM_XBUTTONDOWN
    ||| msg == WM_XBUTTONUP
    ||| msg == WM_MOUSEWHEEL
    ||| msg == WM_MOUSEHWHEEL
    ||| msg == WM_KEYDOWN
    ||| msg == WM_KEYUP
    ||| msg == WM_SYSKEYDOWN
    ||| msg == WM_SYSKEYUP
    ||| msg == WM_CHAR
}

/// Whether the overlay takes `msg` while it captures input.
pub fn is_overlay_input_message(msg: u32) -> (b: bool)
    ensures
        b == spec_is_overlay_input_message(msg),
{
    msg == WM_INPUT || msg == WM_SETCURSOR || msg == WM_MOUSEMOVE || msg == WM_LBUTTONDOWN || msg
        == WM_LBUTTONUP || msg == WM_RBUTTONDOWN || msg == WM_RBUTTONUP || msg == WM_MBUTTONDOWN
        || msg == WM_MBUTTONUP || msg == WM_XBUTTONDOWN || msg == WM_XBUTTONUP || msg
        == WM_MOUSEWHEEL || msg == WM_MOUSEHWHEEL || msg == WM_KEYDOWN || msg == WM_KEYUP || msg
        == WM_SYSKEYDOWN || msg == WM_SYSKEYUP || msg == WM_CHAR
}

// ---------------------------------------------------------------------------
// Characters
// ---------------------------------------------------------------------------

/// Whether `v` is a Unicode scalar value (what `char::from_u32` accepts).
pub open spec fn is_scalar_value(v: u32) -> bool {
    v <= 0x10FFFF && !(0xD800 <= v <= 0xDFFF)
}

/// `char::from_u32`: the character with scalar value `v`, if there is one.
#[verifier::external_body]
fn char_from_u32(v: u32) -> (r: Option<char>)
    ensures
        r is Some <==> is_scalar_value(v),
        r matches Some(c) ==> c as int == v as int,
{
    char::from_u32(v)
}

/// The Unicode control characters (general category `Cc`), what
/// `char::is_control` tests.
pub open spec fn is_control_char(c: char) -> bool {
    c as int <= 0x1F || (0x7F <= c as int && c as int <= 0x9F)
}

/// Whether `c` is a control character.
pub fn is_control(c: char) -> (b: bool)
    ensures
        b == is_control_char(c),
{
    let v = c as u32;
    v <= 0x1F || (0x7F <= v && v <= 0x9F)
}

// ---------------------------------------------------------------------------
// Translation to Dear ImGui input
// ---------------------------------------------------------------------------

#[derive(Clone, Copy, Debug, PartialEq, Eq, Structural)]
pub enum MouseButtonKind {
    Left,
    Right,
    Middle,
    Extra1,
    Extra2,
}

/// An input event for Dear ImGui, or the cursor to show.
#[derive(Clone, Copy, Debug, PartialEq, Eq, Structural)]
pub enum OverlayInputEvent {
    /// Show the arrow cursor.
    SetArrowCursor,
    /// The mouse is at `(x, y)` in the window.
    MousePos { x: i16, y: i16 },
    MouseButton { button: MouseButtonKind, down: bool },
    /// A wheel turn of `delta` units of which 120 make a notch.
    MouseWheel { horizontal: bool, delta: i16 },
    Key { key: ImguiKey, down: bool },
    Char(char),
}

/// Whether the overlay consumes the message, and the events it gives.
#[derive(Debug)]
pub struct OverlayInputResponse {
    pub handled: bool,
    pub events: Vec<OverlayInputEvent>,
}

pub open spec fn spec_key_events(k: ImguiKey, down: bool) -> Seq<OverlayInputEvent> {
    match spec_modifier_of(k) {
        Some(m) => seq![
            OverlayInputEvent::Key { key: k, down },
            OverlayInputEvent::Key { key: m, down },
        ],
        None => seq![OverlayInputEvent::Key { key: k, down }],
    }
}

pub open spec fn spec_button_event(msg: u32) -> OverlayInputEvent {
    if msg == WM_LBUTTONDOWN {
        OverlayInputEvent::MouseButton { button: MouseButtonKind::Left, down: true }
    } else if msg == WM_LBUTTONUP {
        OverlayInputEvent::MouseButton { button: MouseButtonKind::Left, down: false }
    } else if msg == WM_RBUTTONDOWN {
        OverlayInputEvent::MouseButton { button: MouseButtonKind::Right, down: true }
    } else if msg == WM_RBUTTONUP {
        OverlayInputEvent::MouseButton { button: MouseButtonKind::Right, down: false }
    } else if msg == WM_MBUTTONDOWN {
        OverlayInputEvent::MouseButton { button: MouseButtonKind::Middle, down: true }
    } else {
        OverlayInputEvent::MouseButton { button: MouseButtonKind::Middle, down: false }
    }
}

/// What the overlay makes of a window message while it captures input.
pub open spec fn spec_overlay_input(msg: u32, wparam: usize, lparam: isize) -> (
    bool,
    Seq<OverlayInputEvent>,
) {
    if msg == WM_INPUT {
        (true, Seq::empty())
    } else if msg == WM_SETCURSOR {
        (true, seq![OverlayInputEvent::SetArrowCursor])
    } else if msg == WM_MOUSEMOVE {
        (
            true,
            seq![
                OverlayInputEvent::MousePos {
                    x: signed_word(lparam_low_bits(lparam) % 0x10000) as i16,
                    y: signed_word(lparam_low_bits(lparam) / 0x10000) as i16,
                },
            ],
        )
    } else if msg == WM_LBUTTONDOWN || msg == WM_LBUTTONUP || msg == WM_RBUTTONDOWN || msg
        == WM_RBUTTONUP || msg == WM_MBUTTONDOWN || msg == WM_MBUTTONUP {
        (true, seq![spec_button_event(msg)])
    } else if msg == WM_XBUTTONDOWN || msg == WM_XBUTTONUP {
        let button = if wparam_high_word(wparam) == XBUTTON1 {
            MouseButtonKind::Extra1
        } else {
            MouseButtonKind::Extra2
        };
        (true, seq![OverlayInputEvent::MouseButton { button, down: msg == WM_XBUTTONDOWN }])
    } else if msg == WM_MOUSEWHEEL || msg == WM_MOUSEHWHEEL {
        (
            true,
            seq![
                OverlayInputEvent::MouseWheel {
                    horizontal: msg == WM_MOUSEHWHEEL,
                    delta: signed_word(wparam_high_word(wparam)) as i16,
                },
            ],
        )
    } else if msg == WM_KEYDOWN || msg == WM_SYSKEYDOWN || msg == WM_KEYUP || msg == WM_SYSKEYUP {
        let down = msg == WM_KEYDOWN || msg == WM_SYSKEYDOWN;
        let vk = (wparam as int % 0x1_0000_0000) as u32;
        match spec_map_virtual_key(vk, lparam) {
            Some(k) => (true, spec_key_events(k, down)),
            None => (true, Seq::empty()),
        }
    } else if msg == WM_CHAR {
        let v = (wparam as int % 0x1_0000_0000) as u32;
        if is_scalar_value(v) && !is_control_char(v as char) {
            (true, seq![OverlayInputEvent::Char(v as char)])
        } else {
            (true, Seq::empty())
        }
    } else {
        (false, Seq::empty())
    }
}

/// Translates a window message for Dear ImGui while the overlay captures
/// input: whether the overlay consumes it and the input events it carries.
pub fn handle_overlay_input_message(msg: u32, wparam: usize, lparam: isize) -> (r:
    OverlayInputResponse)
    ensures
        (r.handled, r.events@) == spec_overlay_input(msg, wparam, lparam),
{
    let mut events: Vec<OverlayInputEvent> = Vec::new();
    if msg == WM_INPUT {
        assert(events@ =~= Seq::<OverlayInputEvent>::empty());
        OverlayInputResponse { handled: true, events }
    } else if msg == WM_SETCURSOR {
        events.push(OverlayInputEvent::SetArrowCursor);
        assert(events@ =~= seq![OverlayInputEvent::SetArrowCursor]);
        OverlayInputResponse { handled: true, events }
    } else if msg == WM_MOUSEMOVE {
        let x = lparam_low_word_signed(lparam);
        let y = lparam_high_word_signed(lparam);
        events.push(OverlayInputEvent::MousePos { x, y });
        assert(events@ =~= seq![OverlayInputEvent::MousePos { x, y }]);
        OverlayInputResponse { handled: true, events }
    } else if msg == WM_LBUTTONDOWN || msg == WM_LBUTTONUP || msg == WM_RBUTTONDOWN || msg
        == WM_RBUTTONUP || msg == WM_MBUTTONDOWN || msg == WM_MBUTTONUP {
        let button = if msg == WM_LBUTTONDOWN || msg == WM_LBUTTONUP {
            MouseButtonKind::Left
        } else if msg == WM_RBUTTONDOWN || msg == WM_RBUTTONUP {
            MouseButtonKind::Right
        } else {
            MouseButtonKind::Middle
        };
        let down = msg == WM_LBUTTONDOWN || msg == WM_RBUTTONDOWN || msg == WM_MBUTTONDOWN;
        let e = OverlayInputEvent::MouseButton { button, down };
        events.push(e);
        assert(events@ =~= seq![spec_button_event(msg)]);
        OverlayInputResponse { handled: true, events }
    } else if msg == WM_XBUTTONDOWN || msg == WM_XBUTTONUP {
        let xbutton = (wparam as u64 / 0x10000) % 0x10000;
        let button = if xbutton == XBUTTON1 as u64 {
            MouseButtonKind::Extra1
        } else {
            MouseButtonKind::Extra2
        };
        let e = OverlayInputEvent::MouseButton { button, down: msg == WM_XBUTTONDOWN };
        events.push(e);
        assert(events@ =~= seq![e]);
        OverlayInputResponse { handled: true, events }
    } else if msg == WM_MOUSEWHEEL || msg == WM_MOUSEHWHEEL {
        let delta = wparam_high_word_signed(wparam);
        let e = OverlayInputEvent::MouseWheel { horizontal: msg == WM_MOUSEHWHEEL, delta };
        events.push(e);
        assert(events@ =~= seq![e]);
        OverlayInputResponse { handled: true, events }
    } else if msg == WM_KEYDOWN || msg == WM_SYSKEYDOWN || msg == WM_KEYUP || msg == WM_SYSKEYUP {
        let key_down = msg == WM_KEYDOWN || msg == WM_SYSKEYDOWN;
        let vk = wparam_low_u32(wparam);
        match map_virtual_key_to_imgui_key(vk, lparam) {
            Some(key) => {
                events.push(OverlayInputEvent::Key { key, down: key_down });
                match modifier_of(key) {
                    Some(m) => {
                        events.push(OverlayInputEvent::Key { key: m, down: key_down });
                    },
                    None => {},
                }
                assert(events@ =~= spec_key_events(key, key_down));
            },
            None => {
                assert(events@ =~= Seq::<OverlayInputEvent>::empty());
            },
        }
        OverlayInputResponse { handled: true, events }
    } else if msg == WM_CHAR {
        let v = wparam_low_u32(wparam);
        match char_from_u32(v) {
            Some(ch) => {
                assert(ch == v as char);
                if !is_control(ch) {
                    events.push(OverlayInputEvent::Char(ch));
                    assert(events@ =~= seq![OverlayInputEvent::Char(ch)]);
                } else {
                    assert(events@ =~= Seq::<OverlayInputEvent>::empty());
                }
            },
            None => {
                assert(events@ =~= Seq::<OverlayInputEvent>::empty());
            },
        }
        OverlayInputResponse { handled: true, events }
    } else {
        assert(events@ =~= Seq::<OverlayInputEvent>::empty());
        OverlayInputResponse { handled: false, events }
    }
}

/// The overlay consumes exactly the messages that
/// `is_overlay_input_message` names, so whether a message reaches the game
/// does not depend on the overlay having a Dear ImGui context.
pub proof fn lemma_handled_matches_input_messages(msg: u32, wparam: usize, lparam: isize)
    ensures
        spec_overlay_input(msg, wparam, lparam).0 == spec_is_overlay_input_message(msg),
{
}

// ---------------------------------------------------------------------------
// DirectInput mouse suppression
// ---------------------------------------------------------------------------

/// The `DIMOUSESTATE2` field offsets: the axes and the eight buttons.
pub open spec fn spec_is_directinput_mouse_offset(dw_ofs: u32) -> bool {
    dw_ofs == 0 || dw_ofs == 4 || dw_ofs == 8 || (12 <= dw_ofs <= 19)
}

/// Whether a buffered DirectInput event comes from a mouse axis or button.
pub fn is_directinput_mouse_offset(dw_ofs: u32) -> (b: bool)
    ensures
        b == spec_is_directinput_mouse_offset(dw_ofs),
{
    dw_ofs == 0 || dw_ofs == 4 || dw_ofs == 8 || dw_ofs == 12 || dw_ofs == 13 || dw_ofs == 14
        || dw_ofs == 15 || dw_ofs == 16 || dw_ofs == 17 || dw_ofs == 18 || dw_ofs == 19
}

/// Whether an immediate mouse state that `GetDeviceState` returned is zeroed:
/// the call succeeded, the overlay captures input, there is a buffer and it
/// has the size of a `DIMOUSESTATE` or `DIMOUSESTATE2`.
pub fn should_clear_mouse_state(
    hr: i32,
    capture_enabled: bool,
    data_present: bool,
    cb_data: u32,
    mouse_state_size: usize,
    mouse_state2_size: usize,
) -> (b: bool)
    ensures
        b == (hr >= 0 && capture_enabled && data_present && (cb_data as int == mouse_state_size
            || cb_data as int == mouse_state2_size)),
{
    hr >= 0 && capture_enabled && data_present && (cb_data as usize == mouse_state_size
        || cb_data as usize == mouse_state2_size)
}

/// What to do with the buffered data `GetDeviceData` returned, before looking
/// at the events.
#[derive(Clone, Copy, Debug, PartialEq, Eq, Structural)]
pub enum DeviceDataStep {
    /// Return the result untouched.
    Keep,
    /// Report zero events.
    ClearCount,
    /// Read the events and decide with [`should_suppress_device_data`].
    InspectEvents,
}

pub open spec fn spec_device_data_step(
    hr: i32,
    capture_enabled: bool,
    count_present: bool,
    events_present: bool,
    cb_object_data: u32,
    object_data_size: usize,
) -> DeviceDataStep {
    if hr < 0 || !capture_enabled || !count_present {
        DeviceDataStep::Keep
    } else if !events_present {
        DeviceDataStep::ClearCount
    } else if cb_object_data as int != object_data_size {
        DeviceDataStep::Keep
    } else {
        DeviceDataStep::InspectEvents
    }
}

/// The first decision on a `GetDeviceData` result while the overlay may be
/// capturing input.
pub fn device_data_step(
    hr: i32,
    capture_enabled: bool,
    count_present: bool,
    events_present: bool,
    cb_object_data: u32,
    object_data_size: usize,
) -> (r: DeviceDataStep)
    ensures
        r == spec_device_data_step(
            hr,
            capture_enabled,
            count_present,
            events_present,
            cb_object_data,
            object_data_size,
        ),
{
    if hr < 0 || !capture_enabled || !count_present {
        DeviceDataStep::Keep
    } else if !events_present {
        DeviceDataStep::ClearCount
    } else if cb_object_data as usize != object_data_size {
        DeviceDataStep::Keep
    } else {
        DeviceDataStep::InspectEvents
    }
}

/// Whether the buffered events (by their offsets) are hidden from the game:
/// there are some and every one is a mouse axis or button.
pub fn should_suppress_device_data(offsets: &[u32]) -> (b: bool)
    ensures
        b == (offsets@.len() > 0 && forall|i: int|
            0 <= i < offsets@.len() ==> spec_is_directinput_mouse_offset(#[trigger] offsets@[i])),
{
    if offsets.len() == 0 {
        return false;
    }
    let mut i: usize = 0;
    while i < offsets.len()
        invariant
            i <= offsets@.len(),
            forall|k: int| 0 <= k < i ==> spec_is_directinput_mouse_offset(#[trigger] offsets@[k]),
        decreases offsets.len() - i,
    {
        if !is_directinput_mouse_offset(offsets[i]) {
            return false;
        }
        i = i + 1;
    }
    true
}

// ---------------------------------------------------------------------------
// The key table
// ---------------------------------------------------------------------------

/// The Windows virtual-key codes of the navigation and editing keys reach the
/// Dear ImGui key of the same name, whatever the `lParam`: the arrows keep
/// their direction.
pub proof fn lemma_named_virtual_keys(lparam: isize)
    ensures
        spec_map_virtual_key(0x25, lparam) == Some(ImguiKey::LeftArrow),
        spec_map_virtual_key(0x26, lparam) == Some(ImguiKey::UpArrow),
        spec_map_virtual_key(0x27, lparam) == Some(ImguiKey::RightArrow),
        spec_map_virtual_key(0x28, lparam) == Some(ImguiKey::DownArrow),
        spec_map_virtual_key(0x09, lparam) == Some(ImguiKey::Tab),
        spec_map_virtual_key(0x21, lparam) == Some(ImguiKey::PageUp),
        spec_map_virtual_key(0x22, lparam) == Some(ImguiKey::PageDown),
        spec_map_virtual_key(0x24, lparam) == Some(ImguiKey::Home),
        spec_map_virtual_key(0x23, lparam) == Some(ImguiKey::End),
        spec_map_virtual_key(0x2D, lparam) == Some(ImguiKey::Insert),
        spec_map_virtual_key(0x2E, lparam) == Some(ImguiKey::Delete),
        spec_map_virtual_key(0x08, lparam) == Some(ImguiKey::Backspace),
        spec_map_virtual_key(0x20, lparam) == Some(ImguiKey::Space),
        spec_map_virtual_key(0x1B, lparam) == Some(ImguiKey::Escape),
        spec_map_virtual_key(0x10, lparam) == Some(ImguiKey::LeftShift),
        spec_map_virtual_key(0xA0, lparam) == Some(ImguiKey::LeftShift),
        spec_map_virtual_key(0xA1, lparam) == Some(ImguiKey::RightShift),
        spec_map_virtual_key(0xA2, lparam) == Some(ImguiKey::LeftCtrl),
        spec_map_virtual_key(0xA3, lparam) == Some(ImguiKey::RightCtrl),
        spec_map_virtual_key(0xA4, lparam) == Some(ImguiKey::LeftAlt),
        spec_map_virtual_key(0xA5, lparam) == Some(ImguiKey::RightAlt),
        spec_map_virtual_key(0x5B, lparam) == Some(ImguiKey::LeftSuper),
        spec_map_virtual_key(0x5C, lparam) == Some(ImguiKey::RightSuper),
{
}

/// Enter, Ctrl and Alt (`0x0D`, `0x11`, `0x12`) are the main keyboard's, or
/// the left ones, when bit 24 of `lParam` is clear, and the keypad Enter and
/// the right Ctrl and Alt when it is set.
pub proof fn lemma_extended_virtual_keys(lparam: isize)
    requires
        0 <= lparam < 0x0200_0000,
    ensures
        lparam < 0x0100_0000 ==> spec_map_virtual_key(0x0D, lparam) == Some(ImguiKey::Enter),
        lparam < 0x0100_0000 ==> spec_map_virtual_key(0x11, lparam) == Some(ImguiKey::LeftCtrl),
        lparam < 0x0100_0000 ==> spec_map_virtual_key(0x12, lparam) == Some(ImguiKey::LeftAlt),
        lparam >= 0x0100_0000 ==> spec_map_virtual_key(0x0D, lparam) == Some(
            ImguiKey::KeypadEnter,
        ),
        lparam >= 0x0100_0000 ==> spec_map_virtual_key(0x11, lparam) == Some(ImguiKey::RightCtrl),
        lparam >= 0x0100_0000 ==> spec_map_virtual_key(0x12, lparam) == Some(ImguiKey::RightAlt),
{
}

/// The letter keys `0x41`..=`0x5A` reach the letters `A` to `Z` in order,
/// whatever the `lParam`.
pub proof fn lemma_letter_virtual_keys(lparam: isize)
    ensures
        spec_map_virtual_key(0x41, lparam) == Some(ImguiKey::A),
        spec_map_virtual_key(0x42, lparam) == Some(ImguiKey::B),
        spec_map_virtual_key(0x43, lparam) == Some(ImguiKey::C),
        spec_map_virtual_key(0x44, lparam) == Some(ImguiKey::D),
        spec_map_virtual_key(0x45, lparam) == Some(ImguiKey::E),
        spec_map_virtual_key(0x46, lparam) == Some(ImguiKey::F),
        spec_map_virtual_key(0x47, lparam) == Some(ImguiKey::G),
        spec_map_virtual_key(0x48, lparam) == Some(ImguiKey::H),
        spec_map_virtual_key(0x49, lparam) == Some(ImguiKey::I),
        spec_map_virtual_key(0x4A, lparam) == Some(ImguiKey::J),
        spec_map_virtual_key(0x4B, lparam) == Some(ImguiKey::K),
        spec_map_virtual_key(0x4C, lparam) == Some(ImguiKey::L),
        spec_map_virtual_key(0x4D, lparam) == Some(ImguiKey::M),
        spec_map_virtual_key(0x4E, lparam) == Some(ImguiKey::N),
        spec_map_virtual_key(0x4F, lparam) == Some(ImguiKey::O),
        spec_map_virtual_key(0x50, lparam) == Some(ImguiKey::P),
        spec_map_virtual_key(0x51, lparam) == Some(ImguiKey::Q),
        spec_map_virtual_key(0x52, lparam) == Some(ImguiKey::R),
        spec_map_virtual_key(0x53, lparam) == Some(ImguiKey::S),
        spec_map_virtual_key(0x54, lparam) == Some(ImguiKey::T),
        spec_map_virtual_key(0x55, lparam) == Some(ImguiKey::U),
        spec_map_virtual_key(0x56, lparam) == Some(ImguiKey::V),
        spec_map_virtual_key(0x57, lparam) == Some(ImguiKey::W),
        spec_map_virtual_key(0x58, lparam) == Some(ImguiKey::X),
        spec_map_virtual_key(0x59, lparam) == Some(ImguiKey::Y),
        spec_map_virtual_key(0x5A, lparam) == Some(ImguiKey::Z),
{
}

/// The digit keys `0x30`..=`0x39` reach `0` to `9` and the function keys
/// `0x70`..=`0x7B` reach `F1` to `F12`, whatever the `lParam`.
pub proof fn lemma_digit_and_function_virtual_keys(lparam: isize)
    ensures
        spec_map_virtual_key(0x30, lparam) == Some(ImguiKey::Alpha0),
        spec_map_virtual_key(0x31, lparam) == Some(ImguiKey::Alpha1),
        spec_map_virtual_key(0x32, lparam) == Some(ImguiKey::Alpha2),
        spec_map_virtual_key(0x33, lparam) == Some(ImguiKey::Alpha3),
        spec_map_virtual_key(0x34, lparam) == Some(ImguiKey::Alpha4),
        spec_map_virtual_key(0x35, lparam) == Some(ImguiKey::Alpha5),
        spec_map_virtual_key(0x36, lparam) == Some(ImguiKey::Alpha6),
        spec_map_virtual_key(0x37, lparam) == Some(ImguiKey::Alpha7),
        spec_map_virtual_key(0x38, lparam) == Some(ImguiKey::Alpha8),
        spec_map_virtual_key(0x39, lparam) == Some(ImguiKey::Alpha9),
        spec_map_virtual_key(0x70, lparam) == Some(ImguiKey::F1),
        spec_map_virtual_key(0x71, lparam) == Some(ImguiKey::F2),
        spec_map_virtual_key(0x72, lparam) == Some(ImguiKey::F3),
        spec_map_virtual_key(0x73, lparam) == Some(ImguiKey::F4),
        spec_map_virtual_key(0x74, lparam) == Some(ImguiKey::F5),
        spec_map_virtual_key(0x75, lparam) == Some(ImguiKey::F6),
        spec_map_virtual_key(0x76, lparam) == Some(ImguiKey::F7),
        spec_map_virtual_key(0x77, lparam) == Some(ImguiKey::F8),
        spec_map_virtual_key(0x78, lparam) == Some(ImguiKey::F9),
        spec_map_virtual_key(0x79, lparam) == Some(ImguiKey::F10),
        spec_map_virtual_key(0x7A, lparam) == Some(ImguiKey::F11),
        spec_map_virtual_key(0x7B, lparam) == Some(ImguiKey::F12),
{
}

/// A key-down (`0x100`) or key-up (`0x101`) message of a key that has no
/// modifier of its own gives exactly that key's event, pressed on the
/// key-down and released on the key-up; the arrows, for instance, their own
/// direction.
pub proof fn lemma_key_message_events(vk: u32, lparam: isize)
    requires
        spec_map_virtual_key(vk, lparam) is Some,
        spec_modifier_of(spec_map_virtual_key(vk, lparam)->0) is None,
    ensures
        spec_overlay_input(0x0100, vk as usize, lparam) == (
            true,
            seq![OverlayInputEvent::Key { key: spec_map_virtual_key(vk, lparam)->0, down: true }],
        ),
        spec_overlay_input(0x0101, vk as usize, lparam) == (
            true,
            seq![OverlayInputEvent::Key { key: spec_map_virtual_key(vk, lparam)->0, down: false }],
        ),
        spec_overlay_input(0x0100, 0x25, lparam) == (
            true,
            seq![OverlayInputEvent::Key { key: ImguiKey::LeftArrow, down: true }],
        ),
        spec_overlay_input(0x0100, 0x27, lparam) == (
            true,
            seq![OverlayInputEvent::Key { key: ImguiKey::RightArrow, down: true }],
        ),
{
    assert(vk as usize as int % 0x1_0000_0000 == vk as int);
}

// ---------------------------------------------------------------------------
// The DirectInput mouse layout
// ---------------------------------------------------------------------------

/// `DIMOUSESTATE2` holds three 4-byte axes at offsets 0, 4 and 8, then eight
/// one-byte buttons at offsets 12 to 19: every one of those offsets is a
/// mouse offset, and no other is.
pub proof fn lemma_dimousestate2_offsets(o: u32)
    ensures
        spec_is_directinput_mouse_offset(0),
        spec_is_directinput_mouse_offset(4),
        spec_is_directinput_mouse_offset(8),
        12 <= o < 20 ==> spec_is_directinput_mouse_offset(o),
        o < 12 && o % 4 != 0 ==> !spec_is_directinput_mouse_offset(o),
        o >= 20 ==> !spec_is_directinput_mouse_offset(o),
{
}

/// A buffer of button events alone, any of the eight buttons, is hidden from
/// the game while the overlay captures input.
pub proof fn lemma_button_events_suppressed(offsets: Seq<u32>)
    requires
        offsets.len() > 0,
        forall|i: int| 0 <= i < offsets.len() ==> 12 <= #[trigger] offsets[i] < 20,
    ensures
        forall|i: int|
            0 <= i < offsets.len() ==> spec_is_directinput_mouse_offset(#[trigger] offsets[i]),
{
}

} // verus!
