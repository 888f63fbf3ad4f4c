//! COM vtable detours: what is written into a vtable slot, how the write is
//! checked, and what the DirectInput mouse hooks came to.
use vstd::prelude::*;

use crate::patch_utils::{
    address_low_u32, le_u32_bytes, le_u32_value, lemma_le_u32_roundtrip, u32_le_bytes,
};

verus! {

/// Slot of `IDirectInputDevice8::GetDeviceState` in its vtable.
pub const IDIRECTINPUTDEVICE8_VTBL_GETDEVICESTATE_INDEX: usize = 9;

/// Slot of `IDirectInputDevice8::GetDeviceData` in its vtable.
pub const IDIRECTINPUTDEVICE8_VTBL_GETDEVICEDATA_INDEX: usize = 10;

/// The bytes to write into a vtable slot that holds `original` to make it
/// point at `replacement` (a 32-bit pointer, least significant byte first);
/// `None` when the slot already holds the replacement, since overwriting it
/// would lose the original pointer.
pub fn plan_vtable_patch(original: usize, replacement: usize) -> (r: Option<Vec<u8>>)
    ensures
        r is None <==> original == replacement,
        r matches Some(b) ==> b@ == le_u32_bytes(replacement as int % 0x1_0000_0000),
{
    if original == replacement {
        None
    } else {
        Some(u32_le_bytes(address_low_u32(replacement)))
    }
}

/// The slot's original pointer, once reading the slot back (`patched`) shows
/// the replacement; `None` when the write did not take.
pub fn verify_vtable_patch(original: usize, replacement: usize, patched: usize) -> (r: Option<
    usize,
>)
    ensures
        r == (if patched == replacement {
            Some(original)
        } else {
            None::<usize>
        }),
{
    if patched == replacement {
        Some(original)
    } else {
        None
    }
}

/// The bytes written into a slot read back, as a 32-bit pointer, as the
/// replacement's address.
pub proof fn lemma_vtable_bytes_hold_replacement(replacement: usize)
    ensures
        le_u32_value(le_u32_bytes(replacement as int % 0x1_0000_0000)) == replacement as int
            % 0x1_0000_0000,
{
    lemma_le_u32_roundtrip(replacement as int % 0x1_0000_0000);
}

/// What installing the DirectInput mouse hooks came to.
#[derive(Clone, Copy, Debug, PartialEq, Eq, Structural)]
pub enum DinputHookOutcome {
    /// `GetDeviceState` could not be hooked: no suppression.
    NotInstalled,
    /// Both calls are hooked.
    Installed,
    /// Only `GetDeviceState` is hooked: its suppression still works.
    InstalledWithoutDeviceData,
}

/// The outcome from which of the two vtable slots were detoured.
pub fn dinput_hooks_outcome(get_state_hooked: bool, get_data_hooked: bool) -> (r:
    DinputHookOutcome)
    ensures
        r == (if !get_state_hooked {
            DinputHookOutcome::NotInstalled
        } else if get_data_hooked {
            DinputHookOutcome::Installed
        } else {
            DinputHookOutcome::InstalledWithoutDeviceData
        }),
{
    if !get_state_hooked {
        DinputHookOutcome::NotInstalled
    } else if get_data_hooked {
        DinputHookOutcome::Installed
    } else {
        DinputHookOutcome::InstalledWithoutDeviceData
    }
}

} // verus!
