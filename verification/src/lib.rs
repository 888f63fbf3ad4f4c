//! Verified core of a runtime patch layer for Test Drive Unlimited 2: the
//! configuration format, the machine code written into the game, the
//! overlay's input handling and the decisions around the Win32 hooks.
use vstd::prelude::*;

pub mod config;
pub mod config_laws;
pub mod fov;
pub mod hooks;
pub mod overlay_input;
pub mod overlay_state;
pub mod patch_utils;
pub mod patches;
pub mod runtime_log;
pub mod text;
pub mod version_proxy;

verus! {

} // verus!
