//! Safe, ownership-checked handles to the hardware services of a dual-screen
//! handheld console, and the camera capture pipeline built on them.
//!
//! Every call into the console's service layer is made by the caller: the
//! library decides what to do, and is handed back the status code (and any
//! output value) that the service reported.
use crate::hid::{has_keys, KeyPad, ALL_KEYS, KEY_SELECT};
use vstd::prelude::*;

pub mod apt;
pub mod cam;
pub mod error;
pub mod framebuffer;
pub mod hid;
pub mod mcuhwc;
pub mod service;

verus! {

/// What the panic handler does once a panic has been reported: on the main
/// thread, with a console to show the message on, it waits for the exit key
/// to be pressed before the program ends.
pub struct PanicHandler {
    exit_key: KeyPad,
}

impl View for PanicHandler {
    type V = u32;

    closed spec fn view(&self) -> u32 {
        self.exit_key@
    }
}

/// The panic handler: the program ends after a panic once SELECT is pressed.
pub fn use_panic_handler() -> (r: PanicHandler)
    ensures
        r@ == KEY_SELECT,
{
    let exit_key = KeyPad::from_bits_truncate(KEY_SELECT);
    assert(KEY_SELECT & ALL_KEYS == KEY_SELECT) by (bit_vector);
    PanicHandler { exit_key }
}

impl PanicHandler {
    /// Whether a panic waits for the exit key: only one on the main thread,
    /// while a console exists to show the message.
    pub fn should_wait(&self, on_main_thread: bool, console_exists: bool) -> (r: bool)
        ensures
            r == (on_main_thread && console_exists),
    {
        on_main_thread && console_exists
    }

    /// Whether the wait ends on a frame whose newly pressed keys are
    /// `keys_down`.
    pub fn should_exit(&self, keys_down: KeyPad) -> (r: bool)
        ensures
            r == has_keys(keys_down@, self@),
    {
        keys_down.contains(self.exit_key)
    }
}

} // verus!
