//! The input service: buttons, pads and touch screen.
//!
//! Each frame the caller reads the raw state of the keys, the touch screen
//! and the circle pad from the service layer and hands it to `Hid::scan_input`.
//! The handle keeps that snapshot and the one before it, from which it derives
//! the keys pressed, held and released on this frame.
use crate::error::Result;
use crate::service::{acquired, released, Service, ServiceHandle, ServiceTable};
use vstd::prelude::*;

verus! {

/// The A button.
pub const KEY_A: u32 = 1u32 << 0u32;
/// The B button.
pub const KEY_B: u32 = 1u32 << 1u32;
/// The SELECT button.
pub const KEY_SELECT: u32 = 1u32 << 2u32;
/// The START button.
pub const KEY_START: u32 = 1u32 << 3u32;
/// Right on the directional pad.
pub const KEY_DRIGHT: u32 = 1u32 << 4u32;
/// Left on the directional pad.
pub const KEY_DLEFT: u32 = 1u32 << 5u32;
/// Up on the directional pad.
pub const KEY_DUP: u32 = 1u32 << 6u32;
/// Down on the directional pad.
pub const KEY_DDOWN: u32 = 1u32 << 7u32;
/// The R shoulder button.
pub const KEY_R: u32 = 1u32 << 8u32;
/// The L shoulder button.
pub const KEY_L: u32 = 1u32 << 9u32;
/// The X button.
pub const KEY_X: u32 = 1u32 << 10u32;
/// The Y button.
pub const KEY_Y: u32 = 1u32 << 11u32;
/// The ZL shoulder button.
pub const KEY_ZL: u32 = 1u32 << 14u32;
/// The ZR shoulder button.
pub const KEY_ZR: u32 = 1u32 << 15u32;
/// The touch screen.
pub const KEY_TOUCH: u32 = 1u32 << 20u32;
/// Right on the C-stick.
pub const KEY_CSTICK_RIGHT: u32 = 1u32 << 24u32;
/// Left on the C-stick.
pub const KEY_CSTICK_LEFT: u32 = 1u32 << 25u32;
/// Up on the C-stick.
pub const KEY_CSTICK_UP: u32 = 1u32 << 26u32;
/// Down on the C-stick.
pub const KEY_CSTICK_DOWN: u32 = 1u32 << 27u32;
/// Right on the circle pad.
pub const KEY_CPAD_RIGHT: u32 = 1u32 << 28u32;
/// Left on the circle pad.
pub const KEY_CPAD_LEFT: u32 = 1u32 << 29u32;
/// Up on the circle pad.
pub const KEY_CPAD_UP: u32 = 1u32 << 30u32;
/// Down on the circle pad.
pub const KEY_CPAD_DOWN: u32 = 1u32 << 31u32;

/// Up, on the directional pad or the circle pad.
pub const KEY_UP: u32 = KEY_DUP | KEY_CPAD_UP;
/// Down, on the directional pad or the circle pad.
pub const KEY_DOWN: u32 = KEY_DDOWN | KEY_CPAD_DOWN;
/// Left, on the directional pad or the circle pad.
pub const KEY_LEFT: u32 = KEY_DLEFT | KEY_CPAD_LEFT;
/// Right, on the directional pad or the circle pad.
pub const KEY_RIGHT: u32 = KEY_DRIGHT | KEY_CPAD_RIGHT;

/// Every bit that names a key.
pub const ALL_KEYS: u32 = KEY_A | KEY_B | KEY_SELECT | KEY_START | KEY_DRIGHT | KEY_DLEFT | KEY_DUP
    | KEY_DDOWN | KEY_R | KEY_L | KEY_X | KEY_Y | KEY_ZL | KEY_ZR | KEY_TOUCH | KEY_CSTICK_RIGHT
    | KEY_CSTICK_LEFT | KEY_CSTICK_UP | KEY_CSTICK_DOWN | KEY_CPAD_RIGHT | KEY_CPAD_LEFT
    | KEY_CPAD_UP | KEY_CPAD_DOWN;

/// A set of keys, one bit each.
#[derive(Debug, Clone, Copy, PartialEq, Eq, Structural)]
pub struct KeyPad {
    bits: u32,
}

impl View for KeyPad {
    type V = u32;

    closed spec fn view(&self) -> u32 {
        self.bits
    }
}

/// Whether every key of `keys` is in `set`.
pub open spec fn has_keys(set: u32, keys: u32) -> bool {
    set & keys == keys
}

impl KeyPad {
    /// The keys among `bits`; bits that name no key are dropped.
    pub fn from_bits_truncate(bits: u32) -> (r: KeyPad)
        ensures
            r@ == bits & ALL_KEYS,
    {
        KeyPad { bits: bits & ALL_KEYS }
    }

    /// The empty set.
    pub fn empty() -> (r: KeyPad)
        ensures
            r@ == 0,
    {
        KeyPad { bits: 0 }
    }

    /// Every key.
    pub fn all() -> (r: KeyPad)
        ensures
            r@ == ALL_KEYS,
    {
        KeyPad { bits: ALL_KEYS }
    }

    /// The set as bits.
    pub fn bits(&self) -> (r: u32)
        ensures
            r == self@,
    {
        self.bits
    }

    /// Whether the set holds no key.
    pub fn is_empty(&self) -> (r: bool)
        ensures
            r == (self@ == 0),
    {
        self.bits == 0
    }

    /// Whether every key of `other` is in this set.
    pub fn contains(&self, other: KeyPad) -> (r: bool)
        ensures
            r == has_keys(self@, other@),
    {
        self.bits & other.bits == other.bits
    }

    /// Whether the two sets share a key.
    pub fn intersects(&self, other: KeyPad) -> (r: bool)
        ensures
            r == (self@ & other@ != 0),
    {
        self.bits & other.bits != 0
    }

    /// The keys in either set.
    pub fn union(self, other: KeyPad) -> (r: KeyPad)
        ensures
            r@ == self@ | other@,
    {
        KeyPad { bits: self.bits | other.bits }
    }

    /// The keys in both sets.
    pub fn intersection(self, other: KeyPad) -> (r: KeyPad)
        ensures
            r@ == self@ & other@,
    {
        KeyPad { bits: self.bits & other.bits }
    }

    /// The keys in this set and not in `other`.
    pub fn difference(self, other: KeyPad) -> (r: KeyPad)
        ensures
            r@ == self@ & !other@,
    {
        KeyPad { bits: self.bits & !other.bits }
    }
}

/// What one scan of the input service read.
#[derive(Debug, Clone, Copy)]
pub struct Snapshot {
    /// The keys down, as the service reports them.
    pub keys: KeyPad,
    /// The touch position in pixels, (0, 0) at the top left of the screen.
    pub touch: (u16, u16),
    /// The circle pad position, (0, 0) at its centre.
    pub circle: (i16, i16),
}

/// Whether `s` is the snapshot before any scan: no key down, touch and
/// circle pad at zero.
pub open spec fn is_blank(s: Snapshot) -> bool {
    s.keys@ == 0 && s.touch == (0u16, 0u16) && s.circle == (0i16, 0i16)
}

/// Handle to the input service, with the last two snapshots.
pub struct Hid {
    handle: ServiceHandle,
    current: Snapshot,
    previous: Snapshot,
}

impl Hid {
    /// Whether the handle owns the input service.
    pub closed spec fn wf(&self) -> bool {
        self.handle@ == Service::Input
    }

    /// The snapshot of this frame.
    pub closed spec fn current(&self) -> Snapshot {
        self.current
    }

    /// The snapshot of the frame before.
    pub closed spec fn previous(&self) -> Snapshot {
        self.previous
    }

    /// Acquires the input service, whose acquisition call reported
    /// `init_status`. Both snapshots start blank.
    pub fn new(table: &mut ServiceTable, init_status: i32) -> (r: Result<Hid>)
        ensures
            match acquired(old(table)@, Service::Input, init_status) {
                Ok(live) => r matches Ok(h) && h.wf() && final(table)@ == live && is_blank(
                    h.current(),
                ) && is_blank(h.previous()),
                Err(e) => r matches Err(f) && f == e && final(table)@ == old(table)@,
            },
    {
        let handle = table.acquire(Service::Input, init_status)?;
        let blank = Snapshot { keys: KeyPad::empty(), touch: (0, 0), circle: (0, 0) };
        Ok(Hid { handle, current: blank, previous: blank })
    }

    /// Takes the state read on a new frame; the snapshot it replaces becomes
    /// the previous one. Bits of `raw_keys` that name no key are dropped.
    pub fn scan_input(&mut self, raw_keys: u32, touch: (u16, u16), circle: (i16, i16))
        ensures
            final(self).wf() == old(self).wf(),
            final(self).previous() == old(self).current(),
            final(self).current().keys@ == raw_keys & ALL_KEYS,
            final(self).current().touch == touch,
            final(self).current().circle == circle,
    {
        self.previous = self.current;
        self.current = Snapshot { keys: KeyPad::from_bits_truncate(raw_keys), touch, circle };
    }

    /// The keys down on this frame that were not down on the frame before.
    pub fn keys_down(&self) -> (r: KeyPad)
        ensures
            r@ == self.current().keys@ & !self.previous().keys@,
    {
        self.current.keys.difference(self.previous.keys)
    }

    /// The keys down on this frame.
    pub fn keys_held(&self) -> (r: KeyPad)
        ensures
            r@ == self.current().keys@,
    {
        self.current.keys
    }

    /// The keys down on the frame before that are not down on this one.
    pub fn keys_up(&self) -> (r: KeyPad)
        ensures
            r@ == self.previous().keys@ & !self.current().keys@,
    {
        self.previous.keys.difference(self.current.keys)
    }

    /// The touch position of this frame, in pixels from the top left corner.
    pub fn touch_position(&self) -> (r: (u16, u16))
        ensures
            r == self.current().touch,
    {
        self.current.touch
    }

    /// The circle pad position of this frame, relative to its centre.
    pub fn circlepad_position(&self) -> (r: (i16, i16))
        ensures
            r == self.current().circle,
    {
        self.current.circle
    }

    /// Releases the input service.
    pub fn release(self, table: &mut ServiceTable)
        requires
            self.wf(),
        ensures
            final(table)@ == released(old(table)@, Service::Input),
    {
        table.release(self.handle);
    }
}

} // verus!
