//! The sixteen-key hexadecimal keypad as the machine sees it.
//!
//! The host owns the keys. It samples them, stores the sample in the machine
//! with [`CPU::set_key`], and answers a wait for a key press with the
//! character that was typed.

use vstd::prelude::*;
use crate::cpu::CPU;
use crate::machine::Machine;

verus! {

/// The key a register value asks about: values beyond F ask about key 0.
pub open spec fn key_index(key: u8) -> int {
    if key < 16 {
        key as int
    } else {
        0
    }
}

/// The virtual-key code of the keyboard key that stands for keypad key
/// `key`: the digit keys for 0 to 9, the letter keys A to F for the rest.
pub open spec fn virtual_key(key: u8) -> int {
    if key < 10 {
        0x30 + key
    } else if key < 16 {
        0x41 + (key - 10)
    } else {
        0x30
    }
}

/// The keypad key that a typed character stands for: a hexadecimal digit in
/// either case is its value, any other character is key 0.
pub open spec fn key_of_char(byte: u8) -> u8 {
    if 0x30 <= byte <= 0x39 {
        (byte - 0x30) as u8
    } else if 0x41 <= byte <= 0x46 {
        (byte - 0x41 + 10) as u8
    } else if 0x61 <= byte <= 0x66 {
        (byte - 0x61 + 10) as u8
    } else {
        0u8
    }
}

impl Machine {
    /// Whether the key that register value `key` asks about was down at the
    /// host's latest sample.
    pub open spec fn key_down(self, key: u8) -> bool {
        self.keypad[key_index(key)]
    }

    /// The latest sample of key `key` replaced by `down`.
    pub open spec fn with_key(self, key: u8, down: bool) -> Machine {
        Machine { keypad: self.keypad.update(key as int, down), ..self }
    }
}

/// The virtual-key code under which the host's keyboard reports keypad key `key`.
pub fn key_code(key: u8) -> (code: i32)
    ensures
        code == virtual_key(key),
{
    match key {
        0x0 => 0x30,
        0x1 => 0x31,
        0x2 => 0x32,
        0x3 => 0x33,
        0x4 => 0x34,
        0x5 => 0x35,
        0x6 => 0x36,
        0x7 => 0x37,
        0x8 => 0x38,
        0x9 => 0x39,
        0xA => 0x41,
        0xB => 0x42,
        0xC => 0x43,
        0xD => 0x44,
        0xE => 0x45,
        0xF => 0x46,
        _ => 0x30,
    }
}

/// Whether a key state word reports the key as down at the moment of the
/// query: that is its most significant bit, the sign of the word.
pub fn key_state_down(state: i16) -> (down: bool)
    ensures
        down == (state < 0),
{
    state < 0
}

/// The keypad key that the typed character `byte` stands for.
pub fn key_from_char(byte: u8) -> (key: u8)
    ensures
        key == key_of_char(byte),
        key < 16,
{
    if 0x30 <= byte && byte <= 0x39 {
        byte - 0x30
    } else if 0x41 <= byte && byte <= 0x46 {
        byte - 0x41 + 10
    } else if 0x61 <= byte && byte <= 0x66 {
        byte - 0x61 + 10
    } else {
        0x00
    }
}

impl CPU {
    /// Whether the key that register value `key` asks about was down at the
    /// host's latest sample. Values beyond F ask about key 0.
    pub fn is_key_pressed(&self, key: u8) -> (down: bool)
        ensures
            down == self@.key_down(key),
    {
        if key < 16 {
            self.keypad[key as usize]
        } else {
            self.keypad[0]
        }
    }

    /// Records the host's sample of key `key`.
    pub fn set_key(&mut self, key: u8, down: bool)
        requires
            key < 16,
        ensures
            final(self)@ == old(self)@.with_key(key, down),
            old(self).wf() ==> final(self).wf(),
    {
        self.keypad[key as usize] = down;
    }
}

} // verus!
