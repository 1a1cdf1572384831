//! The mathematical model of the machine: its state as sequences and
//! integers, and the effect of every instruction as a function on that state.

use vstd::prelude::*;
use crate::font::FONT;

verus! {

/// The state of a CHIP-8 machine as plain mathematical values.
///
/// This is the view of [`crate::CPU`]; field for field it holds what the
/// executable machine holds.
pub struct Machine {
    /// Memory, 4096 bytes.
    pub mem: Seq<u8>,
    /// Program counter.
    pub pc: u16,
    /// The address register I.
    pub i_reg: u16,
    /// Call stack, 16 slots; slot 0 is never written.
    pub stack: Seq<u16>,
    /// The data registers V0 to VF.
    pub registers: Seq<u8>,
    /// Index of the top stack slot in use; 0 when the stack is empty.
    pub sp: u8,
    /// Value last written to the delay timer.
    pub delay_timer: u8,
    /// Value last written to the sound timer.
    pub sound_timer: u8,
    /// Framebuffer, 64x32 cells in row-major order, each 0 or 1.
    pub buf: Seq<u8>,
    /// Clock reading, in milliseconds, at the last write to the sound timer.
    pub last_st_write: u128,
    /// Clock reading, in milliseconds, at the last write to the delay timer.
    pub last_dt_write: u128,
    /// The host's latest sample of the sixteen keys; `true` is down.
    pub keypad: Seq<bool>,
    /// Shifts read Vx (modern) when set, Vy (legacy) when clear.
    pub shift_uses_x: bool,
    /// Register dump and load leave I alone (modern) when set, advance it (legacy) when clear.
    pub memops_leave_i: bool,
}

/// `n` reduced to eight bits.
pub open spec fn wrap8(n: int) -> u8 {
    (n % 0x100) as u8
}

/// `n` reduced to sixteen bits.
pub open spec fn wrap16(n: int) -> u16 {
    (n % 0x1_0000) as u16
}

/// The four nibbles of an instruction word given as its two bytes, high nibble first.
pub open spec fn nibbles_of(hi: u8, lo: u8) -> (u8, u8, u8, u8) {
    ((hi / 16) as u8, (hi % 16) as u8, (lo / 16) as u8, (lo % 16) as u8)
}

/// The two bytes that four nibbles spell.
pub open spec fn bytes_of(n1: u8, n2: u8, n3: u8, n4: u8) -> (int, int) {
    (n1 * 16 + n2, n3 * 16 + n4)
}

/// The 12-bit address spelled by three nibbles.
pub open spec fn nnn_of(a: u8, b: u8, c: u8) -> int {
    a * 256 + b * 16 + c
}

/// The byte spelled by two nibbles.
pub open spec fn nn_of(hi: u8, lo: u8) -> int {
    hi * 16 + lo
}

/// The memory of a freshly built machine holding `program`: the font at
/// 0x050, the program from 0x200 on, zero elsewhere.
pub open spec fn boot_memory(program: Seq<u8>) -> Seq<u8> {
    Seq::new(
        4096,
        |a: int|
            if 0x050 <= a < 0x0A0 {
                FONT@[a - 0x050]
            } else if 0x200 <= a < 0x200 + program.len() {
                program[a - 0x200]
            } else {
                0u8
            },
    )
}

impl Machine {
    /// Validity of a state: every component has its size, the stack pointer
    /// stays inside the stack and every framebuffer cell is 0 or 1.
    pub open spec fn wf(self) -> bool {
        &&& self.mem.len() == 4096
        &&& self.stack.len() == 16
        &&& self.registers.len() == 16
        &&& self.buf.len() == 2048
        &&& self.keypad.len() == 16
        &&& self.sp <= 15
        &&& forall|k: int| 0 <= k < 2048 ==> #[trigger] self.buf[k] <= 1
    }

    /// The machine as it is built around `program`, with both conventions modern.
    pub open spec fn boot(program: Seq<u8>) -> Machine {
        Machine {
            mem: boot_memory(program),
            pc: 0x200,
            i_reg: 0x200,
            stack: Seq::new(16, |k: int| 0u16),
            registers: Seq::new(16, |k: int| 0u8),
            sp: 0,
            delay_timer: 255,
            sound_timer: 255,
            buf: Seq::new(2048, |k: int| 0u8),
            last_st_write: 0,
            last_dt_write: 0,
            keypad: Seq::new(16, |k: int| false),
            shift_uses_x: true,
            memops_leave_i: true,
        }
    }

    /// The font occupies 0x050 to 0x09F unaltered.
    pub open spec fn font_intact(self) -> bool {
        forall|k: int| 0 <= k < 80 ==> #[trigger] self.mem[0x050 + k] == FONT@[k]
    }

    /// Register Vx.
    pub open spec fn v(self, x: u8) -> u8 {
        self.registers[x as int]
    }

    /// The flag register VF.
    pub open spec fn vf(self) -> u8 {
        self.registers[15]
    }

    /// Vx replaced by `value`.
    pub open spec fn set_v(self, x: u8, value: u8) -> Machine {
        Machine { registers: self.registers.update(x as int, value), ..self }
    }

    /// Vx replaced by `value`, then VF by `flag`: the flag is written last, so
    /// with x = F it is the flag that stays.
    pub open spec fn set_v_flag(self, x: u8, value: u8, flag: u8) -> Machine {
        Machine { registers: self.registers.update(x as int, value).update(15, flag), ..self }
    }

    /// The program counter moved past one instruction.
    pub open spec fn advance(self) -> Machine {
        Machine { pc: wrap16(self.pc + 2), ..self }
    }

    /// The next instruction skipped when `condition` holds.
    pub open spec fn skip_if(self, condition: bool) -> Machine {
        if condition {
            self.advance()
        } else {
            self
        }
    }
}

} // verus!
