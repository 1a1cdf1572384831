//! The executable machine, its construction and the instruction decoder.

use vstd::prelude::*;
use crate::error::Chip8Error;
use crate::font::FONT;
use crate::machine::{nibbles_of, nnn_of, Machine};

verus! {

/// The CHIP-8 processor together with its memory, framebuffer, timers and
/// the host's latest keypad sample.
///
/// The flag register VF is `registers[0xF]`.
pub struct CPU {
    /// 4 KiB of memory.
    pub mem: [u8; 4096],
    /// The program counter.
    pub pc: u16,
    /// The address register I.
    pub i_reg: u16,
    /// The call stack; slot 0 is never written.
    pub stack: [u16; 16],
    /// The data registers V0 to VF.
    pub registers: [u8; 16],
    /// Index of the top stack slot in use; 0 when the stack is empty.
    pub sp: u8,
    /// Value last written to the delay timer.
    pub delay_timer: u8,
    /// Value last written to the sound timer.
    pub sound_timer: u8,
    /// The display buffer, 64x32 cells in row-major order, each 0 or 1.
    pub buf: [u8; 2048],
    /// Clock reading, in milliseconds, at the last write to the sound timer.
    pub last_st_write: u128,
    /// Clock reading, in milliseconds, at the last write to the delay timer.
    pub last_dt_write: u128,
    /// The host's latest sample of the sixteen keys; `true` is down.
    pub keypad: [bool; 16],
    /// Shifts read Vx (modern) when set, Vy (legacy) when clear.
    pub shift_uses_x: bool,
    /// Register dump and load leave I alone (modern) when set, advance it (legacy) when clear.
    pub memops_leave_i: bool,
}

impl View for CPU {
    type V = Machine;

    open spec fn view(&self) -> Machine {
        Machine {
            mem: self.mem@,
            pc: self.pc,
            i_reg: self.i_reg,
            stack: self.stack@,
            registers: self.registers@,
            sp: self.sp,
            delay_timer: self.delay_timer,
            sound_timer: self.sound_timer,
            buf: self.buf@,
            last_st_write: self.last_st_write,
            last_dt_write: self.last_dt_write,
            keypad: self.keypad@,
            shift_uses_x: self.shift_uses_x,
            memops_leave_i: self.memops_leave_i,
        }
    }
}

impl CPU {
    /// Validity of the machine: the stack pointer stays inside the stack and
    /// every framebuffer cell is 0 or 1.
    pub open spec fn wf(&self) -> bool {
        self@.wf()
    }

    /// Checks the validity of the machine, for hosts that write to its
    /// fields themselves.
    pub fn is_valid(&self) -> (valid: bool)
        ensures
            valid == self.wf(),
    {
        if self.sp > 15 {
            return false;
        }
        let mut k: usize = 0;
        while k < 2048
            invariant
                k <= 2048,
                self.sp <= 15,
                forall|j: int| 0 <= j < k ==> #[trigger] self.buf@[j] <= 1,
            decreases 2048 - k,
        {
            if self.buf[k] > 1 {
                return false;
            }
            k += 1;
        }
        true
    }

    /// A machine with the font in place and no program loaded.
    pub fn new() -> (cpu: CPU)
        ensures
            cpu@ == Machine::boot(Seq::empty()),
            cpu.wf(),
    {
        let mut mem: [u8; 4096] = [0; 4096];
        let mut k: usize = 0;
        while k < 80
            invariant
                k <= 80,
                forall|a: int| 0 <= a < 4096 ==> #[trigger] mem@[a] == if 0x050 <= a < 0x050 + k {
                    FONT@[a - 0x050]
                } else {
                    0u8
                },
            decreases 80 - k,
        {
            mem[0x050 + k] = FONT[k];
            k += 1;
        }
        let cpu = CPU {
            mem,
            pc: 0x200,
            i_reg: 0x200,
            stack: [0; 16],
            registers: [0; 16],
            sp: 0,
            delay_timer: 255,
            sound_timer: 255,
            buf: [0; 2048],
            last_st_write: 0,
            last_dt_write: 0,
            keypad: [false; 16],
            shift_uses_x: true,
            memops_leave_i: true,
        };
        proof {
            let m = Machine::boot(Seq::empty());
            assert(cpu@.mem =~= m.mem);
            assert(cpu@.stack =~= m.stack);
            assert(cpu@.registers =~= m.registers);
            assert(cpu@.buf =~= m.buf);
            assert(cpu@.keypad =~= m.keypad);
        }
        cpu
    }

    /// A machine with the font in place and `program_memory` loaded at 0x200.
    ///
    /// An image of more than 3584 bytes does not fit and is refused.
    pub fn new_with_memory(program_memory: &[u8]) -> (r: Result<CPU, Chip8Error>)
        ensures
            program_memory@.len() <= 3584 ==> r is Ok && r->Ok_0@ == Machine::boot(program_memory@)
                && r->Ok_0.wf(),
            program_memory@.len() > 3584 ==> r == Err::<CPU, Chip8Error>(
                Chip8Error::LoadTooLarge { len: program_memory@.len() as usize },
            ),
    {
        let len = program_memory.len();
        if len > 3584 {
            return Err(Chip8Error::LoadTooLarge { len });
        }
        let mut cpu = CPU::new();
        let mut k: usize = 0;
        while k < len
            invariant
                k <= len,
                len == program_memory@.len(),
                len <= 3584,
                cpu@ == (Machine {
                    mem: cpu@.mem,
                    ..Machine::boot(Seq::empty())
                }),
                forall|a: int| 0 <= a < 4096 ==> #[trigger] cpu.mem@[a] == if 0x050 <= a < 0x0A0 {
                    FONT@[a - 0x050]
                } else if 0x200 <= a < 0x200 + k {
                    program_memory@[a - 0x200]
                } else {
                    0u8
                },
            decreases len - k,
        {
            cpu.mem[0x200 + k] = program_memory[k];
            k += 1;
        }
        proof {
            assert(cpu@.mem =~= Machine::boot(program_memory@).mem);
        }
        Ok(cpu)
    }

    /// The same machine with the two historical conventions chosen: whether
    /// shifts read Vx, and whether register dump and load leave I unchanged.
    pub fn with_conventions(self, shift_uses_x: bool, memops_leave_i: bool) -> (cpu: CPU)
        ensures
            cpu@ == (Machine { shift_uses_x, memops_leave_i, ..self@ }),
    {
        let mut cpu = self;
        cpu.shift_uses_x = shift_uses_x;
        cpu.memops_leave_i = memops_leave_i;
        cpu
    }

    /// The flag register VF.
    pub fn vf(&self) -> (flag: u8)
        ensures
            flag == self@.vf(),
    {
        self.registers[15]
    }

    /// Decodes two bytes into four separate nibbles, most significant first.
    pub fn decode(&self, upper_byte: u8, lower_byte: u8) -> (nibbles: (u8, u8, u8, u8))
        ensures
            nibbles == nibbles_of(upper_byte, lower_byte),
            nibbles.0 < 16 && nibbles.1 < 16 && nibbles.2 < 16 && nibbles.3 < 16,
            nibbles.0 * 16 + nibbles.1 == upper_byte,
            nibbles.2 * 16 + nibbles.3 == lower_byte,
    {
        let upper_high = (upper_byte & 0xF0) >> 4;
        let upper_low = upper_byte & 0x0F;
        let lower_high = (lower_byte & 0xF0) >> 4;
        let lower_low = lower_byte & 0x0F;
        assert((upper_byte & 0xF0) >> 4 == upper_byte / 16) by (bit_vector);
        assert(upper_byte & 0x0F == upper_byte % 16) by (bit_vector);
        assert((lower_byte & 0xF0) >> 4 == lower_byte / 16) by (bit_vector);
        assert(lower_byte & 0x0F == lower_byte % 16) by (bit_vector);
        (upper_high, upper_low, lower_high, lower_low)
    }

    /// Joins three nibbles into the 12-bit address they spell.
    pub fn to_nnn(&self, a: u8, b: u8, c: u8) -> (nnn: u16)
        requires
            a < 16,
            b < 16,
            c < 16,
        ensures
            nnn == nnn_of(a, b, c),
            nnn < 0x1000,
    {
        let high: u16 = ((a << 4) | b) as u16;
        let nnn: u16 = (high << 4) | (c as u16);
        assert(((((a << 4) | b) as u16) << 4) | (c as u16) == a * 256 + b * 16 + c) by (bit_vector)
            requires
                a < 16,
                b < 16,
                c < 16,
        ;
        nnn
    }
}

} // verus!
