//! One handler per instruction form, each with its effect on the model.

use vstd::prelude::*;
use crate::cpu::CPU;
use crate::error::Chip8Error;
use crate::keypad::{key_from_char, key_of_char};
use crate::machine::{wrap16, wrap8, Machine};
use crate::random::random_byte;

verus! {

impl Machine {
    /// `1nnn`: execution continues at `nnn`.
    pub open spec fn jp(self, nnn: u16) -> Machine {
        Machine { pc: nnn, ..self }
    }

    /// `00EE` with a stack that is not empty: execution continues at the
    /// address in the top slot, and the slot is given up.
    pub open spec fn ret(self) -> Machine {
        Machine { pc: self.stack[self.sp as int], sp: (self.sp - 1) as u8, ..self }
    }

    /// `2nnn` with room on the stack: the program counter goes into the next
    /// slot and execution continues at `nnn`.
    pub open spec fn call(self, nnn: u16) -> Machine {
        Machine {
            sp: (self.sp + 1) as u8,
            stack: self.stack.update(self.sp + 1, self.pc),
            pc: nnn,
            ..self
        }
    }

    /// `7xnn`: Vx grows by `nn` modulo 256; VF is not a carry here.
    pub open spec fn add_imm(self, x: u8, nn: u8) -> Machine {
        self.set_v(x, wrap8(self.v(x) + nn))
    }

    /// `8xy4`: Vx becomes the sum modulo 256 and VF the carry.
    pub open spec fn add_reg(self, x: u8, y: u8) -> Machine {
        let sum = self.v(x) + self.v(y);
        self.set_v_flag(
            x,
            wrap8(sum),
            if sum > 255 {
                1
            } else {
                0
            },
        )
    }

    /// `8xy5`: Vx becomes Vx - Vy modulo 256 and VF tells that nothing was borrowed.
    pub open spec fn sub_reg(self, x: u8, y: u8) -> Machine {
        self.set_v_flag(
            x,
            wrap8(self.v(x) - self.v(y)),
            if self.v(x) >= self.v(y) {
                1
            } else {
                0
            },
        )
    }

    /// `8xy7`: Vx becomes Vy - Vx modulo 256 and VF tells that nothing was borrowed.
    pub open spec fn subn_reg(self, x: u8, y: u8) -> Machine {
        self.set_v_flag(
            x,
            wrap8(self.v(y) - self.v(x)),
            if self.v(y) >= self.v(x) {
                1
            } else {
                0
            },
        )
    }

    /// `8xy6` reading register `src`: Vx becomes half of it and VF the bit
    /// that fell off.
    pub open spec fn shr(self, x: u8, src: u8) -> Machine {
        self.set_v_flag(x, (self.v(src) / 2) as u8, (self.v(src) % 2) as u8)
    }

    /// `8xyE` reading register `src`: Vx becomes twice it modulo 256 and VF
    /// the bit that fell off.
    pub open spec fn shl(self, x: u8, src: u8) -> Machine {
        self.set_v_flag(x, wrap8(self.v(src) * 2), (self.v(src) / 128) as u8)
    }

    /// `Annn`: I becomes `nnn`.
    pub open spec fn set_i(self, nnn: u16) -> Machine {
        Machine { i_reg: nnn, ..self }
    }

    /// `Bnnn`: execution continues at `nnn + V0`, modulo 65536.
    pub open spec fn jp_v0(self, nnn: u16) -> Machine {
        Machine { pc: wrap16(nnn + self.v(0)), ..self }
    }

    /// `Cxnn` when the generator yields `random`: Vx becomes `random & nn`.
    pub open spec fn rnd(self, x: u8, nn: u8, random: u8) -> Machine {
        self.set_v(x, random & nn)
    }

    /// `Fx1E`: I grows by Vx modulo 65536; VF is not touched.
    pub open spec fn add_i(self, x: u8) -> Machine {
        Machine { i_reg: wrap16(self.i_reg + self.v(x)), ..self }
    }

    /// `Fx29`: I becomes the address of the glyph for the low nibble of Vx.
    pub open spec fn font(self, x: u8) -> Machine {
        Machine { i_reg: (0x050 + 5 * (self.v(x) % 16)) as u16, ..self }
    }

    /// The first address beyond memory that an access starting at I reaches.
    pub open spec fn first_beyond(self) -> usize {
        if self.i_reg >= 4096 {
            self.i_reg as usize
        } else {
            4096
        }
    }

    /// `Fx33` with I, I+1 and I+2 inside memory: they receive the hundreds,
    /// tens and units of Vx.
    pub open spec fn bcd(self, x: u8) -> Machine {
        let n = self.v(x);
        Machine {
            mem: self.mem.update(self.i_reg as int, (n / 100) as u8).update(
                self.i_reg + 1,
                ((n / 10) % 10) as u8,
            ).update(self.i_reg + 2, (n % 10) as u8),
            ..self
        }
    }

    /// `Fx55` with I to I+x inside memory: they receive V0 to Vx.
    pub open spec fn dump(self, x: u8) -> Machine {
        Machine {
            mem: Seq::new(
                4096,
                |a: int|
                    if self.i_reg <= a <= self.i_reg + x {
                        self.registers[a - self.i_reg]
                    } else {
                        self.mem[a]
                    },
            ),
            ..self
        }
    }

    /// `Fx65` with I to I+x inside memory: V0 to Vx receive them.
    pub open spec fn load(self, x: u8) -> Machine {
        Machine {
            registers: Seq::new(
                16,
                |r: int|
                    if r <= x {
                        self.mem[self.i_reg + r]
                    } else {
                        self.registers[r]
                    },
            ),
            ..self
        }
    }

    /// I moved past the x+1 bytes of a register dump or load, as the legacy
    /// convention has it.
    pub open spec fn past_registers(self, x: u8) -> Machine {
        Machine { i_reg: (self.i_reg + x + 1) as u16, ..self }
    }
}

impl CPU {
    /// `00E0`: clear the display.
    pub fn cls00e0(&mut self)
        ensures
            final(self)@ == old(self)@.cls(),
            old(self).wf() ==> final(self).wf(),
    {
        self.clear();
    }

    /// `1nnn`: jump to location nnn.
    pub fn jp1nnn(&mut self, nnn: u16)
        ensures
            final(self)@ == old(self)@.jp(nnn),
            old(self).wf() ==> final(self).wf(),
    {
        self.pc = nnn;
    }

    /// `6xnn`: set Vx = nn.
    pub fn set6xnn(&mut self, x: u8, nn: u8)
        requires
            x < 16,
        ensures
            final(self)@ == old(self)@.set_v(x, nn),
            old(self).wf() ==> final(self).wf(),
    {
        self.registers[x as usize] = nn;
    }

    /// `7xnn`: set Vx = Vx + nn, modulo 256, leaving VF alone.
    pub fn add7xnn(&mut self, x: u8, nn: u8)
        requires
            x < 16,
        ensures
            final(self)@ == old(self)@.add_imm(x, nn),
            old(self).wf() ==> final(self).wf(),
    {
        let sum: u16 = self.registers[x as usize] as u16 + nn as u16;
        self.registers[x as usize] = (sum % 256) as u8;
    }

    /// `Annn`: set I = nnn.
    pub fn setannn(&mut self, nnn: u16)
        ensures
            final(self)@ == old(self)@.set_i(nnn),
            old(self).wf() ==> final(self).wf(),
    {
        self.i_reg = nnn;
    }

    /// `Dxyn`: display the n-byte sprite starting at memory location I at
    /// (Vx, Vy), set VF = collision.
    pub fn drwdxyn(&mut self, x: u8, y: u8, n: u8) -> (r: Result<(), Chip8Error>)
        requires
            x < 16,
            y < 16,
        ensures
            old(self)@.sprite_in_memory(n as int) ==> r is Ok && final(self)@ == old(self)@.draw(
                x,
                y,
                n as int,
            ),
            !old(self)@.sprite_in_memory(n as int) ==> final(self)@ == old(self)@ && r == Err::<
                (),
                Chip8Error,
            >(Chip8Error::MemoryOutOfRange { addr: old(self)@.first_beyond() }),
            old(self).wf() ==> final(self).wf(),
    {
        self.draw(x, y, n as usize)
    }

    /// `00EE`: return from a subroutine. With an empty stack the machine is
    /// left alone and the underflow reported.
    pub fn ret00ee(&mut self) -> (r: Result<(), Chip8Error>)
        requires
            old(self).wf(),
        ensures
            old(self).sp > 0 ==> r is Ok && final(self)@ == old(self)@.ret(),
            old(self).sp == 0 ==> final(self)@ == old(self)@ && r == Err::<(), Chip8Error>(
                Chip8Error::StackUnderflow,
            ),
            final(self).wf(),
    {
        if self.sp == 0 {
            return Err(Chip8Error::StackUnderflow);
        }
        self.pc = self.stack[self.sp as usize];
        self.sp -= 1;
        Ok(())
    }

    /// `2nnn`: call the subroutine at nnn. With the stack pointer at the last
    /// slot the machine is left alone and the overflow reported.
    pub fn call2nnn(&mut self, nnn: u16) -> (r: Result<(), Chip8Error>)
        ensures
            old(self).sp < 15 ==> r is Ok && final(self)@ == old(self)@.call(nnn),
            old(self).sp >= 15 ==> final(self)@ == old(self)@ && r == Err::<(), Chip8Error>(
                Chip8Error::StackOverflow,
            ),
            old(self).wf() ==> final(self).wf(),
    {
        if self.sp >= 15 {
            return Err(Chip8Error::StackOverflow);
        }
        self.sp += 1;
        self.stack[self.sp as usize] = self.pc;
        self.pc = nnn;
        Ok(())
    }

    /// `3xnn`: skip the next instruction if Vx = nn.
    pub fn se3xnn(&mut self, x: u8, nn: u8)
        requires
            x < 16,
        ensures
            final(self)@ == old(self)@.skip_if(old(self)@.v(x) == nn),
            old(self).wf() ==> final(self).wf(),
    {
        if self.registers[x as usize] == nn {
            self.pc = self.pc.wrapping_add(2);
        }
    }

    /// `4xnn`: skip the next instruction if Vx != nn.
    pub fn sne4xnn(&mut self, x: u8, nn: u8)
        requires
            x < 16,
        ensures
            final(self)@ == old(self)@.skip_if(old(self)@.v(x) != nn),
            old(self).wf() ==> final(self).wf(),
    {
        if self.registers[x as usize] != nn {
            self.pc = self.pc.wrapping_add(2);
        }
    }

    /// `5xy0`: skip the next instruction if Vx = Vy.
    pub fn se5xy0(&mut self, x: u8, y: u8)
        requires
            x < 16,
            y < 16,
        ensures
            final(self)@ == old(self)@.skip_if(old(self)@.v(x) == old(self)@.v(y)),
            old(self).wf() ==> final(self).wf(),
    {
        if self.registers[x as usize] == self.registers[y as usize] {
            self.pc = self.pc.wrapping_add(2);
        }
    }

    /// `9xy0`: skip the next instruction if Vx != Vy.
    pub fn sne9xy0(&mut self, x: u8, y: u8)
        requires
            x < 16,
            y < 16,
        ensures
            final(self)@ == old(self)@.skip_if(old(self)@.v(x) != old(self)@.v(y)),
            old(self).wf() ==> final(self).wf(),
    {
        if self.registers[x as usize] != self.registers[y as usize] {
            self.pc = self.pc.wrapping_add(2);
        }
    }

    /// `8xy0`: store the value of register Vy in register Vx.
    pub fn ld8xy0(&mut self, x: u8, y: u8)
        requires
            x < 16,
            y < 16,
        ensures
            final(self)@ == old(self)@.set_v(x, old(self)@.v(y)),
            old(self).wf() ==> final(self).wf(),
    {
        self.registers[x as usize] = self.registers[y as usize];
    }

    /// `8xy1`: set Vx = Vx OR Vy.
    pub fn or8xy1(&mut self, x: u8, y: u8)
        requires
            x < 16,
            y < 16,
        ensures
            final(self)@ == old(self)@.set_v(x, old(self)@.v(x) | old(self)@.v(y)),
            old(self).wf() ==> final(self).wf(),
    {
        self.registers[x as usize] = self.registers[x as usize] | self.registers[y as usize];
    }

    /// `8xy2`: set Vx = Vx AND Vy.
    pub fn and8xy2(&mut self, x: u8, y: u8)
        requires
            x < 16,
            y < 16,
        ensures
            final(self)@ == old(self)@.set_v(x, old(self)@.v(x) & old(self)@.v(y)),
            old(self).wf() ==> final(self).wf(),
    {
        self.registers[x as usize] = self.registers[x as usize] & self.registers[y as usize];
    }

    /// `8xy3`: set Vx = Vx XOR Vy.
    pub fn xor8xy3(&mut self, x: u8, y: u8)
        requires
            x < 16,
            y < 16,
        ensures
            final(self)@ == old(self)@.set_v(x, old(self)@.v(x) ^ old(self)@.v(y)),
            old(self).wf() ==> final(self).wf(),
    {
        self.registers[x as usize] = self.registers[x as usize] ^ self.registers[y as usize];
    }

    /// `8xy4`: set Vx = Vx + Vy, set VF = carry. The flag is written after
    /// the sum.
    pub fn add8xy4(&mut self, x: u8, y: u8)
        requires
            x < 16,
            y < 16,
        ensures
            final(self)@ == old(self)@.add_reg(x, y),
            old(self).wf() ==> final(self).wf(),
    {
        let sum: u16 = self.registers[x as usize] as u16 + self.registers[y as usize] as u16;
        let carry: u8 = if sum > 255 {
            1
        } else {
            0
        };
        self.registers[x as usize] = (sum % 256) as u8;
        self.registers[15] = carry;
    }

    /// `8xy5`: set Vx = Vx - Vy, set VF = NOT borrow. The flag is written
    /// after the difference.
    pub fn sub8xy5(&mut self, x: u8, y: u8)
        requires
            x < 16,
            y < 16,
        ensures
            final(self)@ == old(self)@.sub_reg(x, y),
            old(self).wf() ==> final(self).wf(),
    {
        let vx: u8 = self.registers[x as usize];
        let vy: u8 = self.registers[y as usize];
        let wide: u16 = 256 + vx as u16 - vy as u16;
        let no_borrow: u8 = if vx >= vy {
            1
        } else {
            0
        };
        self.registers[x as usize] = (wide % 256) as u8;
        self.registers[15] = no_borrow;
    }

    /// `8xy7`: set Vx = Vy - Vx, set VF = NOT borrow. The flag is written
    /// after the difference.
    pub fn sub8xy7(&mut self, x: u8, y: u8)
        requires
            x < 16,
            y < 16,
        ensures
            final(self)@ == old(self)@.subn_reg(x, y),
            old(self).wf() ==> final(self).wf(),
    {
        let vx: u8 = self.registers[x as usize];
        let vy: u8 = self.registers[y as usize];
        let wide: u16 = 256 + vy as u16 - vx as u16;
        let no_borrow: u8 = if vy >= vx {
            1
        } else {
            0
        };
        self.registers[x as usize] = (wide % 256) as u8;
        self.registers[15] = no_borrow;
    }

    /// `8xy6`, legacy: set Vx = Vy SHR 1, set VF = shifted bit.
    pub fn shr8xy6_usey(&mut self, x: u8, y: u8)
        requires
            x < 16,
            y < 16,
        ensures
            final(self)@ == old(self)@.shr(x, y),
            old(self).wf() ==> final(self).wf(),
    {
        let vy: u8 = self.registers[y as usize];
        let last_bit: u8 = vy & 1;
        let y_shifted: u8 = vy >> 1;
        assert(vy & 1 == vy % 2 && vy >> 1 == vy / 2) by (bit_vector);
        self.registers[x as usize] = y_shifted;
        self.registers[15] = last_bit;
    }

    /// `8xy6`, modern: set Vx = Vx SHR 1, set VF = shifted bit.
    pub fn shr8xy6_usex(&mut self, x: u8, _y: u8)
        requires
            x < 16,
        ensures
            final(self)@ == old(self)@.shr(x, x),
            old(self).wf() ==> final(self).wf(),
    {
        let vx: u8 = self.registers[x as usize];
        let last_bit: u8 = vx & 1;
        let x_shifted: u8 = vx >> 1;
        assert(vx & 1 == vx % 2 && vx >> 1 == vx / 2) by (bit_vector);
        self.registers[x as usize] = x_shifted;
        self.registers[15] = last_bit;
    }

    /// `8xyE`, legacy: set Vx = Vy SHL 1, set VF = shifted bit.
    pub fn shl8xye_usey(&mut self, x: u8, y: u8)
        requires
            x < 16,
            y < 16,
        ensures
            final(self)@ == old(self)@.shl(x, y),
            old(self).wf() ==> final(self).wf(),
    {
        let vy: u8 = self.registers[y as usize];
        let last_bit: u8 = if vy > 127 {
            1
        } else {
            0
        };
        let y_shifted: u8 = ((vy as u16 * 2) % 256) as u8;
        self.registers[x as usize] = y_shifted;
        self.registers[15] = last_bit;
    }

    /// `8xyE`, modern: set Vx = Vx SHL 1, set VF = shifted bit.
    pub fn shl8xye_usex(&mut self, x: u8, _y: u8)
        requires
            x < 16,
        ensures
            final(self)@ == old(self)@.shl(x, x),
            old(self).wf() ==> final(self).wf(),
    {
        let vx: u8 = self.registers[x as usize];
        let last_bit: u8 = if vx > 127 {
            1
        } else {
            0
        };
        let x_shifted: u8 = ((vx as u16 * 2) % 256) as u8;
        self.registers[x as usize] = x_shifted;
        self.registers[15] = last_bit;
    }

    /// `Bnnn`: jump to location nnn + V0.
    pub fn jpbnnn(&mut self, nnn: u16)
        ensures
            final(self)@ == old(self)@.jp_v0(nnn),
            old(self).wf() ==> final(self).wf(),
    {
        self.pc = nnn.wrapping_add(self.registers[0] as u16);
    }

    /// `Cxnn` with the random byte given: set Vx = random AND nn.
    pub fn rndcxnn_with(&mut self, x: u8, nn: u8, random: u8)
        requires
            x < 16,
        ensures
            final(self)@ == old(self)@.rnd(x, nn, random),
            old(self).wf() ==> final(self).wf(),
    {
        self.registers[x as usize] = random & nn;
    }

    /// `Cxnn`: set Vx = random byte AND nn. The byte comes from the calling
    /// thread's generator, so all that is known is that some byte was used.
    pub fn rndcxnn(&mut self, x: u8, nn: u8)
        requires
            x < 16,
        ensures
            exists|random: u8| final(self)@ == old(self)@.rnd(x, nn, random),
            old(self).wf() ==> final(self).wf(),
    {
        let mut rng = rand::thread_rng();
        let random: u8 = random_byte(&mut rng);
        self.rndcxnn_with(x, nn, random);
    }

    /// `Ex9E`: skip the next instruction if the key with the value of Vx is pressed.
    pub fn skpex9e(&mut self, x: u8)
        requires
            x < 16,
        ensures
            final(self)@ == old(self)@.skip_if(old(self)@.key_down(old(self)@.v(x))),
            old(self).wf() ==> final(self).wf(),
    {
        if self.is_key_pressed(self.registers[x as usize]) {
            self.pc = self.pc.wrapping_add(2);
        }
    }

    /// `ExA1`: skip the next instruction if the key with the value of Vx is not pressed.
    pub fn skpexa1(&mut self, x: u8)
        requires
            x < 16,
        ensures
            final(self)@ == old(self)@.skip_if(!old(self)@.key_down(old(self)@.v(x))),
            old(self).wf() ==> final(self).wf(),
    {
        if !self.is_key_pressed(self.registers[x as usize]) {
            self.pc = self.pc.wrapping_add(2);
        }
    }

    /// `Fx0A`, once the host has waited for a key press and read the
    /// character `byte`: store the value of the key in Vx.
    pub fn ldfx0a(&mut self, x: u8, byte: u8)
        requires
            x < 16,
        ensures
            final(self)@ == old(self)@.set_v(x, key_of_char(byte)),
            old(self).wf() ==> final(self).wf(),
    {
        let key: u8 = key_from_char(byte);
        self.registers[x as usize] = key;
    }

    /// `Fx07`: set Vx = delay timer value at clock reading `now`.
    pub fn ldfx07(&mut self, x: u8, now: u128)
        requires
            x < 16,
        ensures
            final(self)@ == old(self)@.set_v(x, old(self)@.delay_at(now)),
            old(self).wf() ==> final(self).wf(),
    {
        let value: u8 = self.get_delay(now);
        self.registers[x as usize] = value;
    }

    /// `Fx15`: set delay timer = Vx at clock reading `now`.
    pub fn ldfx15(&mut self, x: u8, now: u128)
        requires
            x < 16,
        ensures
            final(self)@ == old(self)@.with_delay(old(self)@.v(x), now),
            old(self).wf() ==> final(self).wf(),
    {
        let value: u8 = self.registers[x as usize];
        self.set_delay(value, now);
    }

    /// `Fx18`: set sound timer = Vx at clock reading `now`.
    pub fn ldfx18(&mut self, x: u8, now: u128)
        requires
            x < 16,
        ensures
            final(self)@ == old(self)@.with_sound(old(self)@.v(x), now),
            old(self).wf() ==> final(self).wf(),
    {
        let value: u8 = self.registers[x as usize];
        self.set_sound(value, now);
    }

    /// `Fx1E`: set I = I + Vx, modulo 65536, leaving VF alone.
    pub fn addfx1e(&mut self, x: u8)
        requires
            x < 16,
        ensures
            final(self)@ == old(self)@.add_i(x),
            old(self).wf() ==> final(self).wf(),
    {
        self.i_reg = self.i_reg.wrapping_add(self.registers[x as usize] as u16);
    }

    /// `Fx29`: set I = location of the sprite for the digit in the low nibble of Vx.
    pub fn ldfx29(&mut self, x: u8)
        requires
            x < 16,
        ensures
            final(self)@ == old(self)@.font(x),
            old(self).wf() ==> final(self).wf(),
    {
        let digit: u16 = (self.registers[x as usize] % 16) as u16;
        self.i_reg = 0x50 + match digit {
            0x0 => 0,
            0x1 => 5,
            0x2 => 10,
            0x3 => 15,
            0x4 => 20,
            0x5 => 25,
            0x6 => 30,
            0x7 => 35,
            0x8 => 40,
            0x9 => 45,
            0xA => 50,
            0xB => 55,
            0xC => 60,
            0xD => 65,
            0xE => 70,
            _ => 75,
        };
    }

    /// `Fx33`: store the BCD representation of Vx in memory locations I,
    /// I+1 and I+2. If one of them lies outside memory, nothing is written
    /// and the first address beyond memory is reported.
    pub fn ldfx33(&mut self, x: u8) -> (r: Result<(), Chip8Error>)
        requires
            x < 16,
        ensures
            old(self).i_reg + 2 < 4096 ==> r is Ok && final(self)@ == old(self)@.bcd(x),
            old(self).i_reg + 2 >= 4096 ==> final(self)@ == old(self)@ && r == Err::<
                (),
                Chip8Error,
            >(Chip8Error::MemoryOutOfRange { addr: old(self)@.first_beyond() }),
            old(self).wf() ==> final(self).wf(),
    {
        let base: usize = self.i_reg as usize;
        if base + 2 >= 4096 {
            return Err(self.out_of_range());
        }
        let num: u8 = self.registers[x as usize];
        self.mem[base] = num / 100;
        self.mem[base + 1] = (num / 10) % 10;
        self.mem[base + 2] = num % 10;
        Ok(())
    }

    /// The error for an access that starts at I and leaves memory.
    fn out_of_range(&self) -> (e: Chip8Error)
        ensures
            e == (Chip8Error::MemoryOutOfRange { addr: self@.first_beyond() }),
    {
        let base: usize = self.i_reg as usize;
        Chip8Error::MemoryOutOfRange {
            addr: if base >= 4096 {
                base
            } else {
                4096
            },
        }
    }

    /// Copies V0 to Vx into memory from I on; I itself and everything else stay.
    fn store_registers(&mut self, x: u8)
        requires
            x < 16,
            old(self).i_reg + x < 4096,
        ensures
            final(self)@ == old(self)@.dump(x),
    {
        let base: usize = self.i_reg as usize;
        let mut i: usize = 0;
        while i <= x as usize
            invariant
                x < 16,
                i <= x + 1,
                base == old(self).i_reg,
                base + x < 4096,
                self@ == (Machine { mem: self@.mem, ..old(self)@ }),
                forall|a: int|
                    0 <= a < 4096 ==> #[trigger] self.mem@[a] == if base <= a < base + i {
                        old(self).registers@[a - base]
                    } else {
                        old(self).mem@[a]
                    },
            decreases x + 1 - i,
        {
            self.mem[base + i] = self.registers[i];
            i += 1;
        }
        proof {
            assert(self@.mem =~= old(self)@.dump(x).mem);
        }
    }

    /// Copies memory from I on into V0 to Vx; I itself and everything else stay.
    fn fetch_registers(&mut self, x: u8)
        requires
            x < 16,
            old(self).i_reg + x < 4096,
        ensures
            final(self)@ == old(self)@.load(x),
    {
        let base: usize = self.i_reg as usize;
        let mut i: usize = 0;
        while i <= x as usize
            invariant
                x < 16,
                i <= x + 1,
                base == old(self).i_reg,
                base + x < 4096,
                self@ == (Machine { registers: self@.registers, ..old(self)@ }),
                forall|r: int|
                    0 <= r < 16 ==> #[trigger] self.registers@[r] == if r < i {
                        old(self).mem@[base + r]
                    } else {
                        old(self).registers@[r]
                    },
            decreases x + 1 - i,
        {
            self.registers[i] = self.mem[base + i];
            i += 1;
        }
        proof {
            assert(self@.registers =~= old(self)@.load(x).registers);
        }
    }

    /// `Fx55`, modern: store registers V0 through Vx in memory starting at
    /// location I; I stays. If the range leaves memory, nothing is written
    /// and the first address beyond memory is reported.
    pub fn ldfx55(&mut self, x: u8) -> (r: Result<(), Chip8Error>)
        requires
            x < 16,
        ensures
            old(self).i_reg + x < 4096 ==> r is Ok && final(self)@ == old(self)@.dump(x),
            old(self).i_reg + x >= 4096 ==> final(self)@ == old(self)@ && r == Err::<
                (),
                Chip8Error,
            >(Chip8Error::MemoryOutOfRange { addr: old(self)@.first_beyond() }),
            old(self).wf() ==> final(self).wf(),
    {
        if self.i_reg as usize + x as usize >= 4096 {
            return Err(self.out_of_range());
        }
        self.store_registers(x);
        Ok(())
    }

    /// `Fx55`, legacy: store registers V0 through Vx in memory starting at
    /// location I, then move I past them. If the range leaves memory,
    /// nothing is written and the first address beyond memory is reported.
    pub fn ldfx55_old(&mut self, x: u8) -> (r: Result<(), Chip8Error>)
        requires
            x < 16,
        ensures
            old(self).i_reg + x < 4096 ==> r is Ok && final(self)@ == old(self)@.dump(
                x,
            ).past_registers(x),
            old(self).i_reg + x >= 4096 ==> final(self)@ == old(self)@ && r == Err::<
                (),
                Chip8Error,
            >(Chip8Error::MemoryOutOfRange { addr: old(self)@.first_beyond() }),
            old(self).wf() ==> final(self).wf(),
    {
        if self.i_reg as usize + x as usize >= 4096 {
            return Err(self.out_of_range());
        }
        self.store_registers(x);
        self.i_reg = self.i_reg + x as u16 + 1;
        Ok(())
    }

    /// `Fx65`, modern: read registers V0 through Vx from memory starting at
    /// location I; I stays. If the range leaves memory, nothing is read and
    /// the first address beyond memory is reported.
    pub fn ldfx65(&mut self, x: u8) -> (r: Result<(), Chip8Error>)
        requires
            x < 16,
        ensures
            old(self).i_reg + x < 4096 ==> r is Ok && final(self)@ == old(self)@.load(x),
            old(self).i_reg + x >= 4096 ==> final(self)@ == old(self)@ && r == Err::<
                (),
                Chip8Error,
            >(Chip8Error::MemoryOutOfRange { addr: old(self)@.first_beyond() }),
            old(self).wf() ==> final(self).wf(),
    {
        if self.i_reg as usize + x as usize >= 4096 {
            return Err(self.out_of_range());
        }
        self.fetch_registers(x);
        Ok(())
    }

    /// `Fx65`, legacy: read registers V0 through Vx from memory starting at
    /// location I, then move I past them. If the range leaves memory,
    /// nothing is read and the first address beyond memory is reported.
    pub fn ldfx65_old(&mut self, x: u8) -> (r: Result<(), Chip8Error>)
        requires
            x < 16,
        ensures
            old(self).i_reg + x < 4096 ==> r is Ok && final(self)@ == old(self)@.load(
                x,
            ).past_registers(x),
            old(self).i_reg + x >= 4096 ==> final(self)@ == old(self)@ && r == Err::<
                (),
                Chip8Error,
            >(Chip8Error::MemoryOutOfRange { addr: old(self)@.first_beyond() }),
            old(self).wf() ==> final(self).wf(),
    {
        if self.i_reg as usize + x as usize >= 4096 {
            return Err(self.out_of_range());
        }
        self.fetch_registers(x);
        self.i_reg = self.i_reg + x as u16 + 1;
        Ok(())
    }
}

} // verus!
