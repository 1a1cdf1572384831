//! Fetch, decode and dispatch: what one step of the machine does.
//!
//! The machine never waits, sleeps, draws or sounds by itself. A step takes
//! the host's clock reading, and its outcome tells the host what to do
//! before the next step.

use vstd::prelude::*;
use crate::cpu::CPU;
use crate::error::{Chip8Error, Fault};
use crate::machine::{nibbles_of, nn_of, nnn_of, Machine};

verus! {

/// What the host has to do before the machine can go on.
#[derive(Clone, Copy, Debug, PartialEq, Eq, Structural)]
pub enum Action {
    /// Nothing: take the next step.
    Continue,
    /// Wait for a key press, then hand the character that was typed to
    /// [`CPU::ldfx0a`] for register `x`.
    AwaitKey { x: u8 },
}

/// What one successful step reports to the host.
#[derive(Clone, Copy, Debug, PartialEq, Eq, Structural)]
pub struct StepOutcome {
    /// What the host has to do before the next step.
    pub action: Action,
    /// The framebuffer differs from what it was before the step: present it.
    pub redraw: bool,
    /// The sound timer is not zero at the clock reading of the step: the
    /// speaker is to sound.
    pub beep: bool,
}

/// The instruction word spelled by four nibbles.
pub open spec fn opcode_of(n1: u8, n2: u8, n3: u8, n4: u8) -> int {
    n1 * 4096 + n2 * 256 + n3 * 16 + n4
}

impl Machine {
    /// An instruction that ran to its end.
    pub open spec fn done(self) -> (Machine, Result<Action, Chip8Error>) {
        (self, Ok(Action::Continue))
    }

    /// An instruction that was refused: the machine is as it was.
    pub open spec fn refused(self, error: Chip8Error) -> (Machine, Result<Action, Chip8Error>) {
        (self, Err(error))
    }

    /// The error for an access that starts at I and leaves memory.
    pub open spec fn beyond_memory(self) -> Chip8Error {
        Chip8Error::MemoryOutOfRange { addr: self.first_beyond() }
    }

    /// The instruction spelled by the nibbles `n1` to `n4`, carried out at
    /// clock reading `now`: the machine after it, and what it asks of the
    /// host or why it was refused. `random` is the byte that the generator
    /// yields if the instruction asks for one.
    ///
    /// The longest fixed pattern wins: `00E0` and `00EE` are instructions,
    /// every other word that starts with 0 is unknown. The two conventions
    /// choose between handlers, never between patterns.
    pub open spec fn execute(self, n1: u8, n2: u8, n3: u8, n4: u8, now: u128, random: u8) -> (
        Machine,
        Result<Action, Chip8Error>,
    ) {
        let x = n2;
        let y = n3;
        let nn = nn_of(n3, n4) as u8;
        let nnn = nnn_of(n2, n3, n4) as u16;
        match (n1, n2, n3, n4) {
            (0x0, 0x0, 0xE, 0x0) => self.cls().done(),
            (0x0, 0x0, 0xE, 0xE) => if self.sp > 0 {
                self.ret().done()
            } else {
                self.refused(Chip8Error::StackUnderflow)
            },
            (0x1, _, _, _) => self.jp(nnn).done(),
            (0x2, _, _, _) => if self.sp < 15 {
                self.call(nnn).done()
            } else {
                self.refused(Chip8Error::StackOverflow)
            },
            (0x3, _, _, _) => self.skip_if(self.v(x) == nn).done(),
            (0x4, _, _, _) => self.skip_if(self.v(x) != nn).done(),
            (0x5, _, _, 0x0) => self.skip_if(self.v(x) == self.v(y)).done(),
            (0x6, _, _, _) => self.set_v(x, nn).done(),
            (0x7, _, _, _) => self.add_imm(x, nn).done(),
            (0x8, _, _, 0x0) => self.set_v(x, self.v(y)).done(),
            (0x8, _, _, 0x1) => self.set_v(x, self.v(x) | self.v(y)).done(),
            (0x8, _, _, 0x2) => self.set_v(x, self.v(x) & self.v(y)).done(),
            (0x8, _, _, 0x3) => self.set_v(x, self.v(x) ^ self.v(y)).done(),
            (0x8, _, _, 0x4) => self.add_reg(x, y).done(),
            (0x8, _, _, 0x5) => self.sub_reg(x, y).done(),
            (0x8, _, _, 0x6) => self.shr(
                x,
                if self.shift_uses_x {
                    x
                } else {
                    y
                },
            ).done(),
            (0x8, _, _, 0x7) => self.subn_reg(x, y).done(),
            (0x8, _, _, 0xE) => self.shl(
                x,
                if self.shift_uses_x {
                    x
                } else {
                    y
                },
            ).done(),
            (0x9, _, _, 0x0) => self.skip_if(self.v(x) != self.v(y)).done(),
            (0xA, _, _, _) => self.set_i(nnn).done(),
            (0xB, _, _, _) => self.jp_v0(nnn).done(),
            (0xC, _, _, _) => self.rnd(x, nn, random).done(),
            (0xD, _, _, _) => if self.sprite_in_memory(n4 as int) {
                self.draw(x, y, n4 as int).done()
            } else {
                self.refused(self.beyond_memory())
            },
            (0xE, _, 0x9, 0xE) => self.skip_if(self.key_down(self.v(x))).done(),
            (0xE, _, 0xA, 0x1) => self.skip_if(!self.key_down(self.v(x))).done(),
            (0xF, _, 0x0, 0x7) => self.set_v(x, self.delay_at(now)).done(),
            (0xF, _, 0x0, 0xA) => (self, Ok(Action::AwaitKey { x })),
            (0xF, _, 0x1, 0x5) => self.with_delay(self.v(x), now).done(),
            (0xF, _, 0x1, 0x8) => self.with_sound(self.v(x), now).done(),
            (0xF, _, 0x1, 0xE) => self.add_i(x).done(),
            (0xF, _, 0x2, 0x9) => self.font(x).done(),
            (0xF, _, 0x3, 0x3) => if self.i_reg + 2 < 4096 {
                self.bcd(x).done()
            } else {
                self.refused(self.beyond_memory())
            },
            (0xF, _, 0x5, 0x5) => if self.i_reg + x >= 4096 {
                self.refused(self.beyond_memory())
            } else if self.memops_leave_i {
                self.dump(x).done()
            } else {
                self.dump(x).past_registers(x).done()
            },
            (0xF, _, 0x6, 0x5) => if self.i_reg + x >= 4096 {
                self.refused(self.beyond_memory())
            } else if self.memops_leave_i {
                self.load(x).done()
            } else {
                self.load(x).past_registers(x).done()
            },
            _ => self.refused(
                Chip8Error::UnknownOpcode { opcode: opcode_of(n1, n2, n3, n4) as u16 },
            ),
        }
    }

    /// Whether the two bytes of the instruction at the program counter lie
    /// inside memory.
    pub open spec fn can_fetch(self) -> bool {
        self.pc + 1 < 4096
    }

    /// The fault of a fetch that leaves memory: it names the first address
    /// beyond memory that the fetch reaches.
    pub open spec fn fetch_fault(self) -> Fault {
        Fault {
            pc: self.pc,
            opcode: None,
            error: Chip8Error::MemoryOutOfRange {
                addr: if self.pc >= 4096 {
                    self.pc as usize
                } else {
                    4096
                },
            },
        }
    }

    /// The instruction word at the program counter.
    pub open spec fn opcode(self) -> u16 {
        (self.mem[self.pc as int] * 256 + self.mem[self.pc + 1]) as u16
    }

    /// One step at clock reading `now`: the instruction at the program
    /// counter is fetched and decoded, the program counter moves past it,
    /// and the instruction is carried out. A step that fails leaves the
    /// machine as it was, the program counter on the failing instruction.
    pub open spec fn step(self, now: u128, random: u8) -> (Machine, Result<StepOutcome, Fault>) {
        if !self.can_fetch() {
            (self, Err(self.fetch_fault()))
        } else {
            let n = nibbles_of(self.mem[self.pc as int], self.mem[self.pc + 1]);
            let (next, r) = self.advance().execute(n.0, n.1, n.2, n.3, now, random);
            match r {
                Ok(action) => (
                    next,
                    Ok(
                        StepOutcome {
                            action,
                            redraw: next.buf != self.buf,
                            beep: next.sound_at(now) > 0,
                        },
                    ),
                ),
                Err(error) => (self, Err(Fault { pc: self.pc, opcode: Some(self.opcode()), error })),
            }
        }
    }
}

/// An instruction handler's result as the result of the dispatch.
fn proceed(r: Result<(), Chip8Error>) -> (out: Result<Action, Chip8Error>)
    ensures
        r is Ok ==> out == Ok::<Action, Chip8Error>(Action::Continue),
        r is Err ==> out == Err::<Action, Chip8Error>(r->Err_0),
{
    match r {
        Ok(()) => Ok(Action::Continue),
        Err(e) => Err(e),
    }
}

/// Whether two framebuffers hold the same cells.
fn same_cells(a: &[u8; 2048], b: &[u8; 2048]) -> (same: bool)
    ensures
        same == (a@ == b@),
{
    let mut k: usize = 0;
    while k < 2048
        invariant
            k <= 2048,
            forall|j: int| 0 <= j < k ==> a@[j] == b@[j],
        decreases 2048 - k,
    {
        if a[k] != b[k] {
            return false;
        }
        k += 1;
    }
    proof {
        assert(a@ =~= b@);
    }
    true
}

impl CPU {
    /// Carries out the instruction spelled by the nibbles `n1` to `n4` at
    /// clock reading `now`. The program counter is expected to have moved
    /// past the instruction already.
    ///
    /// An instruction that is refused leaves the machine as it was. A word
    /// that matches no pattern is reported as unknown.
    pub fn execute(&mut self, n1: u8, n2: u8, n3: u8, n4: u8, now: u128) -> (r: Result<
        Action,
        Chip8Error,
    >)
        requires
            old(self).wf(),
            n1 < 16,
            n2 < 16,
            n3 < 16,
            n4 < 16,
        ensures
            exists|random: u8|
                (final(self)@, r) == #[trigger] old(self)@.execute(n1, n2, n3, n4, now, random),
            r is Err ==> final(self)@ == old(self)@,
            final(self).wf(),
    {
        let ghost before = self@;
        let r = match (n1, n2, n3, n4) {
            (0x0, 0x0, 0xE, 0x0) => {
                self.cls00e0();
                Ok(Action::Continue)
            },
            (0x0, 0x0, 0xE, 0xE) => proceed(self.ret00ee()),
            (0x1, nnn_a, nnn_b, nnn_c) => {
                let addr = self.to_nnn(nnn_a, nnn_b, nnn_c);
                self.jp1nnn(addr);
                Ok(Action::Continue)
            },
            (0x2, nnn_a, nnn_b, nnn_c) => {
                let addr = self.to_nnn(nnn_a, nnn_b, nnn_c);
                proceed(self.call2nnn(addr))
            },
            (0x3, x, upper_nibble, lower_nibble) => {
                let nn = to_nn(upper_nibble, lower_nibble);
                self.se3xnn(x, nn);
                Ok(Action::Continue)
            },
            (0x4, x, upper_nibble, lower_nibble) => {
                let nn = to_nn(upper_nibble, lower_nibble);
                self.sne4xnn(x, nn);
                Ok(Action::Continue)
            },
            (0x5, x, y, 0x0) => {
                self.se5xy0(x, y);
                Ok(Action::Continue)
            },
            (0x6, x, upper_nibble, lower_nibble) => {
                let nn = to_nn(upper_nibble, lower_nibble);
                self.set6xnn(x, nn);
                Ok(Action::Continue)
            },
            (0x7, x, upper_nibble, lower_nibble) => {
                let nn = to_nn(upper_nibble, lower_nibble);
                self.add7xnn(x, nn);
                Ok(Action::Continue)
            },
            (0x8, x, y, 0x0) => {
                self.ld8xy0(x, y);
                Ok(Action::Continue)
            },
            (0x8, x, y, 0x1) => {
                self.or8xy1(x, y);
                Ok(Action::Continue)
            },
            (0x8, x, y, 0x2) => {
                self.and8xy2(x, y);
                Ok(Action::Continue)
            },
            (0x8, x, y, 0x3) => {
                self.xor8xy3(x, y);
                Ok(Action::Continue)
            },
            (0x8, x, y, 0x4) => {
                self.add8xy4(x, y);
                Ok(Action::Continue)
            },
            (0x8, x, y, 0x5) => {
                self.sub8xy5(x, y);
                Ok(Action::Continue)
            },
            (0x8, x, y, 0x6) => {
                if self.shift_uses_x {
                    self.shr8xy6_usex(x, y);
                } else {
                    self.shr8xy6_usey(x, y);
                }
                Ok(Action::Continue)
            },
            (0x8, x, y, 0x7) => {
                self.sub8xy7(x, y);
                Ok(Action::Continue)
            },
            (0x8, x, y, 0xE) => {
                if self.shift_uses_x {
                    self.shl8xye_usex(x, y);
                } else {
                    self.shl8xye_usey(x, y);
                }
                Ok(Action::Continue)
            },
            (0x9, x, y, 0x0) => {
                self.sne9xy0(x, y);
                Ok(Action::Continue)
            },
            (0xA, nnn_a, nnn_b, nnn_c) => {
                let addr = self.to_nnn(nnn_a, nnn_b, nnn_c);
                self.setannn(addr);
                Ok(Action::Continue)
            },
            (0xB, nnn_a, nnn_b, nnn_c) => {
                let addr = self.to_nnn(nnn_a, nnn_b, nnn_c);
                self.jpbnnn(addr);
                Ok(Action::Continue)
            },
            (0xC, x, upper_nibble, lower_nibble) => {
                let nn = to_nn(upper_nibble, lower_nibble);
                self.rndcxnn(x, nn);
                Ok(Action::Continue)
            },
            (0xD, x, y, n) => proceed(self.drwdxyn(x, y, n)),
            (0xE, x, 0x9, 0xE) => {
                self.skpex9e(x);
                Ok(Action::Continue)
            },
            (0xE, x, 0xA, 0x1) => {
                self.skpexa1(x);
                Ok(Action::Continue)
            },
            (0xF, x, 0x0, 0x7) => {
                self.ldfx07(x, now);
                Ok(Action::Continue)
            },
            (0xF, x, 0x0, 0xA) => Ok(Action::AwaitKey { x }),
            (0xF, x, 0x1, 0x5) => {
                self.ldfx15(x, now);
                Ok(Action::Continue)
            },
            (0xF, x, 0x1, 0x8) => {
                self.ldfx18(x, now);
                Ok(Action::Continue)
            },
            (0xF, x, 0x1, 0xE) => {
                self.addfx1e(x);
                Ok(Action::Continue)
            },
            (0xF, x, 0x2, 0x9) => {
                self.ldfx29(x);
                Ok(Action::Continue)
            },
            (0xF, x, 0x3, 0x3) => proceed(self.ldfx33(x)),
            (0xF, x, 0x5, 0x5) => {
                if self.memops_leave_i {
                    proceed(self.ldfx55(x))
                } else {
                    proceed(self.ldfx55_old(x))
                }
            },
            (0xF, x, 0x6, 0x5) => {
                if self.memops_leave_i {
                    proceed(self.ldfx65(x))
                } else {
                    proceed(self.ldfx65_old(x))
                }
            },
            (a, b, c, d) => Err(Chip8Error::UnknownOpcode { opcode: to_opcode(a, b, c, d) }),
        };
        proof {
            if n1 == 0xC {
                let nn = nn_of(n3, n4) as u8;
                let random = choose|random: u8| self@ == before.rnd(n2, nn, random);
                assert((self@, r) == before.execute(n1, n2, n3, n4, now, random));
            } else {
                assert((self@, r) == before.execute(n1, n2, n3, n4, now, 0));
            }
        }
        r
    }

    /// Reads the two bytes of the instruction at the program counter.
    pub fn fetch(&self) -> (r: Result<(u8, u8), Fault>)
        ensures
            self@.can_fetch() ==> r == Ok::<(u8, u8), Fault>(
                (self@.mem[self.pc as int], self@.mem[self.pc + 1]),
            ),
            !self@.can_fetch() ==> r == Err::<(u8, u8), Fault>(self@.fetch_fault()),
    {
        let at: usize = self.pc as usize;
        if at + 1 >= 4096 {
            let addr: usize = if at >= 4096 {
                at
            } else {
                4096
            };
            return Err(
                Fault { pc: self.pc, opcode: None, error: Chip8Error::MemoryOutOfRange { addr } },
            );
        }
        Ok((self.mem[at], self.mem[at + 1]))
    }

    /// Takes one step at clock reading `now`: fetches the instruction at the
    /// program counter, decodes it, moves the program counter past it and
    /// carries it out. The outcome tells the host whether to present the
    /// framebuffer, whether the speaker is to sound and whether the machine
    /// waits for a key.
    ///
    /// A step that fails leaves the machine as it was and reports where and
    /// why it failed.
    pub fn step(&mut self, now: u128) -> (r: Result<StepOutcome, Fault>)
        requires
            old(self).wf(),
        ensures
            exists|random: u8| (final(self)@, r) == #[trigger] old(self)@.step(now, random),
            r is Err ==> final(self)@ == old(self)@,
            final(self).wf(),
    {
        let (hi, lo) = match self.fetch() {
            Ok(bytes) => bytes,
            Err(fault) => {
                assert((self@, Err::<StepOutcome, Fault>(fault)) == old(self)@.step(now, 0));
                return Err(fault);
            },
        };
        let (n1, n2, n3, n4) = self.decode(hi, lo);
        let start: u16 = self.pc;
        let cells: [u8; 2048] = self.buf;
        self.pc = start + 2;
        let ghost advanced = self@;
        assert(advanced == old(self)@.advance());
        let executed = self.execute(n1, n2, n3, n4, now);
        let ghost random = choose|random: u8|
            (self@, executed) == #[trigger] advanced.execute(n1, n2, n3, n4, now, random);
        match executed {
            Ok(action) => {
                proof {
                    if n1 != 0x0 && n1 != 0xD {
                        lemma_only_display_redraws(advanced, n1, n2, n3, n4, now, random);
                    }
                }
                let redraw = (n1 == 0x0 || n1 == 0xD) && !same_cells(&cells, &self.buf);
                let beep = self.get_sound(now) > 0;
                let outcome = StepOutcome { action, redraw, beep };
                assert((self@, Ok::<StepOutcome, Fault>(outcome)) == old(self)@.step(now, random));
                Ok(outcome)
            },
            Err(error) => {
                proof {
                    lemma_refusal_keeps_machine(advanced, n1, n2, n3, n4, now, random);
                }
                self.pc = start;
                let fault = Fault { pc: start, opcode: Some(hi as u16 * 256 + lo as u16), error };
                assert(self@ == old(self)@);
                assert((self@, Err::<StepOutcome, Fault>(fault)) == old(self)@.step(now, random));
                Err(fault)
            },
        }
    }
}

/// Only the two display instructions touch the framebuffer.
pub proof fn lemma_only_display_redraws(
    m: Machine,
    n1: u8,
    n2: u8,
    n3: u8,
    n4: u8,
    now: u128,
    random: u8,
)
    requires
        n1 != 0x0,
        n1 != 0xD,
    ensures
        m.execute(n1, n2, n3, n4, now, random).0.buf == m.buf,
{
}

/// An instruction that is refused leaves the machine as it was.
pub proof fn lemma_refusal_keeps_machine(
    m: Machine,
    n1: u8,
    n2: u8,
    n3: u8,
    n4: u8,
    now: u128,
    random: u8,
)
    ensures
        m.execute(n1, n2, n3, n4, now, random).1 is Err ==> m.execute(
            n1,
            n2,
            n3,
            n4,
            now,
            random,
        ).0 == m,
{
}

/// Joins two nibbles into the byte they spell.
pub fn to_nn(upper_nibble: u8, lower_nibble: u8) -> (nn: u8)
    requires
        upper_nibble < 16,
        lower_nibble < 16,
    ensures
        nn == nn_of(upper_nibble, lower_nibble),
{
    let nn: u8 = (upper_nibble << 4) | lower_nibble;
    assert((upper_nibble << 4) | lower_nibble == upper_nibble * 16 + lower_nibble) by (bit_vector)
        requires
            upper_nibble < 16,
            lower_nibble < 16,
    ;
    nn
}

/// Joins four nibbles into the instruction word they spell.
pub fn to_opcode(n1: u8, n2: u8, n3: u8, n4: u8) -> (opcode: u16)
    requires
        n1 < 16,
        n2 < 16,
        n3 < 16,
        n4 < 16,
    ensures
        opcode == opcode_of(n1, n2, n3, n4),
{
    n1 as u16 * 4096 + n2 as u16 * 256 + n3 as u16 * 16 + n4 as u16
}

} // verus!
