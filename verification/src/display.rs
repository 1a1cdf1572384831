//! The framebuffer: clearing it and drawing sprites into it.

use vstd::prelude::*;
use crate::cpu::CPU;
use crate::error::Chip8Error;
use crate::machine::Machine;

verus! {

/// Bit `col` of a sprite row, column 0 being the most significant bit.
pub open spec fn sprite_bit(row: u8, col: int) -> u8 {
    (row >> ((7 - col) as u8)) & 1
}

/// The `n` sprite rows that memory holds from address `base` on.
pub open spec fn sprite_rows(mem: Seq<u8>, base: int, n: int) -> Seq<u8> {
    Seq::new(n as nat, |r: int| mem[base + r])
}

/// Whether the cell in column `cx` of row `cy` lies under a sprite of `rows`
/// rows whose top left corner is at (`x0`, `y0`).
pub open spec fn under_sprite(x0: int, y0: int, rows: int, cx: int, cy: int) -> bool {
    x0 <= cx < x0 + 8 && y0 <= cy < y0 + rows
}

/// Cell `k` of the framebuffer after `sprite` was drawn at (`x0`, `y0`): the
/// sprite's bit is XORed into the cells it covers. Cells that would fall
/// beyond the right or bottom edge do not exist, so the sprite is clipped.
pub open spec fn blit_cell(buf: Seq<u8>, sprite: Seq<u8>, x0: int, y0: int, k: int) -> u8 {
    if under_sprite(x0, y0, sprite.len() as int, k % 64, k / 64) {
        buf[k] ^ sprite_bit(sprite[k / 64 - y0], k % 64 - x0)
    } else {
        buf[k]
    }
}

/// The framebuffer after `sprite` was drawn at (`x0`, `y0`).
pub open spec fn blit(buf: Seq<u8>, sprite: Seq<u8>, x0: int, y0: int) -> Seq<u8> {
    Seq::new(2048, |k: int| blit_cell(buf, sprite, x0, y0, k))
}

/// Whether drawing `sprite` at (`x0`, `y0`) clears cell `k`: the cell is lit
/// and the sprite has a set bit over it.
pub open spec fn collides_at(buf: Seq<u8>, sprite: Seq<u8>, x0: int, y0: int, k: int) -> bool {
    &&& under_sprite(x0, y0, sprite.len() as int, k % 64, k / 64)
    &&& buf[k] == 1
    &&& sprite_bit(sprite[k / 64 - y0], k % 64 - x0) == 1
}

/// Whether drawing `sprite` at (`x0`, `y0`) clears any lit cell.
pub open spec fn collides(buf: Seq<u8>, sprite: Seq<u8>, x0: int, y0: int) -> bool {
    exists|k: int| 0 <= k < 2048 && collides_at(buf, sprite, x0, y0, k)
}

/// Cell `k` while a sprite is being drawn: `rows` rows are complete and the
/// first `cols` cells of the next row are done.
spec fn partial_cell(
    buf: Seq<u8>,
    sprite: Seq<u8>,
    x0: int,
    y0: int,
    rows: int,
    cols: int,
    k: int,
) -> u8 {
    if under_sprite(x0, y0, rows, k % 64, k / 64) || (k / 64 == y0 + rows && x0 <= k % 64 < x0
        + cols) {
        buf[k] ^ sprite_bit(sprite[k / 64 - y0], k % 64 - x0)
    } else {
        buf[k]
    }
}

/// Whether cell `k` is a collision among the part of the sprite drawn so far.
spec fn partial_collision(
    buf: Seq<u8>,
    sprite: Seq<u8>,
    x0: int,
    y0: int,
    rows: int,
    cols: int,
    k: int,
) -> bool {
    &&& under_sprite(x0, y0, rows, k % 64, k / 64) || (k / 64 == y0 + rows && x0 <= k % 64 < x0
        + cols)
    &&& buf[k] == 1
    &&& sprite_bit(sprite[k / 64 - y0], k % 64 - x0) == 1
}

/// The character that shows a cell: a filled square for a lit cell, a
/// blank for a dark one.
pub open spec fn cell_char(cell: u8) -> char {
    if cell == 1 {
        '\u{25A0}'
    } else {
        ' '
    }
}

/// Character `p` of the framebuffer's text form: each of the 32 rows is its
/// 64 cells followed by a line feed.
pub open spec fn frame_char(buf: Seq<u8>, p: int) -> char {
    if p % 65 == 64 {
        '\n'
    } else {
        cell_char(buf[(p / 65) * 64 + p % 65])
    }
}

/// The framebuffer as text, row after row.
pub open spec fn frame_text(buf: Seq<u8>) -> Seq<char> {
    Seq::new(2080, |p: int| frame_char(buf, p))
}

impl Machine {
    /// The machine with every framebuffer cell dark.
    pub open spec fn cls(self) -> Machine {
        Machine { buf: Seq::new(2048, |k: int| 0u8), ..self }
    }

    /// Column at which a sprite drawn from Vx starts: the start wraps.
    pub open spec fn draw_x(self, x: u8) -> int {
        self.v(x) as int % 64
    }

    /// Row at which a sprite drawn from Vy starts: the start wraps.
    pub open spec fn draw_y(self, y: u8) -> int {
        self.v(y) as int % 32
    }

    /// The sprite of `n` rows that I points at.
    pub open spec fn sprite(self, n: int) -> Seq<u8> {
        sprite_rows(self.mem, self.i_reg as int, n)
    }

    /// Whether the `n` sprite rows at I lie inside memory.
    pub open spec fn sprite_in_memory(self, n: int) -> bool {
        n == 0 || self.i_reg + n <= 4096
    }

    /// The machine after the sprite of `n` rows at I was drawn at (Vx, Vy):
    /// the sprite is XORed into the framebuffer and VF tells whether a lit
    /// cell went dark. Vx and Vy are read before VF is written.
    pub open spec fn draw(self, x: u8, y: u8, n: int) -> Machine {
        let sprite = self.sprite(n);
        let x0 = self.draw_x(x);
        let y0 = self.draw_y(y);
        Machine {
            buf: blit(self.buf, sprite, x0, y0),
            registers: self.registers.update(
                15,
                if collides(self.buf, sprite, x0, y0) {
                    1u8
                } else {
                    0u8
                },
            ),
            ..self
        }
    }
}

/// XOR of two cells that are 0 or 1 is 0 or 1.
proof fn lemma_xor_cell(cell: u8, bit: u8)
    requires
        cell <= 1,
        bit <= 1,
    ensures
        cell ^ bit <= 1,
{
    assert(cell <= 1 && bit <= 1 ==> cell ^ bit <= 1) by (bit_vector);
}

/// `String::push`: appends the character to the end of the string.
#[verifier::external_body]
fn push_char(text: &mut String, c: char)
    ensures
        final(text)@ == old(text)@.push(c),
{
    text.push(c);
}

impl CPU {
    /// Renders the display as text for the host to present: 32 lines of 64
    /// characters, a filled square for each lit cell and a blank for each
    /// dark one.
    pub fn update(&self) -> (frame: String)
        ensures
            frame@ == frame_text(self@.buf),
    {
        let mut frame = String::new();
        let mut row: usize = 0;
        while row < 32
            invariant
                row <= 32,
                frame@.len() == row * 65,
                forall|p: int| 0 <= p < frame@.len() ==> frame@[p] == frame_char(self@.buf, p),
            decreases 32 - row,
        {
            let mut col: usize = 0;
            while col < 64
                invariant
                    row < 32,
                    col <= 64,
                    frame@.len() == row * 65 + col,
                    forall|p: int|
                        0 <= p < frame@.len() ==> frame@[p] == frame_char(self@.buf, p),
                decreases 64 - col,
            {
                let c: char = if self.buf[row * 64 + col] == 1 {
                    '\u{25A0}'
                } else {
                    ' '
                };
                push_char(&mut frame, c);
                col += 1;
            }
            push_char(&mut frame, '\n');
            row += 1;
        }
        proof {
            assert(frame@ =~= frame_text(self@.buf));
        }
        frame
    }

    /// Clears the display.
    pub fn clear(&mut self)
        ensures
            final(self)@ == old(self)@.cls(),
            old(self).wf() ==> final(self).wf(),
    {
        self.buf = [0; 2048];
        proof {
            assert(self@.buf =~= old(self)@.cls().buf);
        }
    }

    /// Draws the sprite of `n` rows at I with its top left corner at
    /// (Vx mod 64, Vy mod 32) and sets VF to 1 if a lit cell went dark, else
    /// to 0.
    ///
    /// The whole sprite has to lie inside memory; if it does not, nothing is
    /// drawn and the first address beyond memory is reported.
    pub fn draw(&mut self, x: u8, y: u8, n: usize) -> (r: Result<(), Chip8Error>)
        requires
            x < 16,
            y < 16,
        ensures
            old(self)@.sprite_in_memory(n as int) ==> r is Ok && final(self)@ == old(self)@.draw(
                x,
                y,
                n as int,
            ),
            !old(self)@.sprite_in_memory(n as int) ==> final(self)@ == old(self)@ && r == Err::<
                (),
                Chip8Error,
            >(
                Chip8Error::MemoryOutOfRange { addr: old(self)@.first_beyond() },
            ),
            old(self).wf() ==> final(self).wf(),
    {
        let base: usize = self.i_reg as usize;
        if n > 0 && (base >= 4096 || n > 4096 - base) {
            let addr: usize = if base >= 4096 {
                base
            } else {
                4096
            };
            return Err(Chip8Error::MemoryOutOfRange { addr });
        }
        let x0: usize = (self.registers[x as usize] % 64) as usize;
        let y0: usize = (self.registers[y as usize] % 32) as usize;
        let ghost sprite = old(self)@.sprite(n as int);
        let ghost buf0 = old(self)@.buf;
        let mut collision: u8 = 0;
        let mut row: usize = 0;
        while row < n && y0 + row < 32
            invariant
                x0 < 64,
                y0 < 32,
                row <= n,
                y0 + row <= 32,
                n == 0 || base + n <= 4096,
                base == old(self).i_reg,
                sprite == old(self)@.sprite(n as int),
                buf0 == old(self)@.buf,
                self@ == (Machine { buf: self@.buf, ..old(self)@ }),
                collision <= 1,
                forall|k: int|
                    0 <= k < 2048 ==> #[trigger] self.buf@[k] == partial_cell(
                        buf0,
                        sprite,
                        x0 as int,
                        y0 as int,
                        row as int,
                        0,
                        k,
                    ),
                collision == 1 ==> collides(buf0, sprite, x0 as int, y0 as int),
                collision == 0 ==> forall|k: int|
                    0 <= k < 2048 ==> !#[trigger] partial_collision(
                        buf0,
                        sprite,
                        x0 as int,
                        y0 as int,
                        row as int,
                        0,
                        k,
                    ),
                old(self).wf() ==> forall|k: int| 0 <= k < 2048 ==> #[trigger] self.buf@[k] <= 1,
            decreases n - row,
        {
            let byte: u8 = self.mem[base + row];
            assert(byte == sprite[row as int]);
            let mut col: usize = 0;
            while col < 8 && x0 + col < 64
                invariant
                    x0 < 64,
                    y0 < 32,
                    row < n,
                    y0 + row < 32,
                    col <= 8,
                    x0 + col <= 64,
                    sprite.len() == n,
                    byte == sprite[row as int],
                    buf0 == old(self)@.buf,
                    self@ == (Machine { buf: self@.buf, ..old(self)@ }),
                    collision <= 1,
                    forall|k: int|
                        0 <= k < 2048 ==> #[trigger] self.buf@[k] == partial_cell(
                            buf0,
                            sprite,
                            x0 as int,
                            y0 as int,
                            row as int,
                            col as int,
                            k,
                        ),
                    collision == 1 ==> collides(buf0, sprite, x0 as int, y0 as int),
                    collision == 0 ==> forall|k: int|
                        0 <= k < 2048 ==> !#[trigger] partial_collision(
                            buf0,
                            sprite,
                            x0 as int,
                            y0 as int,
                            row as int,
                            col as int,
                            k,
                        ),
                    old(self).wf() ==> forall|k: int|
                        0 <= k < 2048 ==> #[trigger] self.buf@[k] <= 1,
                decreases 8 - col,
            {
                let shift: u8 = (7 - col) as u8;
                let bit: u8 = (byte >> shift) & 1;
                let pos: usize = (y0 + row) * 64 + x0 + col;
                let cell: u8 = self.buf[pos];
                proof {
                    assert(pos as int % 64 == x0 + col);
                    assert(pos as int / 64 == y0 + row);
                    assert(bit == sprite_bit(sprite[pos as int / 64 - y0], pos as int % 64 - x0));
                    assert(cell == partial_cell(
                        buf0,
                        sprite,
                        x0 as int,
                        y0 as int,
                        row as int,
                        col as int,
                        pos as int,
                    ));
                    assert(cell == buf0[pos as int]);
                    assert(bit <= 1) by (bit_vector)
                        requires
                            bit == (byte >> shift) & 1,
                    ;
                    if old(self).wf() {
                        assert(self.buf@[pos as int] <= 1);
                        lemma_xor_cell(cell, bit);
                    }
                }
                if cell == 1 && bit == 1 {
                    collision = 1;
                    proof {
                        assert(collides_at(buf0, sprite, x0 as int, y0 as int, pos as int));
                    }
                }
                self.buf[pos] = cell ^ bit;
                col += 1;
                proof {
                    assert forall|k: int| 0 <= k < 2048 implies #[trigger] self.buf@[k]
                        == partial_cell(
                        buf0,
                        sprite,
                        x0 as int,
                        y0 as int,
                        row as int,
                        col as int,
                        k,
                    ) by {
                        if k != pos {
                            assert(self.buf@[k] == partial_cell(
                                buf0,
                                sprite,
                                x0 as int,
                                y0 as int,
                                row as int,
                                col - 1,
                                k,
                            ));
                        }
                    }
                    if collision == 0 {
                        assert forall|k: int| 0 <= k < 2048 implies !#[trigger] partial_collision(
                            buf0,
                            sprite,
                            x0 as int,
                            y0 as int,
                            row as int,
                            col as int,
                            k,
                        ) by {
                            if k != pos {
                                assert(!partial_collision(
                                    buf0,
                                    sprite,
                                    x0 as int,
                                    y0 as int,
                                    row as int,
                                    col - 1,
                                    k,
                                ));
                            }
                        }
                    }
                }
            }
            row += 1;
            proof {
                assert forall|k: int| 0 <= k < 2048 implies #[trigger] self.buf@[k]
                    == partial_cell(buf0, sprite, x0 as int, y0 as int, row as int, 0, k) by {
                    assert(self.buf@[k] == partial_cell(
                        buf0,
                        sprite,
                        x0 as int,
                        y0 as int,
                        row - 1,
                        col as int,
                        k,
                    ));
                }
                if collision == 0 {
                    assert forall|k: int| 0 <= k < 2048 implies !#[trigger] partial_collision(
                        buf0,
                        sprite,
                        x0 as int,
                        y0 as int,
                        row as int,
                        0,
                        k,
                    ) by {
                        assert(!partial_collision(
                            buf0,
                            sprite,
                            x0 as int,
                            y0 as int,
                            row - 1,
                            col as int,
                            k,
                        ));
                    }
                }
            }
        }
        self.registers[15] = collision;
        proof {
            let m = old(self)@.draw(x, y, n as int);
            assert forall|k: int| 0 <= k < 2048 implies self.buf@[k] == blit_cell(
                buf0,
                sprite,
                x0 as int,
                y0 as int,
                k,
            ) by {
                assert(self.buf@[k] == partial_cell(
                    buf0,
                    sprite,
                    x0 as int,
                    y0 as int,
                    row as int,
                    0,
                    k,
                ));
            }
            assert(self@.buf =~= m.buf);
            if collision == 0 {
                assert forall|k: int| 0 <= k < 2048 implies !collides_at(
                    buf0,
                    sprite,
                    x0 as int,
                    y0 as int,
                    k,
                ) by {
                    assert(!partial_collision(
                        buf0,
                        sprite,
                        x0 as int,
                        y0 as int,
                        row as int,
                        0,
                        k,
                    ));
                }
            }
            assert(self@.registers == m.registers);
        }
        Ok(())
    }
}

} // verus!
