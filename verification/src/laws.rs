//! Laws of the instruction set, proved over the model.

use vstd::prelude::*;
use crate::display::{blit, blit_cell, collides, collides_at, sprite_bit, under_sprite};
use crate::error::Chip8Error;
use crate::font::FONT;
use crate::interpreter::Action;
use crate::machine::{bytes_of, nibbles_of, wrap16, Machine};

verus! {

/// Decoding two bytes yields the nibbles `hi >> 4`, `hi & 0xF`, `lo >> 4`
/// and `lo & 0xF`, each below 16, and spelling those nibbles out again gives
/// the two bytes back.
pub proof fn law_decode_round_trip(hi: u8, lo: u8)
    ensures
        nibbles_of(hi, lo) == (hi >> 4, hi & 0xF, lo >> 4, lo & 0xF),
        nibbles_of(hi, lo).0 < 16,
        nibbles_of(hi, lo).1 < 16,
        nibbles_of(hi, lo).2 < 16,
        nibbles_of(hi, lo).3 < 16,
        ({
            let n = nibbles_of(hi, lo);
            bytes_of(n.0, n.1, n.2, n.3) == (hi as int, lo as int)
        }),
{
    assert(hi >> 4 == hi / 16 && hi & 0xF == hi % 16) by (bit_vector);
    assert(lo >> 4 == lo / 16 && lo & 0xF == lo % 16) by (bit_vector);
}

/// Four nibbles spelled out as two bytes decode to the same four nibbles.
pub proof fn law_encode_round_trip(n1: u8, n2: u8, n3: u8, n4: u8)
    requires
        n1 < 16,
        n2 < 16,
        n3 < 16,
        n4 < 16,
    ensures
        ({
            let b = bytes_of(n1, n2, n3, n4);
            nibbles_of(b.0 as u8, b.1 as u8) == (n1, n2, n3, n4)
        }),
{
}

/// After `6xnn`, a `3xnn` with the same x and nn skips: it leaves the
/// program counter two bytes beyond where it found it, whatever the machine
/// held before.
pub proof fn law_set_then_skip(
    m: Machine,
    x: u8,
    n3: u8,
    n4: u8,
    now: u128,
    later: u128,
    random: u8,
)
    requires
        m.wf(),
        x < 16,
        n3 < 16,
        n4 < 16,
    ensures
        ({
            let set = m.execute(0x6, x, n3, n4, now, random);
            let skip = set.0.execute(0x3, x, n3, n4, later, random);
            &&& set.1 == Ok::<Action, Chip8Error>(Action::Continue)
            &&& skip.1 == Ok::<Action, Chip8Error>(Action::Continue)
            &&& skip.0.pc == wrap16(set.0.pc + 2)
        }),
{
}

/// A program that holds `6xnn` and then `3xnn` with the same x and nn: two
/// steps take the program counter past both and past the instruction that
/// follows them.
pub proof fn law_set_then_skip_steps(m: Machine, now: u128, later: u128, random: u8)
    requires
        m.wf(),
        m.pc + 5 < 4096,
        m.mem[m.pc as int] / 16 == 0x6,
        m.mem[m.pc + 2] / 16 == 0x3,
        m.mem[m.pc + 2] % 16 == m.mem[m.pc as int] % 16,
        m.mem[m.pc + 3] == m.mem[m.pc + 1],
    ensures
        ({
            let first = m.step(now, random);
            let second = first.0.step(later, random);
            &&& first.1 is Ok
            &&& first.0.pc == m.pc + 2
            &&& second.1 is Ok
            &&& second.0.pc == m.pc + 6
        }),
{
    let first = m.step(now, random);
    let hi = m.mem[m.pc as int];
    let lo = m.mem[m.pc + 1];
    let n = nibbles_of(hi, lo);
    assert(first.0 == m.advance().set_v(n.1, lo));
    assert(first.0.mem == m.mem);
    assert(first.0.v(n.1) == lo);
}

/// After `8xy4`, VF is 1 if the sum of the old Vx and Vy exceeds 255 and 0
/// if it does not, and Vx, unless it is VF itself, is that sum modulo 256.
/// No other register changes.
pub proof fn law_add_sets_carry(m: Machine, x: u8, y: u8, now: u128, random: u8)
    requires
        m.wf(),
        x < 16,
        y < 16,
    ensures
        ({
            let after = m.execute(0x8, x, y, 0x4, now, random);
            let sum = m.v(x) + m.v(y);
            &&& after.1 == Ok::<Action, Chip8Error>(Action::Continue)
            &&& after.0 == m.add_reg(x, y)
            &&& after.0.vf() == 0 || after.0.vf() == 1
            &&& after.0.vf() == 1 <==> sum > 255
            &&& x != 0xF ==> after.0.v(x) == sum % 256
            &&& forall|r: u8| r < 15 && r != x ==> after.0.v(r) == m.v(r)
        }),
{
}

/// After `8xy5`, VF is 1 exactly if the old Vx was at least the old Vy, and
/// Vx, unless it is VF itself, is their difference modulo 256. No other
/// register changes.
pub proof fn law_sub_sets_no_borrow(m: Machine, x: u8, y: u8, now: u128, random: u8)
    requires
        m.wf(),
        x < 16,
        y < 16,
    ensures
        ({
            let after = m.execute(0x8, x, y, 0x5, now, random);
            &&& after.1 == Ok::<Action, Chip8Error>(Action::Continue)
            &&& after.0 == m.sub_reg(x, y)
            &&& after.0.vf() == 0 || after.0.vf() == 1
            &&& after.0.vf() == 1 <==> m.v(x) >= m.v(y)
            &&& x != 0xF ==> after.0.v(x) == (m.v(x) - m.v(y)) % 256
            &&& forall|r: u8| r < 15 && r != x ==> after.0.v(r) == m.v(r)
        }),
{
}

/// Whether drawing `sprite` at (`x0`, `y0`) lights a cell: some cell is
/// dark before the draw and lit after it.
pub open spec fn lights(buf: Seq<u8>, sprite: Seq<u8>, x0: int, y0: int) -> bool {
    exists|k: int|
        0 <= k < 2048 && buf[k] == 0 && #[trigger] blit(buf, sprite, x0, y0)[k] == 1
}

/// XOR with the same bit twice gives the cell back, and a cell that XOR with
/// 1 makes 1 was 0.
proof fn lemma_xor_twice(cell: u8, bit: u8)
    ensures
        (cell ^ bit) ^ bit == cell,
        bit == 1 ==> ((cell ^ bit) == 1 <==> cell == 0),
        bit & 1 == 0 || bit & 1 == 1,
        cell == 0 && (cell ^ bit) == 1 ==> bit == 1,
{
    assert((cell ^ bit) ^ bit == cell) by (bit_vector);
    assert(bit == 1 ==> ((cell ^ bit) == 1 <==> cell == 0)) by (bit_vector);
    assert(bit & 1 == 0 || bit & 1 == 1) by (bit_vector);
    assert(cell == 0 && (cell ^ bit) == 1 ==> bit == 1) by (bit_vector);
}

/// Drawing is XOR: a sprite drawn twice at the same place leaves the
/// framebuffer as it was, and the second draw reports a collision exactly if
/// the first one lit a cell.
pub proof fn law_blit_twice(buf: Seq<u8>, sprite: Seq<u8>, x0: int, y0: int)
    requires
        buf.len() == 2048,
    ensures
        blit(blit(buf, sprite, x0, y0), sprite, x0, y0) == buf,
        collides(blit(buf, sprite, x0, y0), sprite, x0, y0) <==> lights(buf, sprite, x0, y0),
{
    let once = blit(buf, sprite, x0, y0);
    let twice = blit(once, sprite, x0, y0);
    assert forall|k: int| 0 <= k < 2048 implies twice[k] == buf[k] by {
        if under_sprite(x0, y0, sprite.len() as int, k % 64, k / 64) {
            lemma_xor_twice(buf[k], sprite_bit(sprite[k / 64 - y0], k % 64 - x0));
        }
    }
    assert(twice =~= buf);
    if collides(once, sprite, x0, y0) {
        let k = choose|k: int| 0 <= k < 2048 && collides_at(once, sprite, x0, y0, k);
        lemma_xor_twice(buf[k], sprite_bit(sprite[k / 64 - y0], k % 64 - x0));
        assert(buf[k] == 0 && once[k] == 1);
    }
    if lights(buf, sprite, x0, y0) {
        let k = choose|k: int| 0 <= k < 2048 && buf[k] == 0 && #[trigger] once[k] == 1;
        assert(once[k] == blit_cell(buf, sprite, x0, y0, k));
        assert(under_sprite(x0, y0, sprite.len() as int, k % 64, k / 64));
        let bit = sprite_bit(sprite[k / 64 - y0], k % 64 - x0);
        lemma_xor_twice(buf[k], sprite[k / 64 - y0] >> ((7 - (k % 64 - x0)) as u8));
        lemma_xor_twice(buf[k], bit);
        assert(collides_at(once, sprite, x0, y0, k));
    }
}

/// `Dxyn` carried out twice in a row, with Vx and Vy naming the same place
/// both times, leaves the framebuffer as it was, and after the second time
/// VF is 1 exactly if the first time lit a cell.
pub proof fn law_draw_twice(m: Machine, x: u8, y: u8, n: int)
    requires
        m.wf(),
        x < 16,
        y < 16,
        0 <= n,
        m.draw(x, y, n).draw_x(x) == m.draw_x(x),
        m.draw(x, y, n).draw_y(y) == m.draw_y(y),
    ensures
        m.draw(x, y, n).draw(x, y, n).buf == m.buf,
        m.draw(x, y, n).draw(x, y, n).vf() == 1 <==> lights(
            m.buf,
            m.sprite(n),
            m.draw_x(x),
            m.draw_y(y),
        ),
        m.draw(x, y, n).draw(x, y, n).vf() == 0 || m.draw(x, y, n).draw(x, y, n).vf() == 1,
{
    let once = m.draw(x, y, n);
    assert(once.sprite(n) == m.sprite(n));
    law_blit_twice(m.buf, m.sprite(n), m.draw_x(x), m.draw_y(y));
}

/// `2nnn` followed by `00EE` restores the stack pointer and the program
/// counter, provided the call found room on the stack.
pub proof fn law_call_then_return(
    m: Machine,
    n2: u8,
    n3: u8,
    n4: u8,
    now: u128,
    later: u128,
    random: u8,
)
    requires
        m.wf(),
        m.sp < 15,
        n2 < 16,
        n3 < 16,
        n4 < 16,
    ensures
        ({
            let called = m.execute(0x2, n2, n3, n4, now, random);
            let returned = called.0.execute(0x0, 0x0, 0xE, 0xE, later, random);
            &&& called.1 == Ok::<Action, Chip8Error>(Action::Continue)
            &&& returned.1 == Ok::<Action, Chip8Error>(Action::Continue)
            &&& returned.0.sp == m.sp
            &&& returned.0.pc == m.pc
        }),
{
}

/// `Fx33` writes the hundreds, tens and units of Vx to I, I+1 and I+2 and
/// nothing else. The three digits are decimal digits and spell Vx.
pub proof fn law_bcd_digits(m: Machine, x: u8, now: u128, random: u8)
    requires
        m.wf(),
        x < 16,
        m.i_reg + 2 < 4096,
    ensures
        ({
            let after = m.execute(0xF, x, 0x3, 0x3, now, random);
            let i = m.i_reg as int;
            let n = m.v(x) as int;
            &&& after.1 == Ok::<Action, Chip8Error>(Action::Continue)
            &&& after.0 == m.bcd(x)
            &&& after.0.mem[i] == n / 100
            &&& after.0.mem[i + 1] == (n / 10) % 10
            &&& after.0.mem[i + 2] == n % 10
            &&& after.0.mem[i] < 10 && after.0.mem[i + 1] < 10 && after.0.mem[i + 2] < 10
            &&& 100 * after.0.mem[i] + 10 * after.0.mem[i + 1] + after.0.mem[i + 2] == n
            &&& forall|a: int|
                0 <= a < 4096 && !(i <= a <= i + 2) ==> #[trigger] after.0.mem[a] == m.mem[a]
        }),
{
}

/// `Fx29` with a digit v from 0 to F in Vx sets I to 0x050 + 5v, and in a
/// machine whose font is intact the five bytes from I on are the glyph of v.
pub proof fn law_font_glyph(m: Machine, x: u8, now: u128, random: u8)
    requires
        m.wf(),
        m.font_intact(),
        x < 16,
        m.v(x) < 16,
    ensures
        ({
            let after = m.execute(0xF, x, 0x2, 0x9, now, random);
            let v = m.v(x) as int;
            &&& after.1 == Ok::<Action, Chip8Error>(Action::Continue)
            &&& after.0 == m.font(x)
            &&& after.0.i_reg == 0x050 + 5 * v
            &&& forall|j: int|
                0 <= j < 5 ==> #[trigger] after.0.mem[after.0.i_reg + j] == FONT@[5 * v + j]
        }),
{
    let after = m.execute(0xF, x, 0x2, 0x9, now, random);
    let v = m.v(x) as int;
    assert forall|j: int| 0 <= j < 5 implies #[trigger] after.0.mem[after.0.i_reg + j] == FONT@[5
        * v + j] by {
        assert(m.mem[0x050 + (5 * v + j)] == FONT@[5 * v + j]);
    }
}

/// A freshly built machine is valid and its font is intact.
pub proof fn law_boot_is_valid(program: Seq<u8>)
    requires
        program.len() <= 3584,
    ensures
        Machine::boot(program).wf(),
        Machine::boot(program).font_intact(),
        forall|k: int|
            0 <= k < program.len() ==> #[trigger] Machine::boot(program).mem[0x200 + k]
                == program[k],
{
}

/// Every instruction keeps a valid machine valid, whether it runs to its
/// end or is refused.
pub proof fn law_execute_keeps_validity(
    m: Machine,
    n1: u8,
    n2: u8,
    n3: u8,
    n4: u8,
    now: u128,
    random: u8,
)
    requires
        m.wf(),
        n1 < 16,
        n2 < 16,
        n3 < 16,
        n4 < 16,
    ensures
        m.execute(n1, n2, n3, n4, now, random).0.wf(),
{
    if n1 == 0xD {
        let after = m.draw(n2, n3, n4 as int);
        assert forall|k: int| 0 <= k < 2048 implies #[trigger] after.buf[k] <= 1 by {
            let cell = m.buf[k];
            assert(cell <= 1);
            if under_sprite(m.draw_x(n2), m.draw_y(n3), n4 as int, k % 64, k / 64) {
                let row = m.sprite(n4 as int)[k / 64 - m.draw_y(n3)];
                let shift = (7 - (k % 64 - m.draw_x(n2))) as u8;
                assert(cell <= 1 ==> cell ^ ((row >> shift) & 1) <= 1) by (bit_vector);
            }
        }
    }
}

} // verus!
