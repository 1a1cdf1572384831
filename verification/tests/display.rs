use chip8::{Chip8Error, CPU};

const ZERO_GLYPH: [u8; 5] = [0xF0, 0x90, 0x90, 0x90, 0xF0];

fn cpu_with_sprite(at: u16, rows: &[u8]) -> CPU {
    let mut cpu = CPU::new();
    for (k, row) in rows.iter().enumerate() {
        cpu.mem[at as usize + k] = *row;
    }
    cpu.i_reg = at;
    cpu
}

fn lit_cells(cpu: &CPU) -> Vec<(usize, usize)> {
    let mut cells = Vec::new();
    for (k, cell) in cpu.buf.iter().enumerate() {
        assert!(*cell <= 1);
        if *cell == 1 {
            cells.push((k % 64, k / 64));
        }
    }
    cells
}

#[test]
fn draw_digit_zero_then_erase_it() {
    let mut cpu = cpu_with_sprite(0x300, &ZERO_GLYPH);
    cpu.set6xnn(0, 0);
    cpu.set6xnn(1, 0);
    assert_eq!(cpu.drwdxyn(0, 1, 5), Ok(()));
    assert_eq!(cpu.vf(), 0);
    let expected = vec![
        (0, 0), (1, 0), (2, 0), (3, 0),
        (0, 1), (3, 1),
        (0, 2), (3, 2),
        (0, 3), (3, 3),
        (0, 4), (1, 4), (2, 4), (3, 4),
    ];
    assert_eq!(lit_cells(&cpu), expected);

    assert_eq!(cpu.drwdxyn(0, 1, 5), Ok(()));
    assert_eq!(cpu.vf(), 1);
    assert!(cpu.buf.iter().all(|cell| *cell == 0));
}

#[test]
fn draw_twice_restores_any_framebuffer() {
    let sprite = [0xA5, 0x3C, 0xFF, 0x01, 0x80, 0x7E];
    for (vx, vy) in [(0u8, 0u8), (5, 7), (60, 29), (63, 31), (200, 100)] {
        let mut cpu = cpu_with_sprite(0x320, &sprite);
        for k in 0..2048usize {
            cpu.buf[k] = ((k * 7 + k / 64) % 3 == 0) as u8;
        }
        let before = cpu.buf;
        cpu.set6xnn(2, vx);
        cpu.set6xnn(3, vy);
        assert_eq!(cpu.draw(2, 3, 6), Ok(()));
        let lit_by_first = (0..2048).any(|k| before[k] == 0 && cpu.buf[k] == 1);
        assert_ne!(cpu.buf, before);
        assert_eq!(cpu.draw(2, 3, 6), Ok(()));
        assert_eq!(cpu.buf, before);
        assert_eq!(cpu.vf() == 1, lit_by_first);
    }
}

#[test]
fn draw_reports_no_collision_when_first_draw_lit_nothing() {
    // Every covered cell is lit already: the first draw only clears.
    let mut cpu = cpu_with_sprite(0x300, &[0xFF]);
    for k in 0..8 {
        cpu.buf[k] = 1;
    }
    assert_eq!(cpu.draw(0, 0, 1), Ok(()));
    assert_eq!(cpu.vf(), 1);
    assert!(cpu.buf.iter().all(|cell| *cell == 0));
    assert_eq!(cpu.draw(0, 0, 1), Ok(()));
    assert_eq!(cpu.vf(), 0);
    assert_eq!(lit_cells(&cpu).len(), 8);
}

#[test]
fn draw_start_position_wraps() {
    let mut cpu = cpu_with_sprite(0x300, &[0x80]);
    cpu.set6xnn(0, 64 + 3);
    cpu.set6xnn(1, 32 + 1);
    assert_eq!(cpu.draw(0, 1, 1), Ok(()));
    assert_eq!(lit_cells(&cpu), vec![(3, 1)]);
}

#[test]
fn draw_clips_at_the_right_edge() {
    let mut cpu = cpu_with_sprite(0x300, &[0xFF, 0xFF]);
    cpu.set6xnn(0, 60);
    cpu.set6xnn(1, 10);
    assert_eq!(cpu.draw(0, 1, 2), Ok(()));
    assert_eq!(
        lit_cells(&cpu),
        vec![(60, 10), (61, 10), (62, 10), (63, 10), (60, 11), (61, 11), (62, 11), (63, 11)]
    );
    assert_eq!(cpu.vf(), 0);
}

#[test]
fn draw_clips_at_the_bottom_edge() {
    let mut cpu = cpu_with_sprite(0x300, &[0x80, 0x80, 0x80, 0x80, 0x80]);
    cpu.set6xnn(0, 63);
    cpu.set6xnn(1, 30);
    assert_eq!(cpu.draw(0, 1, 5), Ok(()));
    assert_eq!(lit_cells(&cpu), vec![(63, 30), (63, 31)]);
}

#[test]
fn draw_bits_go_from_most_to_least_significant() {
    let mut cpu = cpu_with_sprite(0x300, &[0b1000_0001, 0b0100_0000]);
    cpu.set6xnn(0, 8);
    cpu.set6xnn(1, 2);
    assert_eq!(cpu.draw(0, 1, 2), Ok(()));
    assert_eq!(lit_cells(&cpu), vec![(8, 2), (15, 2), (9, 3)]);
}

#[test]
fn draw_collision_that_is_clipped_away_does_not_count() {
    let mut cpu = cpu_with_sprite(0x300, &[0x0F]);
    cpu.buf[0] = 1;
    cpu.set6xnn(0, 60);
    assert_eq!(cpu.draw(0, 1, 1), Ok(()));
    assert_eq!(cpu.vf(), 0);
    assert_eq!(lit_cells(&cpu), vec![(0, 0)]);
}

#[test]
fn draw_of_no_rows_clears_vf_only() {
    let mut cpu = cpu_with_sprite(0x300, &[0xFF]);
    cpu.set6xnn(0xF, 1);
    cpu.buf[5] = 1;
    assert_eq!(cpu.draw(0, 1, 0), Ok(()));
    assert_eq!(cpu.vf(), 0);
    assert_eq!(lit_cells(&cpu), vec![(5, 0)]);
    cpu.i_reg = 0xFFFF;
    assert_eq!(cpu.draw(0, 1, 0), Ok(()));
}

#[test]
fn draw_reads_vf_as_coordinate_before_writing_it() {
    let mut cpu = cpu_with_sprite(0x300, &[0x80]);
    cpu.set6xnn(0xF, 9);
    cpu.set6xnn(1, 4);
    assert_eq!(cpu.draw(0xF, 1, 1), Ok(()));
    assert_eq!(lit_cells(&cpu), vec![(9, 4)]);
    assert_eq!(cpu.vf(), 0);
}

#[test]
fn draw_sprite_beyond_memory_is_refused() {
    let mut cpu = CPU::new();
    cpu.mem[4093] = 0xFF;
    cpu.mem[4094] = 0xFF;
    cpu.mem[4095] = 0xFF;
    cpu.set6xnn(0xF, 3);
    cpu.i_reg = 4093;
    assert_eq!(cpu.draw(0, 0, 3), Ok(()));
    assert_eq!(lit_cells(&cpu).len(), 24);
    assert_eq!(cpu.vf(), 0);

    let before = cpu.buf;
    cpu.set6xnn(0xF, 3);
    cpu.i_reg = 4094;
    assert_eq!(cpu.draw(0, 0, 3), Err(Chip8Error::MemoryOutOfRange { addr: 4096 }));
    assert_eq!(cpu.buf, before);
    assert_eq!(cpu.vf(), 3);

    cpu.i_reg = 4200;
    assert_eq!(cpu.drwdxyn(0, 0, 1), Err(Chip8Error::MemoryOutOfRange { addr: 4200 }));
    assert_eq!(cpu.draw(0, 0, usize::MAX), Err(Chip8Error::MemoryOutOfRange { addr: 4200 }));
    assert_eq!(cpu.buf, before);
}

#[test]
fn draw_leaves_memory_and_registers_alone() {
    let mut cpu = cpu_with_sprite(0x300, &ZERO_GLYPH);
    cpu.set6xnn(0, 10);
    cpu.set6xnn(1, 20);
    let mem = cpu.mem;
    assert_eq!(cpu.draw(0, 1, 5), Ok(()));
    assert_eq!(cpu.mem, mem);
    assert_eq!(cpu.i_reg, 0x300);
    assert_eq!(cpu.registers[0], 10);
    assert_eq!(cpu.registers[1], 20);
    assert_eq!(cpu.pc, 0x200);
}

#[test]
fn clear_darkens_every_cell() {
    let mut cpu = CPU::new();
    for k in 0..2048 {
        cpu.buf[k] = 1;
    }
    cpu.set6xnn(0xF, 1);
    cpu.clear();
    assert!(cpu.buf.iter().all(|cell| *cell == 0));
    assert_eq!(cpu.vf(), 1);

    cpu.buf[100] = 1;
    cpu.cls00e0();
    assert!(cpu.buf.iter().all(|cell| *cell == 0));
}

#[test]
fn update_renders_rows_of_sixty_four_cells() {
    let mut cpu = CPU::new();
    cpu.buf[0] = 1;
    cpu.buf[63] = 1;
    cpu.buf[64 + 2] = 1;
    cpu.buf[31 * 64 + 63] = 1;
    let frame = cpu.update();
    let lines: Vec<&str> = frame.split('\n').collect();
    assert_eq!(lines.len(), 33);
    assert_eq!(lines[32], "");
    for line in &lines[..32] {
        assert_eq!(line.chars().count(), 64);
    }
    let row = |lit: &[usize]| -> String {
        (0..64).map(|c| if lit.contains(&c) { '\u{25A0}' } else { ' ' }).collect()
    };
    assert_eq!(lines[0], row(&[0, 63]));
    assert_eq!(lines[1], row(&[2]));
    assert_eq!(lines[2], row(&[]));
    assert_eq!(lines[31], row(&[63]));
    assert_eq!(frame.chars().count(), 32 * 65);
}

#[test]
fn update_of_a_dark_display_is_blank() {
    let cpu = CPU::new();
    let frame = cpu.update();
    assert_eq!(frame.len(), 32 * 65);
    assert!(frame.chars().all(|c| c == ' ' || c == '\n'));
}
