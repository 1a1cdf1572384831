use chip8::timer::timer_at;
use chip8::CPU;

#[test]
fn timer_loses_one_unit_per_sixtieth_of_a_second() {
    assert_eq!(timer_at(69, 1000, 1000), 69);
    assert_eq!(timer_at(69, 1000, 1016), 69);
    assert_eq!(timer_at(69, 1000, 1017), 68);
    assert_eq!(timer_at(69, 1000, 1020), 68);
    assert_eq!(timer_at(69, 1000, 1033), 68);
    assert_eq!(timer_at(69, 1000, 1034), 67);
    assert_eq!(timer_at(69, 1000, 2000), 9);
    assert_eq!(timer_at(60, 0, 500), 30);
}

#[test]
fn timer_stops_at_zero() {
    assert_eq!(timer_at(5, 0, 83), 1);
    assert_eq!(timer_at(5, 0, 84), 0);
    assert_eq!(timer_at(5, 0, 10_000), 0);
    assert_eq!(timer_at(255, 0, 4249), 1);
    assert_eq!(timer_at(255, 0, 4250), 0);
    assert_eq!(timer_at(255, 0, 4266), 0);
    assert_eq!(timer_at(255, 0, 4267), 0);
    assert_eq!(timer_at(255, 7, u128::MAX), 0);
    assert_eq!(timer_at(0, 0, 0), 0);
}

#[test]
fn timer_ignores_a_clock_that_reads_earlier() {
    assert_eq!(timer_at(5, 100, 50), 5);
    assert_eq!(timer_at(5, u128::MAX, 0), 5);
}

#[test]
fn delay_timer_set_and_sampled() {
    let mut cpu = CPU::new();
    cpu.set_delay(10, 5_000);
    assert_eq!(cpu.delay_timer, 10);
    assert_eq!(cpu.last_dt_write, 5_000);
    assert_eq!(cpu.get_delay(5_000), 10);
    assert_eq!(cpu.get_delay(5_100), 4);
    assert_eq!(cpu.get_delay(5_200), 0);
    // The sound timer is a timer of its own.
    cpu.set_sound(3, 5_100);
    assert_eq!(cpu.get_delay(5_100), 4);
    assert_eq!(cpu.get_sound(5_100), 3);
    assert_eq!(cpu.get_sound(5_149), 1);
    assert_eq!(cpu.get_sound(5_150), 0);
}

#[test]
fn delay_instructions_store_vx_and_read_the_countdown() {
    let mut cpu = CPU::new();

    cpu.set6xnn(3, 69);
    cpu.ldfx15(3, 1_000);
    assert_eq!(cpu.delay_timer, 69);
    cpu.ldfx07(0, 1_020);
    assert_eq!(cpu.registers[0], 68);
    cpu.ldfx07(1, 1_000 + 1_150);
    assert_eq!(cpu.registers[1], 0);
    assert_eq!(cpu.registers[3], 69);
}

#[test]
fn sound_instruction_stores_vx() {
    let mut cpu = CPU::new();
    cpu.set6xnn(2, 30);
    cpu.ldfx18(2, 77);
    assert_eq!(cpu.sound_timer, 30);
    assert_eq!(cpu.last_st_write, 77);
    assert_eq!(cpu.get_sound(77 + 250), 15);
    assert_eq!(cpu.get_sound(77 + 500), 0);
}

#[test]
fn timers_of_a_new_machine() {
    let cpu = CPU::new();
    assert_eq!(cpu.delay_timer, 255);
    assert_eq!(cpu.sound_timer, 255);
    assert_eq!(cpu.last_dt_write, 0);
    assert_eq!(cpu.last_st_write, 0);
    // Against a clock that counts from the epoch both have long run out.
    assert_eq!(cpu.get_delay(1_700_000_000_000), 0);
    assert_eq!(cpu.get_sound(1_700_000_000_000), 0);
}
