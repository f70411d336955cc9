use chip8::error::Chip8Error;
use chip8::interpreter::Interpreter;

fn machine_with_program(program: &[u8]) -> Interpreter {
    let mut machine = Interpreter::default();
    machine.load_program_from_bytes(program).unwrap();
    machine
}

fn run_steps(machine: &mut Interpreter, steps: usize) {
    for _ in 0..steps {
        assert!(machine.execute_current_instruction());
    }
}

#[test]
fn loading_fills_memory_at_program_start() {
    let machine = machine_with_program(&[0x12, 0x34, 0x56]);
    assert_eq!(machine.memory()[0x200], 0x12);
    assert_eq!(machine.memory()[0x201], 0x34);
    assert_eq!(machine.memory()[0x202], 0x56);
    assert_eq!(machine.memory()[0x203], 0x00);
    assert_eq!(machine.program_counter(), 0x200);
}

#[test]
fn load_exact_capacity_succeeds() {
    let mut machine = Interpreter::default();
    let program = vec![0xAB; 4096 - 0x200];
    assert!(machine.load_program_from_bytes(&program).is_ok());
    assert_eq!(machine.memory()[0x200], 0xAB);
    assert_eq!(machine.memory()[4095], 0xAB);
}

#[test]
fn load_oversized_fails_without_write() {
    let mut machine = Interpreter::default();
    let program = vec![0xCD; 4096 - 0x200 + 1];
    let result = machine.load_program_from_bytes(&program);
    assert!(matches!(result, Err(Chip8Error::ProgramTooLarge)));
    assert_eq!(machine.memory()[0x200], 0x00);
    assert_eq!(machine.memory()[4095], 0x00);
}

#[test]
fn cls_clears_display() {
    let mut machine = machine_with_program(&[0xA0, 0x50, 0xD0, 0x05, 0x00, 0xE0]);
    run_steps(&mut machine, 2);
    assert!(machine.display()[0]);
    run_steps(&mut machine, 1);
    for pixel in machine.display().iter() {
        assert!(!pixel);
    }
}

#[test]
fn load_then_add_wraps_vx_and_keeps_vf() {
    let mut machine = machine_with_program(&[0x63, 0x14, 0x73, 0xF0]);
    run_steps(&mut machine, 2);
    assert_eq!(machine.variable_register()[0x3], 0x04);
    assert_eq!(machine.variable_register()[0xF], 0x00);
}

#[test]
fn add_with_carry_sets_flag() {
    let mut machine = machine_with_program(&[0x61, 0xFF, 0x62, 0x01, 0x81, 0x24]);
    run_steps(&mut machine, 3);
    assert_eq!(machine.variable_register()[0x1], 0x00);
    assert_eq!(machine.variable_register()[0xF], 0x01);
}

#[test]
fn add_without_carry_clears_flag() {
    let mut machine = machine_with_program(&[0x61, 0x01, 0x62, 0x01, 0x81, 0x24]);
    run_steps(&mut machine, 3);
    assert_eq!(machine.variable_register()[0x1], 0x02);
    assert_eq!(machine.variable_register()[0xF], 0x00);
}

#[test]
fn sub_without_borrow_sets_flag() {
    let mut machine = machine_with_program(&[0x61, 0x05, 0x62, 0x03, 0x81, 0x25]);
    run_steps(&mut machine, 3);
    assert_eq!(machine.variable_register()[0x1], 0x02);
    assert_eq!(machine.variable_register()[0xF], 0x01);
}

#[test]
fn sub_with_borrow_clears_flag() {
    let mut machine = machine_with_program(&[0x61, 0x03, 0x62, 0x05, 0x81, 0x25]);
    run_steps(&mut machine, 3);
    assert_eq!(machine.variable_register()[0x1], 0xFE);
    assert_eq!(machine.variable_register()[0xF], 0x00);
}

#[test]
fn draw_twice_restores_and_collides() {
    let mut machine = machine_with_program(&[0xA0, 0x50, 0xD0, 0x05, 0xD0, 0x05]);
    run_steps(&mut machine, 2);
    assert_eq!(machine.variable_register()[0xF], 0x00);
    assert!(machine.display().iter().any(|&pixel| pixel));
    run_steps(&mut machine, 1);
    assert_eq!(machine.variable_register()[0xF], 0x01);
    for pixel in machine.display().iter() {
        assert!(!pixel);
    }
}

#[test]
fn draw_wraps_at_right_edge() {
    let mut machine = machine_with_program(&[0x60, 0x3F, 0x61, 0x00, 0xA0, 0x50, 0xD0, 0x11]);
    run_steps(&mut machine, 4);
    // The first font glyph row is 0xF0: four lit bits on columns 63, 0, 1, 2.
    assert!(machine.display()[63]);
    assert!(machine.display()[0]);
    assert!(machine.display()[1]);
    assert!(machine.display()[2]);
    assert!(!machine.display()[3]);
}

#[test]
fn store_load_round_trip() {
    let mut machine = machine_with_program(&[
        0x60, 0x11, 0x61, 0x22, 0x62, 0x33, 0xA3, 0x00, 0xF2, 0x55, 0x60, 0x00, 0x61, 0x00, 0x62,
        0x00, 0xF2, 0x65,
    ]);
    run_steps(&mut machine, 9);
    assert_eq!(machine.variable_register()[0x0], 0x11);
    assert_eq!(machine.variable_register()[0x1], 0x22);
    assert_eq!(machine.variable_register()[0x2], 0x33);
    assert_eq!(machine.memory()[0x300], 0x11);
    assert_eq!(machine.memory()[0x301], 0x22);
    assert_eq!(machine.memory()[0x302], 0x33);
    assert_eq!(machine.address_register(), 0x300);
}

#[test]
fn wait_for_key_spins_until_a_key_comes() {
    let mut machine = machine_with_program(&[0xF0, 0x0A]);
    assert_eq!(machine.program_counter(), 0x200);
    run_steps(&mut machine, 1);
    assert_eq!(machine.program_counter(), 0x200);
    machine.set_key(5, true);
    run_steps(&mut machine, 1);
    assert_eq!(machine.variable_register()[0x0], 5);
    assert_eq!(machine.program_counter(), 0x202);
}

#[test]
fn wait_for_key_picks_lowest_pressed() {
    let mut machine = machine_with_program(&[0xF0, 0x0A]);
    machine.set_key(7, true);
    machine.set_key(3, true);
    run_steps(&mut machine, 1);
    assert_eq!(machine.variable_register()[0x0], 3);
}

#[test]
fn call_then_return_lands_after_the_call() {
    let mut program = vec![0u8; 0x102];
    program[0x000] = 0x23;
    program[0x001] = 0x00;
    program[0x100] = 0x00;
    program[0x101] = 0xEE;
    let mut machine = machine_with_program(&program);
    run_steps(&mut machine, 1);
    assert_eq!(machine.program_counter(), 0x300);
    assert_eq!(machine.call_stack_index(), 1);
    run_steps(&mut machine, 1);
    assert_eq!(machine.program_counter(), 0x202);
    assert_eq!(machine.call_stack_index(), 0);
}

#[test]
fn random_with_zero_mask_writes_zero() {
    let mut machine = machine_with_program(&[0xC5, 0x00]);
    run_steps(&mut machine, 1);
    assert_eq!(machine.variable_register()[0x5], 0x00);
}

#[test]
fn random_is_deterministic_per_seed() {
    let mut first = machine_with_program(&[0xC5, 0xFF]);
    let mut second = machine_with_program(&[0xC5, 0xFF]);
    run_steps(&mut first, 1);
    run_steps(&mut second, 1);
    assert_eq!(first.variable_register()[0x5], second.variable_register()[0x5]);
}

#[test]
fn call_on_full_stack_halts() {
    let mut machine = machine_with_program(&[0x22, 0x00]);
    for _ in 0..16 {
        assert!(machine.execute_current_instruction());
        assert_eq!(machine.program_counter(), 0x200);
    }
    assert_eq!(machine.call_stack_index(), 16);
    assert!(!machine.execute_current_instruction());
    assert_eq!(machine.program_counter(), 0x200);
    assert_eq!(machine.call_stack_index(), 16);
}

#[test]
fn return_on_empty_stack_halts() {
    let mut machine = machine_with_program(&[0x00, 0xEE]);
    assert!(!machine.execute_current_instruction());
    assert_eq!(machine.program_counter(), 0x200);
}

#[test]
fn fetch_past_memory_halts() {
    let mut machine = Interpreter::builder().program_start(0xFFF).build();
    assert!(!machine.execute_current_instruction());
    assert_eq!(machine.program_counter(), 0xFFF);
}

#[test]
fn draw_reading_past_memory_halts() {
    let mut machine = machine_with_program(&[0xAF, 0xFF, 0xD0, 0x05]);
    run_steps(&mut machine, 1);
    assert!(!machine.execute_current_instruction());
    assert_eq!(machine.program_counter(), 0x202);
    assert!(machine.display().iter().all(|&pixel| !pixel));
}

#[test]
fn key_skip_with_bad_register_halts() {
    let mut machine = machine_with_program(&[0x60, 0x10, 0xE0, 0x9E]);
    run_steps(&mut machine, 1);
    assert!(!machine.execute_current_instruction());
    assert_eq!(machine.program_counter(), 0x202);
}

#[test]
fn unknown_opcode_is_counted_and_skipped() {
    let mut machine = machine_with_program(&[0xFF, 0xFF, 0x0A, 0xBC]);
    assert_eq!(machine.unknown_opcode_count(), 0);
    run_steps(&mut machine, 2);
    assert_eq!(machine.unknown_opcode_count(), 2);
    assert_eq!(machine.program_counter(), 0x204);
}

#[test]
fn shift_right_reads_vx_by_default() {
    let mut machine = machine_with_program(&[0x61, 0x05, 0x81, 0x26]);
    run_steps(&mut machine, 2);
    assert_eq!(machine.variable_register()[0x1], 0x02);
    assert_eq!(machine.variable_register()[0xF], 0x01);
}

#[test]
fn shift_quirk_reads_vy() {
    let mut machine = Interpreter::builder().shift_reads_y(true).build();
    machine
        .load_program_from_bytes(&[0x61, 0x00, 0x62, 0x05, 0x81, 0x26])
        .unwrap();
    run_steps(&mut machine, 3);
    assert_eq!(machine.variable_register()[0x1], 0x02);
    assert_eq!(machine.variable_register()[0xF], 0x01);
}

#[test]
fn shift_left_carries_top_bit() {
    let mut machine = machine_with_program(&[0x61, 0x81, 0x81, 0x2E]);
    run_steps(&mut machine, 2);
    assert_eq!(machine.variable_register()[0x1], 0x02);
    assert_eq!(machine.variable_register()[0xF], 0x01);
}

#[test]
fn jump_offset_uses_vx_by_default() {
    let mut machine = machine_with_program(&[0x63, 0x10, 0xB3, 0x00]);
    run_steps(&mut machine, 2);
    assert_eq!(machine.program_counter(), 0x310);
}

#[test]
fn jump_offset_quirk_uses_v0() {
    let mut machine = Interpreter::builder().use_variable_offset(false).build();
    machine
        .load_program_from_bytes(&[0x60, 0x08, 0x63, 0x10, 0xB3, 0x00])
        .unwrap();
    run_steps(&mut machine, 3);
    assert_eq!(machine.program_counter(), 0x308);
}

#[test]
fn font_address_points_at_glyph() {
    let mut machine = machine_with_program(&[0x60, 0x03, 0xF0, 0x29]);
    run_steps(&mut machine, 2);
    assert_eq!(machine.address_register(), 0x50 + 3 * 5);
}

#[test]
fn bcd_stores_three_digits() {
    let mut machine = machine_with_program(&[0x60, 0xFE, 0xA3, 0x00, 0xF0, 0x33]);
    run_steps(&mut machine, 3);
    assert_eq!(machine.memory()[0x300], 2);
    assert_eq!(machine.memory()[0x301], 5);
    assert_eq!(machine.memory()[0x302], 4);
}

#[test]
fn add_to_address_register() {
    let mut machine = machine_with_program(&[0xA3, 0x00, 0x60, 0x21, 0xF0, 0x1E]);
    run_steps(&mut machine, 3);
    assert_eq!(machine.address_register(), 0x321);
}

#[test]
fn skip_if_key_pressed() {
    let mut machine = machine_with_program(&[0x60, 0x07, 0xE0, 0x9E]);
    machine.set_key(7, true);
    run_steps(&mut machine, 2);
    assert_eq!(machine.program_counter(), 0x206);
}

#[test]
fn no_skip_if_key_not_pressed() {
    let mut machine = machine_with_program(&[0x60, 0x07, 0xE0, 0x9E]);
    run_steps(&mut machine, 2);
    assert_eq!(machine.program_counter(), 0x204);
}

#[test]
fn skip_if_key_not_pressed() {
    let mut machine = machine_with_program(&[0x60, 0x07, 0xE0, 0xA1]);
    run_steps(&mut machine, 2);
    assert_eq!(machine.program_counter(), 0x206);
}

#[test]
fn skip_families_compare_values_and_registers() {
    let mut machine = machine_with_program(&[0x60, 0x05, 0x30, 0x05]);
    run_steps(&mut machine, 2);
    assert_eq!(machine.program_counter(), 0x206);

    let mut machine = machine_with_program(&[0x60, 0x05, 0x40, 0x05]);
    run_steps(&mut machine, 2);
    assert_eq!(machine.program_counter(), 0x204);

    let mut machine = machine_with_program(&[0x60, 0x05, 0x61, 0x05, 0x50, 0x10]);
    run_steps(&mut machine, 3);
    assert_eq!(machine.program_counter(), 0x208);

    let mut machine = machine_with_program(&[0x60, 0x05, 0x61, 0x05, 0x90, 0x10]);
    run_steps(&mut machine, 3);
    assert_eq!(machine.program_counter(), 0x206);
}

#[test]
fn delay_timer_round_trips_through_registers() {
    let mut machine = machine_with_program(&[0x60, 0x09, 0xF0, 0x15, 0xF1, 0x07]);
    run_steps(&mut machine, 3);
    assert_eq!(machine.delay_timer(), 9);
    assert_eq!(machine.variable_register()[0x1], 9);
}

#[test]
fn timers_tick_at_sixty_hertz() {
    let mut machine = machine_with_program(&[0x60, 0x02, 0xF0, 0x15, 0xF0, 0x18]);
    run_steps(&mut machine, 3);
    assert_eq!(machine.delay_timer(), 2);
    assert_eq!(machine.sound_timer(), 2);

    // Less than one interval since the machine was built: no tick.
    assert!(!machine.update_timers(16_000_000));
    assert_eq!(machine.delay_timer(), 2);

    // A full interval: both timers tick and the beep is on.
    assert!(machine.update_timers(17_000_000));
    assert_eq!(machine.delay_timer(), 1);
    assert_eq!(machine.sound_timer(), 1);

    // Right after a tick nothing more happens.
    assert!(!machine.update_timers(17_000_001));
    assert_eq!(machine.delay_timer(), 1);

    // The last sound tick still beeps; afterwards silence at zero.
    assert!(machine.update_timers(40_000_000));
    assert_eq!(machine.sound_timer(), 0);
    assert!(!machine.update_timers(60_000_000));
    assert_eq!(machine.delay_timer(), 0);
    assert_eq!(machine.sound_timer(), 0);
}

#[test]
fn pacing_returns_the_remaining_delay() {
    let mut machine = Interpreter::default();
    let delay = machine.configuration().instruction_delay_nanos();
    assert_eq!(machine.instruction_pacing_wait_nanos(0), delay);
    assert_eq!(machine.instruction_pacing_wait_nanos(delay), 0);
    assert_eq!(
        machine.instruction_pacing_wait_nanos(delay + delay / 2),
        delay - delay / 2
    );
}

#[test]
fn keypad_accessors_agree() {
    let mut machine = Interpreter::default();
    machine.keypad_mut()[3] = true;
    assert!(machine.keypad()[3]);
    machine.set_key(3, false);
    machine.set_key(4, true);
    assert!(!machine.keypad()[3]);
    assert!(machine.keypad()[4]);
}

#[test]
fn increment_on_store_quirk_moves_address_register() {
    let mut machine = Interpreter::builder().increment_on_store(true).build();
    machine
        .load_program_from_bytes(&[0xA3, 0x00, 0xF1, 0x55])
        .unwrap();
    run_steps(&mut machine, 2);
    assert_eq!(machine.address_register(), 0x302);
}

#[test]
fn builder_defaults_are_the_documented_ones() {
    let machine = Interpreter::default();
    let configuration = machine.configuration();
    assert_eq!(configuration.memory_size(), 4096);
    assert_eq!(configuration.program_start(), 0x200);
    assert_eq!(configuration.display_width(), 64);
    assert_eq!(configuration.display_height(), 32);
    assert_eq!(configuration.font_data_start(), 0x50);
    assert_eq!(configuration.font_data_end(), 0x9F);
    assert_eq!(configuration.instruction_delay_nanos(), 1_000_000_000 / 700);
    assert!(configuration.use_variable_offset());
    assert!(!configuration.increment_on_store());
    assert!(!configuration.shift_reads_y());
    assert!(configuration.key_held_plays_sound());
    assert!(!configuration.use_assembly_routine());
    assert_eq!(configuration.font_data()[0], 0xF0);
    assert_eq!(machine.memory()[0x50], 0xF0);
    assert_eq!(machine.display().len(), 64 * 32);
    assert_eq!(machine.call_stack_index(), 0);
    assert_eq!(machine.unknown_opcode_count(), 0);
}

#[test]
fn hires_display_has_the_configured_size() {
    let machine = Interpreter::builder().display_width(128).display_height(64).build();
    assert_eq!(machine.display().len(), 128 * 64);
    assert_eq!(machine.configuration().display_width(), 128);
}

#[test]
fn error_messages_name_their_cause() {
    let oversized = Chip8Error::ProgramTooLarge;
    assert!(oversized.message().contains("memory"));
    let io = Chip8Error::Io(String::from("file vanished"));
    assert!(io.message().contains("read"));
}
