use chip8_core::Emu;
use chip8_core::EmuError;

#[test]
fn set_register_then_read_yields_value() {
    let mut e = Emu::new();
    e.op_6xnn(3, 42);
    assert_eq!(e.v_reg[3], 42);
    for r in 0..16u8 {
        e.op_6xnn(r, 0xAB);
        assert_eq!(e.v_reg[r as usize], 0xAB);
    }
}

#[test]
fn add_with_carry_overflowing() {
    let mut e = Emu::new();
    e.op_6xnn(1, 200);
    e.op_6xnn(2, 100);
    e.op_8xy4(1, 2);
    assert_eq!(e.v_reg[1], 44); // (200 + 100) mod 256
    assert_eq!(e.v_reg[15], 1);
}

#[test]
fn add_with_carry_not_overflowing() {
    let mut e = Emu::new();
    e.op_6xnn(1, 20);
    e.op_6xnn(2, 30);
    e.op_8xy4(1, 2);
    assert_eq!(e.v_reg[1], 50);
    assert_eq!(e.v_reg[15], 0);
}

#[test]
fn subtract_without_borrow() {
    let mut e = Emu::new();
    e.op_6xnn(1, 50);
    e.op_6xnn(2, 20);
    e.op_8xy5(1, 2);
    assert_eq!(e.v_reg[1], 30);
    assert_eq!(e.v_reg[15], 1);
}

#[test]
fn subtract_with_borrow() {
    let mut e = Emu::new();
    e.op_6xnn(1, 20);
    e.op_6xnn(2, 50);
    e.op_8xy5(1, 2);
    assert_eq!(e.v_reg[1], 226); // (20 - 50) mod 256
    assert_eq!(e.v_reg[15], 0);
}

#[test]
fn subtract_reverse_flags() {
    let mut e = Emu::new();
    e.op_6xnn(1, 20);
    e.op_6xnn(2, 50);
    e.op_8xy7(1, 2); // v1 = v2 - v1
    assert_eq!(e.v_reg[1], 30);
    assert_eq!(e.v_reg[15], 1);
    e.op_6xnn(3, 9);
    e.op_6xnn(4, 5);
    e.op_8xy7(3, 4); // v3 = 5 - 9
    assert_eq!(e.v_reg[3], 252);
    assert_eq!(e.v_reg[15], 0);
}

#[test]
fn clear_display_leaves_all_cells_false() {
    let mut e = Emu::new();
    // Put one pixel up first through a draw.
    e.load(&[0x80]).unwrap();
    e.op_annn(0x200);
    e.op_6xnn(0, 0);
    e.op_6xnn(1, 0);
    e.op_dxyn(0, 1, 1).unwrap();
    assert!(e.get_display().iter().any(|p| *p));
    e.op_00e0();
    let d = e.get_display();
    assert_eq!(d.len(), 64 * 32);
    assert!(d.iter().all(|p| !*p));
}

#[test]
fn jump_then_tick_fetches_from_target() {
    let mut e = Emu::new();
    // 0x200: jump 0x206; 0x206: set v1 to 5.
    e.load(&[0x12, 0x06, 0x00, 0x00, 0x00, 0x00, 0x61, 0x05]).unwrap();
    e.tick().unwrap();
    assert_eq!(e.pc, 0x206);
    e.tick().unwrap();
    assert_eq!(e.v_reg[1], 5);
    assert_eq!(e.pc, 0x208);
}

#[test]
fn plain_instruction_advances_two_bytes() {
    let mut e = Emu::new();
    e.load(&[0x60, 0x07]).unwrap();
    e.tick().unwrap();
    assert_eq!(e.pc, 0x202);
    assert_eq!(e.v_reg[0], 7);
}

#[test]
fn draw_same_single_bit_sprite_twice_toggles_pixel() {
    let mut e = Emu::new();
    e.load(&[0x80]).unwrap(); // one sprite row, leftmost bit set
    e.op_annn(0x200);
    e.op_6xnn(0, 10);
    e.op_6xnn(1, 5);
    e.op_dxyn(0, 1, 1).unwrap();
    assert!(e.screen[10 + 64 * 5]);
    assert_eq!(e.v_reg[15], 0);
    e.op_dxyn(0, 1, 1).unwrap();
    assert!(!e.screen[10 + 64 * 5]);
    assert_eq!(e.v_reg[15], 1);
}

#[test]
fn draw_wraps_at_screen_edges() {
    let mut e = Emu::new();
    e.load(&[0x01]).unwrap(); // rightmost sprite bit (column 7)
    e.op_annn(0x200);
    e.op_6xnn(0, 60); // 60 + 7 = 67, wraps to column 3
    e.op_6xnn(1, 31);
    e.op_dxyn(0, 1, 1).unwrap();
    assert!(e.screen[3 + 64 * 31]);
}

#[test]
fn bcd_store_writes_decimal_digits() {
    let mut e = Emu::new();
    e.op_6xnn(2, 231);
    e.op_annn(0x300);
    e.op_fx33(2).unwrap();
    assert_eq!(e.ram[0x300], 2);
    assert_eq!(e.ram[0x301], 3);
    assert_eq!(e.ram[0x302], 1);
    e.op_6xnn(3, 7);
    e.op_fx33(3).unwrap();
    assert_eq!(e.ram[0x300], 0);
    assert_eq!(e.ram[0x301], 0);
    assert_eq!(e.ram[0x302], 7);
}

#[test]
fn block_store_then_load_round_trips() {
    let mut e = Emu::new();
    for r in 0..6u8 {
        e.op_6xnn(r, r + 1);
    }
    e.op_annn(0x400);
    e.op_fx55(5).unwrap();
    let mut t = Emu::new();
    t.ram = e.ram.clone();
    t.op_annn(0x400);
    t.op_fx65(5).unwrap();
    for r in 0..6usize {
        assert_eq!(t.v_reg[r], r as u8 + 1);
    }
    for r in 6..16usize {
        assert_eq!(t.v_reg[r], 0);
    }
}

#[test]
fn unknown_opcode_is_an_error_and_leaves_state() {
    let mut e = Emu::new();
    e.load(&[0xF0, 0xFF]).unwrap();
    assert_eq!(e.tick(), Err(EmuError::UnknownOpcode));
    assert_eq!(e.pc, 0x200);
}

#[test]
fn return_on_empty_stack_is_an_error() {
    let mut e = Emu::new();
    e.load(&[0x00, 0xEE]).unwrap();
    assert_eq!(e.tick(), Err(EmuError::StackUnderflow));
}

#[test]
fn seventeenth_nested_call_is_an_error() {
    let mut e = Emu::new();
    for _ in 0..16 {
        e.op_2nnn(0x300).unwrap();
    }
    assert_eq!(e.op_2nnn(0x300), Err(EmuError::StackOverflow));
}

#[test]
fn call_then_return_restores_counter() {
    let mut e = Emu::new();
    e.op_2nnn(0x300).unwrap();
    assert_eq!(e.pc, 0x300);
    e.op_00ee().unwrap();
    assert_eq!(e.pc, 0x200);
}

#[test]
fn bcd_past_end_of_memory_is_an_error() {
    let mut e = Emu::new();
    e.op_annn(0xFFF);
    assert_eq!(e.op_fx33(0), Err(EmuError::OutOfBounds));
}

#[test]
fn fetch_past_end_of_memory_is_an_error() {
    let mut e = Emu::new();
    e.op_1nnn(0xFFF);
    assert_eq!(e.tick(), Err(EmuError::OutOfBounds));
}

#[test]
fn oversized_program_is_rejected_whole() {
    let mut e = Emu::new();
    let too_big = vec![0u8; 3585];
    assert_eq!(e.load(&too_big), Err(EmuError::ProgramTooLarge));
    assert!(e.ram[0x200..].iter().all(|b| *b == 0));
    let just_fits = vec![0xAAu8; 3584];
    assert_eq!(e.load(&just_fits), Ok(()));
    assert_eq!(e.ram[0xFFF], 0xAA);
}

#[test]
fn sound_timer_edge_fires_exactly_on_one_to_zero() {
    let mut e = Emu::new();
    e.op_6xnn(0, 2);
    e.op_fx18(0); // sound timer = 2
    assert!(!e.tick_timers());
    assert_eq!(e.st, 1);
    assert!(e.tick_timers());
    assert_eq!(e.st, 0);
    assert!(!e.tick_timers());
    assert_eq!(e.st, 0);
}

#[test]
fn delay_timer_counts_down_and_reads_back() {
    let mut e = Emu::new();
    e.op_6xnn(0, 3);
    e.op_fx15(0); // delay timer = 3
    e.tick_timers();
    e.op_fx07(5);
    assert_eq!(e.v_reg[5], 2);
    e.tick_timers();
    e.tick_timers();
    e.tick_timers(); // stays at zero
    assert_eq!(e.dt, 0);
}

#[test]
fn keypress_sets_cell_and_ignores_out_of_range() {
    let mut e = Emu::new();
    e.keypress(3, true);
    assert!(e.keys[3]);
    e.keypress(16, true); // ignored, no panic
    assert!(e.keys.iter().filter(|k| **k).count() == 1);
    e.keypress(3, false);
    assert!(!e.keys[3]);
}

#[test]
fn skip_if_equal_immediate() {
    let mut e = Emu::new();
    e.op_6xnn(4, 9);
    e.op_3xnn(4, 9);
    assert_eq!(e.pc, 0x202);
    e.op_3xnn(4, 8);
    assert_eq!(e.pc, 0x202);
    e.op_4xnn(4, 8);
    assert_eq!(e.pc, 0x204);
}

#[test]
fn skip_on_register_comparison() {
    let mut e = Emu::new();
    e.op_6xnn(1, 7);
    e.op_6xnn(2, 7);
    e.op_5xy0(1, 2);
    assert_eq!(e.pc, 0x202);
    e.op_9xy0(1, 2);
    assert_eq!(e.pc, 0x202);
    e.op_6xnn(2, 8);
    e.op_9xy0(1, 2);
    assert_eq!(e.pc, 0x204);
}

#[test]
fn wait_for_key_reexecutes_until_pressed() {
    let mut e = Emu::new();
    e.load(&[0xF0, 0x0A]).unwrap();
    e.tick().unwrap();
    assert_eq!(e.pc, 0x200); // no key: counter rewound
    e.tick().unwrap();
    assert_eq!(e.pc, 0x200);
    e.keypress(5, true);
    e.tick().unwrap();
    assert_eq!(e.pc, 0x202); // key seen: falls through
}

#[test]
fn skip_if_key_pressed_and_not_pressed() {
    let mut e = Emu::new();
    e.op_6xnn(0, 4);
    e.keypress(4, true);
    e.op_ex9e(0).unwrap();
    assert_eq!(e.pc, 0x202);
    e.op_exa1(0).unwrap();
    assert_eq!(e.pc, 0x202);
    e.keypress(4, false);
    e.op_exa1(0).unwrap();
    assert_eq!(e.pc, 0x204);
}

#[test]
fn key_test_with_register_past_keypad_is_an_error() {
    let mut e = Emu::new();
    e.op_6xnn(0, 200);
    assert_eq!(e.op_ex9e(0), Err(EmuError::OutOfBounds));
    assert_eq!(e.op_exa1(0), Err(EmuError::OutOfBounds));
}

#[test]
fn random_respects_mask() {
    let mut e = Emu::new();
    for _ in 0..50 {
        e.op_cxnn(4, 0x0F);
        assert_eq!(e.v_reg[4] & 0xF0, 0);
    }
    e.op_cxnn(4, 0x00);
    assert_eq!(e.v_reg[4], 0);
}

#[test]
fn add_immediate_wraps_and_keeps_flag() {
    let mut e = Emu::new();
    e.op_6xnn(15, 9);
    e.op_6xnn(1, 250);
    e.op_7xnn(1, 10);
    assert_eq!(e.v_reg[1], 4);
    assert_eq!(e.v_reg[15], 9); // flag untouched
}

#[test]
fn bitwise_and_copy_operations() {
    let mut e = Emu::new();
    e.op_6xnn(1, 0b1100);
    e.op_6xnn(2, 0b1010);
    e.op_8xy1(1, 2);
    assert_eq!(e.v_reg[1], 0b1110);
    e.op_6xnn(1, 0b1100);
    e.op_8xy2(1, 2);
    assert_eq!(e.v_reg[1], 0b1000);
    e.op_6xnn(1, 0b1100);
    e.op_8xy3(1, 2);
    assert_eq!(e.v_reg[1], 0b0110);
    e.op_8xy0(1, 2);
    assert_eq!(e.v_reg[1], 0b1010);
}

#[test]
fn shifts_report_the_bit_shifted_out() {
    let mut e = Emu::new();
    e.op_6xnn(1, 5);
    e.op_8xy6(1);
    assert_eq!(e.v_reg[1], 2);
    assert_eq!(e.v_reg[15], 1);
    e.op_6xnn(2, 0x81);
    e.op_8xye(2);
    assert_eq!(e.v_reg[2], 2);
    assert_eq!(e.v_reg[15], 1);
}

#[test]
fn jump_plus_register_zero() {
    let mut e = Emu::new();
    e.op_6xnn(0, 4);
    e.op_bnnn(0x300);
    assert_eq!(e.pc, 0x304);
}

#[test]
fn index_register_addition_wraps() {
    let mut e = Emu::new();
    e.i_reg = 0xFFFF;
    e.op_6xnn(0, 5);
    e.op_fx1e(0);
    assert_eq!(e.i_reg, 4);
}

#[test]
fn glyph_index_is_five_bytes_per_digit() {
    let mut e = Emu::new();
    e.op_6xnn(0, 0xA);
    e.op_fx29(0);
    assert_eq!(e.i_reg, 50);
    // Only the low nibble selects the glyph: 200 = 0xC8 picks digit 8.
    e.op_6xnn(2, 200);
    e.op_fx29(2);
    assert_eq!(e.i_reg, 40);
    // The glyph rows for digit 0 sit at the bottom of memory.
    e.op_6xnn(1, 0);
    e.op_fx29(1);
    assert_eq!(e.i_reg, 0);
    assert_eq!(e.ram[0], 0xF0);
    assert_eq!(e.ram[4], 0xF0);
}

#[test]
fn reset_restores_the_initial_state() {
    let mut e = Emu::new();
    e.load(&[0x60, 0x07, 0x12, 0x00]).unwrap();
    e.tick().unwrap();
    e.op_annn(0x321);
    e.op_6xnn(0, 2);
    e.op_fx18(0);
    e.op_fx15(0);
    e.keypress(2, true);
    e.op_2nnn(0x400).unwrap();
    e.reset();
    let fresh = Emu::new();
    assert_eq!(e.pc, fresh.pc);
    assert_eq!(e.ram, fresh.ram);
    assert_eq!(e.screen, fresh.screen);
    assert_eq!(e.v_reg, fresh.v_reg);
    assert_eq!(e.i_reg, fresh.i_reg);
    assert_eq!(e.sp, fresh.sp);
    assert_eq!(e.stack, fresh.stack);
    assert_eq!(e.keys, fresh.keys);
    assert_eq!(e.dt, fresh.dt);
    assert_eq!(e.st, fresh.st);
}

#[test]
fn new_machine_has_font_loaded_and_rest_zero() {
    let e = Emu::new();
    assert_eq!(e.pc, 0x200);
    assert_eq!(e.ram.len(), 4096);
    assert_eq!(e.ram[0], 0xF0); // first row of glyph 0
    assert_eq!(e.ram[79], 0x80); // last row of glyph F
    assert!(e.ram[80..].iter().all(|b| *b == 0));
    assert_eq!(e.get_display().len(), 2048);
    assert!(e.get_display().iter().all(|p| !*p));
}

#[test]
fn draw_with_tall_sprite_reads_rows_in_order() {
    let mut e = Emu::new();
    e.load(&[0xC0, 0x80]).unwrap(); // two rows: bits 0,1 then bit 0
    e.op_annn(0x200);
    e.op_6xnn(0, 0);
    e.op_6xnn(1, 0);
    e.op_dxyn(0, 1, 2).unwrap();
    assert!(e.screen[0]);
    assert!(e.screen[1]);
    assert!(!e.screen[2]);
    assert!(e.screen[64]);
    assert!(!e.screen[65]);
    assert_eq!(e.v_reg[15], 0);
}

#[test]
fn draw_past_end_of_memory_is_an_error() {
    let mut e = Emu::new();
    e.op_annn(0xFFF);
    assert_eq!(e.op_dxyn(0, 1, 2), Err(EmuError::OutOfBounds));
}

#[test]
fn block_store_past_end_of_memory_is_an_error() {
    let mut e = Emu::new();
    e.op_annn(0xFFF);
    assert_eq!(e.op_fx55(5), Err(EmuError::OutOfBounds));
    assert_eq!(e.op_fx65(5), Err(EmuError::OutOfBounds));
}
