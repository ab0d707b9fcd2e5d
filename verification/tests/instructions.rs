use chip8::Chip8;

#[test]
fn return_subroutine_with_empty_stack() {
    let mut cpu = Chip8::default();
    cpu.return_subroutine();
    assert_eq!(cpu.pc(), 0);
}

#[test]
fn return_subroutine_with_value() {
    let mut cpu = Chip8::default();
    cpu.set_stack(0, 0x300);
    cpu.return_subroutine();
    assert_eq!(cpu.pc(), 0x300);
}

#[test]
fn return_subroutine_with_maxvalue() {
    let mut cpu = Chip8::default();
    cpu.set_stack(0, 0xFFF);
    cpu.return_subroutine();
    assert_eq!(cpu.pc(), 0xFFF);
}

#[test]
fn return_subroutine_sp_not_zero() {
    let mut cpu = Chip8::default();
    cpu.set_stack(8, 0x500);
    cpu.set_sp(8);
    cpu.return_subroutine();
    assert_eq!(cpu.pc(), 0x500);
}

#[test]
fn lshift_sets_msb() {
    let mut cpu = Chip8::default();
    cpu.set_v(2, 0b10101010);
    cpu.vx_assign_lshift(&2);
    assert_eq!(cpu.v(0xF), 1);
    assert_eq!(cpu.v(2), 0b01010100);
}

#[test]
fn set_bcd_correctly() {
    let mut cpu = Chip8::default();
    cpu.set_v(4, 23);
    cpu.set_i(0x30);

    cpu.set_bcd(&4);
    assert_eq!(cpu.memory(0x30), 0);
    assert_eq!(cpu.memory(0x31), 2);
    assert_eq!(cpu.memory(0x32), 3);
}

#[test]
fn read_bcd_correctly() {
    let mut cpu = Chip8::default();
    cpu.set_v(4, 123);
    cpu.set_i(0x30);

    cpu.set_bcd(&4);
    assert_eq!(cpu.memory(0x30), 1);
    assert_eq!(cpu.memory(0x31), 2);
    assert_eq!(cpu.memory(0x32), 3);

    cpu.reg_load(&2);
    assert_eq!(cpu.v(0), 1);
    assert_eq!(cpu.v(1), 2);
    assert_eq!(cpu.v(2), 3);
}

#[test]
fn return_subroutine_moves_the_pointer_down_by_one() {
    let mut cpu = Chip8::default();
    cpu.set_sp(8);
    cpu.return_subroutine();
    assert_eq!(cpu.sp(), 7);
}

#[test]
fn return_subroutine_keeps_the_pointer_at_the_bottom() {
    let mut cpu = Chip8::default();
    cpu.return_subroutine();
    assert_eq!(cpu.sp(), 0);
}

#[test]
fn call_pushes_the_address_behind_the_call() {
    let mut cpu = Chip8::default();
    cpu.call_subroutine_at_nnn(&0x345);
    assert_eq!(cpu.pc(), 0x345);
    assert_eq!(cpu.sp(), 1);
    assert_eq!(cpu.stack(1), 0x202);
    assert_eq!(cpu.stack(0), 0);
}

#[test]
fn call_then_return_comes_back_behind_the_call() {
    for sp in 0..15u8 {
        let mut cpu = Chip8::default();
        cpu.set_sp(sp);
        cpu.set_pc(0x2A0);
        cpu.call_subroutine_at_nnn(&0x400);
        cpu.return_subroutine();
        assert_eq!(cpu.pc(), 0x2A2);
        assert_eq!(cpu.sp(), sp);
    }
}

#[test]
fn skip_if_vx_equals_nn_advances_by_four_or_two() {
    let mut cpu = Chip8::default();
    cpu.set_v(3, 5);
    cpu.skip_if_vx_equals_nn(&3, &5);
    assert_eq!(cpu.pc(), 0x204);

    let mut cpu = Chip8::default();
    cpu.set_v(3, 5);
    cpu.skip_if_vx_equals_nn(&3, &6);
    assert_eq!(cpu.pc(), 0x202);
}

#[test]
fn skip_if_vx_not_equal_nn_advances_by_four_or_two() {
    let mut cpu = Chip8::default();
    cpu.set_v(3, 5);
    cpu.skip_if_vx_not_equal_nn(&3, &6);
    assert_eq!(cpu.pc(), 0x204);

    let mut cpu = Chip8::default();
    cpu.set_v(3, 5);
    cpu.skip_if_vx_not_equal_nn(&3, &5);
    assert_eq!(cpu.pc(), 0x202);
}

#[test]
fn skip_if_vx_equals_vy_compares_registers() {
    let mut cpu = Chip8::default();
    cpu.set_v(1, 9);
    cpu.set_v(2, 9);
    cpu.skip_if_vx_equals_vy(&1, &2);
    assert_eq!(cpu.pc(), 0x204);
    cpu.set_v(2, 8);
    cpu.skip_if_vx_equals_vy(&1, &2);
    assert_eq!(cpu.pc(), 0x206);
}

#[test]
fn vx_equals_nn_loads_the_literal() {
    let mut cpu = Chip8::default();
    cpu.vx_equals_nn(&7, &0xAB);
    assert_eq!(cpu.v(7), 0xAB);
    assert_eq!(cpu.pc(), 0x202);
}

#[test]
fn vx_plus_equals_nn_wraps_and_leaves_the_flag() {
    let mut cpu = Chip8::default();
    cpu.set_v(0xF, 7);
    cpu.set_v(1, 250);
    cpu.vx_plus_equals_nn(&1, &10);
    assert_eq!(cpu.v(1), 4);
    assert_eq!(cpu.v(0xF), 7);
    cpu.vx_plus_equals_nn(&1, &10);
    assert_eq!(cpu.v(1), 14);
    assert_eq!(cpu.v(0xF), 7);
    assert_eq!(cpu.pc(), 0x204);
}

#[test]
fn bitwise_instructions_leave_the_flag() {
    let mut cpu = Chip8::default();
    cpu.set_v(0xF, 9);
    cpu.set_v(1, 0b1100);
    cpu.set_v(2, 0b1010);
    cpu.vx_assign_or_vy(&1, &2);
    assert_eq!(cpu.v(1), 0b1110);
    cpu.set_v(1, 0b1100);
    cpu.vx_assign_and_vy(&1, &2);
    assert_eq!(cpu.v(1), 0b1000);
    cpu.set_v(1, 0b1100);
    cpu.vx_assign_xor_vy(&1, &2);
    assert_eq!(cpu.v(1), 0b0110);
    cpu.vx_assign_vy(&1, &2);
    assert_eq!(cpu.v(1), 0b1010);
    assert_eq!(cpu.v(2), 0b1010);
    assert_eq!(cpu.v(0xF), 9);
    assert_eq!(cpu.pc(), 0x208);
}

#[test]
fn add_with_carry_for_all_bytes() {
    for a in 0..=255u8 {
        for b in 0..=255u8 {
            let mut cpu = Chip8::default();
            cpu.set_v(1, a);
            cpu.set_v(2, b);
            cpu.vx_assign_plus_vy(&1, &2);
            assert_eq!(cpu.v(1) as u32, (a as u32 + b as u32) % 256);
            assert_eq!(cpu.v(0xF) == 1, a as u32 + b as u32 > 255);
            assert!(cpu.v(0xF) <= 1);
            assert_eq!(cpu.v(2), b);
        }
    }
}

#[test]
fn add_with_carry_exact_values() {
    let mut cpu = Chip8::default();
    cpu.set_v(1, 200);
    cpu.set_v(2, 100);
    cpu.vx_assign_plus_vy(&1, &2);
    assert_eq!(cpu.v(1), 44);
    assert_eq!(cpu.v(0xF), 1);
    cpu.vx_assign_plus_vy(&1, &2);
    assert_eq!(cpu.v(1), 144);
    assert_eq!(cpu.v(0xF), 0);
    assert_eq!(cpu.pc(), 0x204);
}

#[test]
fn add_into_the_flag_register_keeps_the_sum() {
    let mut cpu = Chip8::default();
    cpu.set_v(0xF, 200);
    cpu.set_v(3, 100);
    cpu.vx_assign_plus_vy(&0xF, &3);
    assert_eq!(cpu.v(0xF), 44);
}

#[test]
fn add_of_the_flag_register_reads_it_before_the_carry() {
    let mut cpu = Chip8::default();
    cpu.set_v(0xF, 200);
    cpu.set_v(3, 100);
    cpu.vx_assign_plus_vy(&3, &0xF);
    assert_eq!(cpu.v(3), 44);
    assert_eq!(cpu.v(0xF), 1);
}

#[test]
fn sub_with_borrow_for_all_bytes() {
    for a in 0..=255u8 {
        for b in 0..=255u8 {
            let mut cpu = Chip8::default();
            cpu.set_v(1, a);
            cpu.set_v(2, b);
            cpu.vx_assign_minus_vy(&1, &2);
            assert_eq!(cpu.v(1) as i32, (a as i32 - b as i32).rem_euclid(256));
            assert_eq!(cpu.v(0xF) == 1, a >= b);
            assert!(cpu.v(0xF) <= 1);
        }
    }
}

#[test]
fn sub_exact_values() {
    let mut cpu = Chip8::default();
    cpu.set_v(1, 5);
    cpu.set_v(2, 7);
    cpu.vx_assign_minus_vy(&1, &2);
    assert_eq!(cpu.v(1), 254);
    assert_eq!(cpu.v(0xF), 0);
    cpu.vx_assign_minus_vy(&1, &2);
    assert_eq!(cpu.v(1), 247);
    assert_eq!(cpu.v(0xF), 1);
    cpu.set_v(1, 7);
    cpu.vx_assign_minus_vy(&1, &2);
    assert_eq!(cpu.v(1), 0);
    assert_eq!(cpu.v(0xF), 1);
}

#[test]
fn reversed_sub_for_all_bytes() {
    for a in 0..=255u8 {
        for b in 0..=255u8 {
            let mut cpu = Chip8::default();
            cpu.set_v(1, a);
            cpu.set_v(2, b);
            cpu.vx_assign_vy_minus_vx(&1, &2);
            assert_eq!(cpu.v(1) as i32, (b as i32 - a as i32).rem_euclid(256));
            assert_eq!(cpu.v(0xF) == 1, b >= a);
            assert_eq!(cpu.v(2), b);
        }
    }
}

#[test]
fn reversed_sub_exact_values() {
    let mut cpu = Chip8::default();
    cpu.set_v(1, 7);
    cpu.set_v(2, 5);
    cpu.vx_assign_vy_minus_vx(&1, &2);
    assert_eq!(cpu.v(1), 254);
    assert_eq!(cpu.v(0xF), 0);
}

#[test]
fn shifts_for_all_bytes() {
    for a in 0..=255u8 {
        let mut cpu = Chip8::default();
        cpu.set_v(4, a);
        cpu.vx_assign_rshift(&4);
        assert_eq!(cpu.v(4), a / 2);
        assert_eq!(cpu.v(0xF), a % 2);

        let mut cpu = Chip8::default();
        cpu.set_v(4, a);
        cpu.vx_assign_lshift(&4);
        assert_eq!(cpu.v(4) as u32, (a as u32 * 2) % 256);
        assert_eq!(cpu.v(0xF), a / 128);
    }
}

#[test]
fn rshift_exact_values() {
    let mut cpu = Chip8::default();
    cpu.set_v(4, 0b0000_0101);
    cpu.vx_assign_rshift(&4);
    assert_eq!(cpu.v(4), 0b0000_0010);
    assert_eq!(cpu.v(0xF), 1);
    cpu.vx_assign_rshift(&4);
    assert_eq!(cpu.v(4), 1);
    assert_eq!(cpu.v(0xF), 0);
}

#[test]
fn shift_of_the_flag_register_keeps_the_shifted_value() {
    let mut cpu = Chip8::default();
    cpu.set_v(0xF, 0b0000_0111);
    cpu.vx_assign_rshift(&0xF);
    assert_eq!(cpu.v(0xF), 0b0000_0011);
    cpu.set_v(0xF, 0b1000_0001);
    cpu.vx_assign_lshift(&0xF);
    assert_eq!(cpu.v(0xF), 0b0000_0010);
}

#[test]
fn masked_random_byte_is_the_and_of_both() {
    let mut cpu = Chip8::default();
    cpu.vx_equals_masked(&3, &0x0F, 0xAB);
    assert_eq!(cpu.v(3), 0x0B);
    assert_eq!(cpu.pc(), 0x202);
    cpu.vx_equals_masked(&3, &0xF0, 0xAB);
    assert_eq!(cpu.v(3), 0xA0);
}

#[test]
fn random_byte_stays_under_the_mask() {
    for nn in [0x00u8, 0x01, 0x0F, 0x3C, 0x80, 0xFF] {
        for _ in 0..200 {
            let mut cpu = Chip8::default();
            cpu.set_v(5, 0xFF);
            cpu.vx_equals_rand(&5, &nn);
            assert_eq!(cpu.v(5) & !nn, 0);
            assert_eq!(cpu.pc(), 0x202);
        }
    }
}

#[test]
fn random_byte_takes_more_than_one_value() {
    let mut seen = [false; 256];
    for _ in 0..2000 {
        let mut cpu = Chip8::default();
        cpu.vx_equals_rand(&5, &0xFF);
        seen[cpu.v(5) as usize] = true;
    }
    assert!(seen.iter().filter(|s| **s).count() > 1);
}

#[test]
fn key_skips_follow_the_key_named_by_vx() {
    let mut keys = [0u8; 16];
    keys[0xA] = 255;
    let mut cpu = Chip8::default();
    cpu.set_keys(&keys);
    cpu.set_v(1, 0xA);
    cpu.set_v(2, 0xB);
    cpu.skip_if_key_pressed(&1);
    assert_eq!(cpu.pc(), 0x204);
    cpu.skip_if_key_pressed(&2);
    assert_eq!(cpu.pc(), 0x206);
    cpu.skip_if_key_not_pressed(&1);
    assert_eq!(cpu.pc(), 0x208);
    cpu.skip_if_key_not_pressed(&2);
    assert_eq!(cpu.pc(), 0x20C);
}

#[test]
fn any_byte_but_zero_is_a_key_held_down() {
    let mut keys = [0u8; 16];
    keys[3] = 1;
    let mut cpu = Chip8::default();
    cpu.set_keys(&keys);
    cpu.set_v(1, 3);
    cpu.skip_if_key_pressed(&1);
    assert_eq!(cpu.pc(), 0x204);
    cpu.vx_assign_key(&6);
    assert_eq!(cpu.v(6), 3);
    assert_eq!(cpu.pc(), 0x206);
}

#[test]
fn read_key_waits_until_a_key_is_down() {
    let mut cpu = Chip8::default();
    cpu.set_v(6, 0x77);
    cpu.vx_assign_key(&6);
    assert_eq!(cpu.pc(), 0x200);
    assert_eq!(cpu.v(6), 0x77);
    cpu.vx_assign_key(&6);
    assert_eq!(cpu.pc(), 0x200);

    let mut keys = [0u8; 16];
    keys[0xC] = 255;
    keys[0x4] = 255;
    cpu.set_keys(&keys);
    cpu.vx_assign_key(&6);
    assert_eq!(cpu.v(6), 0x4);
    assert_eq!(cpu.pc(), 0x202);
}

#[test]
fn read_key_takes_the_last_key_too() {
    let mut keys = [0u8; 16];
    keys[0xF] = 255;
    let mut cpu = Chip8::default();
    cpu.set_keys(&keys);
    cpu.vx_assign_key(&0);
    assert_eq!(cpu.v(0), 0xF);
    assert_eq!(cpu.pc(), 0x202);
}

#[test]
fn set_keys_replaces_the_whole_keypad() {
    let mut keys = [0u8; 16];
    keys[2] = 255;
    let mut cpu = Chip8::default();
    cpu.set_keys(&keys);
    cpu.set_keys(&[0u8; 16]);
    cpu.set_v(1, 2);
    cpu.skip_if_key_pressed(&1);
    assert_eq!(cpu.pc(), 0x202);
}

#[test]
fn timers_are_set_from_and_read_into_registers() {
    let mut cpu = Chip8::default();
    cpu.set_v(1, 42);
    cpu.set_v(2, 17);
    cpu.set_delay_timer(&1);
    cpu.set_sound_timer(&2);
    assert_eq!(cpu.delay_timer(), 42);
    assert_eq!(cpu.sound_timer(), 17);
    cpu.vx_assign_delay(&3);
    assert_eq!(cpu.v(3), 42);
    assert_eq!(cpu.pc(), 0x206);
}

#[test]
fn index_add_wraps_at_sixteen_bits() {
    let mut cpu = Chip8::default();
    cpu.set_i(0x0FF0);
    cpu.set_v(1, 0x20);
    cpu.set_v(0xF, 9);
    cpu.index_assign_plus_vx(&1);
    assert_eq!(cpu.i(), 0x1010);
    assert_eq!(cpu.v(0xF), 9);

    cpu.set_i(0xFFFF);
    cpu.set_v(1, 2);
    cpu.index_assign_plus_vx(&1);
    assert_eq!(cpu.i(), 1);
    assert_eq!(cpu.v(0xF), 9);
    assert_eq!(cpu.pc(), 0x204);
}

#[test]
fn index_sprite_points_at_the_glyph_of_the_low_nibble() {
    for value in 0..=255u8 {
        let mut cpu = Chip8::default();
        cpu.set_v(1, value);
        cpu.index_assign_sprite(&1);
        assert_eq!(cpu.i(), (value as u16 % 16) * 5);
    }
    let mut cpu = Chip8::default();
    cpu.set_v(1, 0xA);
    cpu.index_assign_sprite(&1);
    assert_eq!(cpu.i(), 50);
    assert_eq!(cpu.memory(50), 0xF0);
    assert_eq!(cpu.memory(54), 0x90);
}

#[test]
fn bcd_digits_for_all_bytes() {
    for value in 0..=255u8 {
        let mut cpu = Chip8::default();
        cpu.set_v(9, value);
        cpu.set_i(0x300);
        cpu.set_bcd(&9);
        assert_eq!(cpu.memory(0x300), value / 100);
        assert_eq!(cpu.memory(0x301), (value / 10) % 10);
        assert_eq!(cpu.memory(0x302), value % 10);
        assert_eq!(cpu.i(), 0x300);
        assert_eq!(cpu.pc(), 0x202);
    }
}

#[test]
fn bcd_at_the_last_addresses() {
    let mut cpu = Chip8::default();
    cpu.set_v(0, 255);
    cpu.set_i(4093);
    cpu.set_bcd(&0);
    assert_eq!(cpu.memory(4093), 2);
    assert_eq!(cpu.memory(4094), 5);
    assert_eq!(cpu.memory(4095), 5);
}

#[test]
fn reg_dump_writes_registers_zero_to_x() {
    let mut cpu = Chip8::default();
    for r in 0..16usize {
        cpu.set_v(r, 0x10 + r as u8);
    }
    cpu.set_i(0x400);
    cpu.reg_dump(&3);
    assert_eq!(cpu.memory(0x3FF), 0);
    assert_eq!(cpu.memory(0x400), 0x10);
    assert_eq!(cpu.memory(0x401), 0x11);
    assert_eq!(cpu.memory(0x402), 0x12);
    assert_eq!(cpu.memory(0x403), 0x13);
    assert_eq!(cpu.memory(0x404), 0);
    assert_eq!(cpu.i(), 0x400);
    assert_eq!(cpu.pc(), 0x202);
}

#[test]
fn reg_dump_with_x_zero_writes_one_byte() {
    let mut cpu = Chip8::default();
    cpu.set_v(0, 0x5A);
    cpu.set_v(1, 0x6B);
    cpu.set_i(4095);
    cpu.reg_dump(&0);
    assert_eq!(cpu.memory(4095), 0x5A);
    assert_eq!(cpu.memory(4094), 0);
}

#[test]
fn reg_load_fills_registers_zero_to_x() {
    let mut cpu = Chip8::default();
    cpu.set_v(5, 0x77);
    cpu.set_i(0);
    cpu.reg_load(&4);
    assert_eq!(cpu.v(0), 0xF0);
    assert_eq!(cpu.v(1), 0x90);
    assert_eq!(cpu.v(2), 0x90);
    assert_eq!(cpu.v(3), 0x90);
    assert_eq!(cpu.v(4), 0xF0);
    assert_eq!(cpu.v(5), 0x77);
    assert_eq!(cpu.i(), 0);
    assert_eq!(cpu.pc(), 0x202);
}

#[test]
fn reg_dump_then_reg_load_gives_the_registers_back() {
    for x in 0..16u8 {
        let mut cpu = Chip8::default();
        for r in 0..16usize {
            cpu.set_v(r, 0xA0 + r as u8);
        }
        cpu.set_i(0x500);
        cpu.reg_dump(&x);
        for r in 0..=x as usize {
            assert_eq!(cpu.memory(0x500 + r), 0xA0 + r as u8);
        }
        cpu.reg_load(&x);
        for r in 0..16usize {
            assert_eq!(cpu.v(r), 0xA0 + r as u8);
        }
    }
}

#[test]
fn reg_load_after_the_registers_changed_restores_them() {
    let mut cpu = Chip8::default();
    cpu.set_v(0, 1);
    cpu.set_v(1, 2);
    cpu.set_v(2, 3);
    cpu.set_i(0x600);
    cpu.reg_dump(&2);
    cpu.set_v(0, 0);
    cpu.set_v(1, 0);
    cpu.set_v(2, 0);
    cpu.reg_load(&2);
    assert_eq!(cpu.v(0), 1);
    assert_eq!(cpu.v(1), 2);
    assert_eq!(cpu.v(2), 3);
}
