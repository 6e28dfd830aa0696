use rust_z80_emu::z80::Z80;

/// Runs the one instruction `program` with A and F preset; returns A and F after.
fn run(program: &[u8], a: u8, f: u8) -> (u8, u8) {
    let mut cpu = Z80::new();
    for (i, byte) in program.iter().enumerate() {
        cpu.bus.write(i as u16, *byte);
    }
    cpu.reg.a = a;
    cpu.reg.flags.from_byte(f);
    cpu.execute();
    assert_eq!(cpu.reg.pc as usize, program.len());
    (cpu.reg.a, cpu.reg.flags.to_byte())
}

#[test]
fn add_immediate() {
    assert_eq!(run(&[0xC6, 0x11], 0x44, 0xFF), (0x55, 0x00));
    assert_eq!(run(&[0xC6, 0x01], 0xFF, 0x00), (0x00, 0x51));
    assert_eq!(run(&[0xC6, 0x01], 0x7F, 0x00), (0x80, 0x94));
    assert_eq!(run(&[0xC6, 0x20], 0x08, 0x01), (0x28, 0x28));
    assert_eq!(run(&[0xC6, 0x80], 0x80, 0x00), (0x00, 0x45));
}

#[test]
fn add_with_carry_in() {
    assert_eq!(run(&[0xCE, 0x00], 0xFF, 0x01), (0x00, 0x51));
    assert_eq!(run(&[0xCE, 0x7F], 0x7F, 0x01), (0xFF, 0xBC));
    assert_eq!(run(&[0xCE, 0x7F], 0x00, 0x01), (0x80, 0x94));
    assert_eq!(run(&[0xCE, 0x10], 0x10, 0x00), (0x20, 0x20));
}

#[test]
fn subtract_immediate() {
    assert_eq!(run(&[0xD6, 0x01], 0x10, 0x00), (0x0F, 0x1A));
    assert_eq!(run(&[0xD6, 0x01], 0x00, 0x00), (0xFF, 0xBB));
    assert_eq!(run(&[0xD6, 0x01], 0x80, 0x01), (0x7F, 0x3E));
    assert_eq!(run(&[0xD6, 0x42], 0x42, 0x00), (0x00, 0x42));
}

#[test]
fn subtract_with_borrow_in() {
    assert_eq!(run(&[0xDE, 0xFF], 0x00, 0x01), (0x00, 0x53));
    assert_eq!(run(&[0xDE, 0x7F], 0x80, 0x01), (0x00, 0x56));
    assert_eq!(run(&[0xDE, 0x00], 0x00, 0x01), (0xFF, 0xBB));
    assert_eq!(run(&[0xDE, 0x01], 0x03, 0x00), (0x02, 0x02));
}

#[test]
fn compare_takes_xy_from_the_operand_and_keeps_a() {
    assert_eq!(run(&[0xFE, 0x28], 0x40, 0x00), (0x40, 0x3A));
    assert_eq!(run(&[0xFE, 0x40], 0x40, 0x00), (0x40, 0x42));
    assert_eq!(run(&[0xFE, 0x41], 0x40, 0x00), (0x40, 0x93));
}

#[test]
fn logic_sets_parity() {
    assert_eq!(run(&[0xE6, 0x3C], 0xF0, 0xFF), (0x30, 0x34));
    assert_eq!(run(&[0xEE, 0xFF], 0xFF, 0xFF), (0x00, 0x44));
    assert_eq!(run(&[0xF6, 0x01], 0x80, 0xFF), (0x81, 0x84));
    assert_eq!(run(&[0xF6, 0x01], 0x00, 0x00), (0x01, 0x00));
    assert_eq!(run(&[0xE6, 0x0F], 0xF0, 0x00), (0x00, 0x54));
    assert_eq!(run(&[0xEE, 0x28], 0x00, 0x00), (0x28, 0x2C));
}

#[test]
fn logic_parity_flag_is_even_parity_of_the_result() {
    for a in 0..=0xFFu8 {
        for (op, d) in [(0xE6u8, 0x5Au8), (0xEE, 0x5A), (0xF6, 0x5A), (0xE6, 0xFF), (0xEE, 0x00)] {
            let (r, f) = run(&[op, d], a, 0x00);
            assert_eq!(f & 0x04 != 0, r.count_ones() % 2 == 0);
        }
    }
}

#[test]
fn or_a_with_itself_is_not_a_compare() {
    assert_eq!(run(&[0xB7], 0x00, 0x03), (0x00, 0x44));
    assert_eq!(run(&[0xB7], 0x80, 0x03), (0x80, 0x80));
}

#[test]
fn alu_register_operands() {
    let mut cpu = Z80::new();
    let program = [0x80, 0x89, 0x92, 0x9B, 0xA4, 0xAD, 0xB6, 0xBF];
    for (i, byte) in program.iter().enumerate() {
        cpu.bus.write(i as u16, *byte);
    }
    cpu.reg.flags.reset();
    cpu.reg.a = 0x10;
    cpu.reg.b = 0x01;
    cpu.reg.c = 0x02;
    cpu.reg.d = 0x03;
    cpu.reg.e = 0x04;
    cpu.reg.set_hl(0x40F0);
    cpu.bus.write(0x40F0, 0x0F);
    assert_eq!(cpu.execute(), 4);
    assert_eq!(cpu.reg.a, 0x11);
    cpu.execute();
    assert_eq!(cpu.reg.a, 0x13);
    cpu.execute();
    assert_eq!(cpu.reg.a, 0x10);
    cpu.execute();
    assert_eq!(cpu.reg.a, 0x0C);
    cpu.execute();
    assert_eq!(cpu.reg.a, 0x00);
    cpu.execute();
    assert_eq!(cpu.reg.a, 0xF0);
    assert_eq!(cpu.execute(), 7);
    assert_eq!(cpu.reg.a, 0xFF);
    cpu.execute();
    assert_eq!(cpu.reg.a, 0xFF);
    assert!(cpu.reg.flags.z);
}

#[test]
fn increment_and_decrement_keep_carry() {
    assert_eq!(run(&[0x3C], 0x7F, 0x01), (0x80, 0x95));
    assert_eq!(run(&[0x3C], 0xFF, 0x00), (0x00, 0x50));
    assert_eq!(run(&[0x3C], 0x27, 0x02), (0x28, 0x28));
    assert_eq!(run(&[0x3D], 0x80, 0x00), (0x7F, 0x3E));
    assert_eq!(run(&[0x3D], 0x01, 0x01), (0x00, 0x43));
    assert_eq!(run(&[0x3D], 0x00, 0x00), (0xFF, 0xBA));
    assert_eq!(run(&[0x3D], 0x10, 0x00), (0x0F, 0x1A));
    assert_eq!(run(&[0x3D], 0x30, 0x00), (0x2F, 0x3A));
}

#[test]
fn increment_each_register() {
    for (op, index) in [(0x04u8, 0usize), (0x0C, 1), (0x14, 2), (0x1C, 3), (0x24, 4), (0x2C, 5)] {
        let mut cpu = Z80::new();
        cpu.bus.write(0, op);
        cpu.bus.write(1, op + 1);
        cpu.reg.set_bc(0x0000);
        cpu.reg.set_de(0x0000);
        cpu.reg.set_hl(0x0000);
        assert_eq!(cpu.execute(), 4);
        let regs = [cpu.reg.b, cpu.reg.c, cpu.reg.d, cpu.reg.e, cpu.reg.h, cpu.reg.l];
        for (i, value) in regs.iter().enumerate() {
            assert_eq!(*value, if i == index { 1 } else { 0 });
        }
        assert_eq!(cpu.execute(), 4);
        let regs = [cpu.reg.b, cpu.reg.c, cpu.reg.d, cpu.reg.e, cpu.reg.h, cpu.reg.l];
        assert_eq!(regs, [0; 6]);
        assert!(cpu.reg.flags.z && cpu.reg.flags.n);
    }
}

#[test]
fn add_hl_keeps_s_z_p() {
    let mut cpu = Z80::new();
    cpu.bus.write(0, 0x09);
    cpu.bus.write(1, 0x19);
    cpu.bus.write(2, 0x29);
    cpu.bus.write(3, 0x39);
    cpu.reg.set_hl(0x0FFF);
    cpu.reg.set_bc(0x0001);
    cpu.reg.flags.from_byte(0xC6);
    assert_eq!(cpu.execute(), 11);
    assert_eq!(cpu.reg.get_hl(), 0x1000);
    assert_eq!(cpu.reg.flags.to_byte(), 0xD4);
    cpu.reg.set_hl(0xFFFF);
    cpu.reg.set_de(0x0001);
    cpu.reg.flags.reset();
    cpu.execute();
    assert_eq!(cpu.reg.get_hl(), 0x0000);
    assert_eq!(cpu.reg.flags.to_byte(), 0x11);
    cpu.reg.set_hl(0x1400);
    cpu.reg.flags.reset();
    cpu.execute();
    assert_eq!(cpu.reg.get_hl(), 0x2800);
    assert_eq!(cpu.reg.flags.to_byte(), 0x28);
    cpu.reg.sp = 0x8000;
    cpu.reg.set_hl(0x8000);
    cpu.execute();
    assert_eq!(cpu.reg.get_hl(), 0x0000);
    assert_eq!(cpu.reg.flags.to_byte(), 0x01);
}

#[test]
fn accumulator_rotates_keep_s_z_p() {
    assert_eq!(run(&[0x07], 0x81, 0x00), (0x03, 0x01));
    assert_eq!(run(&[0x07], 0x14, 0xC4), (0x28, 0xEC));
    assert_eq!(run(&[0x0F], 0x01, 0x00), (0x80, 0x01));
    assert_eq!(run(&[0x0F], 0x50, 0x13), (0x28, 0x28));
    assert_eq!(run(&[0x17], 0x80, 0x00), (0x00, 0x01));
    assert_eq!(run(&[0x17], 0x00, 0x01), (0x01, 0x00));
    assert_eq!(run(&[0x1F], 0x01, 0x01), (0x80, 0x01));
    assert_eq!(run(&[0x1F], 0x01, 0x00), (0x00, 0x01));
    assert_eq!(run(&[0x1F], 0x50, 0x00), (0x28, 0x28));
}

#[test]
fn complement_and_carry_flag_instructions() {
    assert_eq!(run(&[0x2F], 0x55, 0x00), (0xAA, 0x3A));
    assert_eq!(run(&[0x2F], 0xFF, 0xC5), (0x00, 0xD7));
    assert_eq!(run(&[0x37], 0x00, 0xFF), (0x00, 0xC5));
    assert_eq!(run(&[0x37], 0x28, 0x00), (0x28, 0x29));
    assert_eq!(run(&[0x3F], 0x00, 0x01), (0x00, 0x10));
    assert_eq!(run(&[0x3F], 0x00, 0x00), (0x00, 0x01));
    assert_eq!(run(&[0x3F], 0x28, 0xD7), (0x28, 0xFC));
}

#[test]
fn decimal_adjust() {
    assert_eq!(run(&[0x27], 0x3C, 0x00), (0x42, 0x14));
    assert_eq!(run(&[0x27], 0x9A, 0x00), (0x00, 0x55));
    assert_eq!(run(&[0x27], 0x00, 0x00), (0x00, 0x44));
    assert_eq!(run(&[0x27], 0x99, 0x00), (0x99, 0x8C));
    assert_eq!(run(&[0x27], 0xA0, 0x00), (0x00, 0x45));
    assert_eq!(run(&[0x27], 0x0F, 0x12), (0x09, 0x0E));
    assert_eq!(run(&[0x27], 0x12, 0x10), (0x18, 0x0C));
    assert_eq!(run(&[0x27], 0x12, 0x01), (0x72, 0x25));
    assert_eq!(run(&[0x27], 0xF0, 0x03), (0x90, 0x87));
}

#[test]
fn decimal_adjust_makes_bcd_sums() {
    for x in 0..100u8 {
        for y in 0..100u8 {
            let bx = (x / 10) * 16 + x % 10;
            let by = (y / 10) * 16 + y % 10;
            let mut cpu = Z80::new();
            cpu.bus.write(0, 0x80);
            cpu.bus.write(1, 0x27);
            cpu.reg.a = bx;
            cpu.reg.b = by;
            cpu.execute();
            cpu.execute();
            let sum = x + y;
            let expected = ((sum % 100) / 10) * 16 + sum % 10;
            assert_eq!(cpu.reg.a, expected);
            assert_eq!(cpu.reg.flags.c, sum >= 100);
        }
    }
}

#[test]
fn decimal_adjust_makes_bcd_differences() {
    for x in 0..100u8 {
        for y in 0..100u8 {
            let bx = (x / 10) * 16 + x % 10;
            let by = (y / 10) * 16 + y % 10;
            let mut cpu = Z80::new();
            cpu.bus.write(0, 0x90);
            cpu.bus.write(1, 0x27);
            cpu.reg.a = bx;
            cpu.reg.b = by;
            cpu.execute();
            cpu.execute();
            let diff = (100 + x - y) % 100;
            let expected = (diff / 10) * 16 + diff % 10;
            assert_eq!(cpu.reg.a, expected);
            assert_eq!(cpu.reg.flags.c, x < y);
        }
    }
}
