use rust_z80_emu::z80::Z80;

fn cpu_with(program: &[u8]) -> Z80 {
    let mut cpu = Z80::new();
    for (i, byte) in program.iter().enumerate() {
        cpu.bus.write(i as u16, *byte);
    }
    cpu.reg.flags.reset();
    cpu
}

#[test]
fn nop_only_advances_pc() {
    let mut cpu = cpu_with(&[0x00]);
    let before = cpu.reg;
    assert_eq!(cpu.execute(), 4);
    let mut after = cpu.reg;
    assert_eq!(after.pc, 1);
    after.pc = 0;
    assert_eq!(after, before);
}

#[test]
fn ld_r_n_and_ld_r_r() {
    let mut cpu = cpu_with(&[0x06, 0x12, 0x48, 0x51, 0x5A, 0x63, 0x6C, 0x7D, 0x3E, 0x99, 0x47]);
    assert_eq!(cpu.execute(), 7);
    assert_eq!(cpu.reg.b, 0x12);
    assert_eq!(cpu.reg.pc, 2);
    assert_eq!(cpu.execute(), 4);
    assert_eq!(cpu.reg.c, 0x12);
    cpu.execute();
    assert_eq!(cpu.reg.d, 0x12);
    cpu.execute();
    assert_eq!(cpu.reg.e, 0x12);
    cpu.execute();
    assert_eq!(cpu.reg.h, 0x12);
    cpu.execute();
    assert_eq!(cpu.reg.l, 0x12);
    cpu.execute();
    assert_eq!(cpu.reg.a, 0x12);
    cpu.execute();
    assert_eq!(cpu.reg.a, 0x99);
    cpu.execute();
    assert_eq!(cpu.reg.b, 0x99);
    assert_eq!(cpu.reg.pc, 11);
    assert_eq!(cpu.reg.flags.to_byte(), 0x00);
}

#[test]
fn ld_through_hl() {
    let mut cpu = cpu_with(&[0x21, 0x00, 0x40, 0x36, 0x5A, 0x46, 0x70, 0x7E, 0x34, 0x35]);
    assert_eq!(cpu.execute(), 10);
    assert_eq!(cpu.reg.get_hl(), 0x4000);
    assert_eq!(cpu.execute(), 10);
    assert_eq!(cpu.bus.read(0x4000), 0x5A);
    assert_eq!(cpu.reg.pc, 5);
    assert_eq!(cpu.execute(), 7);
    assert_eq!(cpu.reg.b, 0x5A);
    cpu.reg.b = 0xA5;
    assert_eq!(cpu.execute(), 7);
    assert_eq!(cpu.bus.read(0x4000), 0xA5);
    assert_eq!(cpu.execute(), 7);
    assert_eq!(cpu.reg.a, 0xA5);
    assert_eq!(cpu.execute(), 11);
    assert_eq!(cpu.bus.read(0x4000), 0xA6);
    assert_eq!(cpu.execute(), 11);
    assert_eq!(cpu.bus.read(0x4000), 0xA5);
    assert_eq!(cpu.reg.pc, 10);
}

#[test]
fn sixteen_bit_loads() {
    let mut cpu = cpu_with(&[
        0x01, 0x34, 0x12, // LD BC,1234
        0x11, 0x78, 0x56, // LD DE,5678
        0x31, 0x00, 0x80, // LD SP,8000
        0x21, 0xBC, 0x9A, // LD HL,9ABC
        0x22, 0x00, 0x50, // LD (5000),HL
        0x21, 0x00, 0x00, // LD HL,0000
        0x2A, 0x00, 0x50, // LD HL,(5000)
        0xF9, // LD SP,HL
        0x32, 0x10, 0x50, // LD (5010),A
        0x3A, 0x00, 0x50, // LD A,(5000)
        0x02, // LD (BC),A
        0x1A, // LD A,(DE)
    ]);
    assert_eq!(cpu.execute(), 10);
    assert_eq!(cpu.reg.get_bc(), 0x1234);
    cpu.execute();
    assert_eq!(cpu.reg.get_de(), 0x5678);
    cpu.execute();
    assert_eq!(cpu.reg.sp, 0x8000);
    cpu.execute();
    assert_eq!(cpu.reg.get_hl(), 0x9ABC);
    assert_eq!(cpu.execute(), 16);
    assert_eq!(cpu.bus.read(0x5000), 0xBC);
    assert_eq!(cpu.bus.read(0x5001), 0x9A);
    cpu.execute();
    assert_eq!(cpu.reg.get_hl(), 0);
    assert_eq!(cpu.execute(), 16);
    assert_eq!(cpu.reg.get_hl(), 0x9ABC);
    assert_eq!(cpu.execute(), 6);
    assert_eq!(cpu.reg.sp, 0x9ABC);
    cpu.reg.a = 0x77;
    assert_eq!(cpu.execute(), 13);
    assert_eq!(cpu.bus.read(0x5010), 0x77);
    assert_eq!(cpu.execute(), 13);
    assert_eq!(cpu.reg.a, 0xBC);
    assert_eq!(cpu.execute(), 7);
    assert_eq!(cpu.bus.read(0x1234), 0xBC);
    cpu.bus.write(0x5678, 0x42);
    assert_eq!(cpu.execute(), 7);
    assert_eq!(cpu.reg.a, 0x42);
    assert_eq!(cpu.reg.pc, 30);
}

#[test]
fn push_and_pop() {
    let mut cpu = cpu_with(&[0xC5, 0xD5, 0xE5, 0xF5, 0xC1, 0xD1, 0xE1, 0xF1]);
    cpu.reg.sp = 0x9000;
    cpu.reg.set_bc(0x1122);
    cpu.reg.set_de(0x3344);
    cpu.reg.set_hl(0x5566);
    cpu.reg.set_af(0x77D5);
    assert_eq!(cpu.execute(), 11);
    assert_eq!(cpu.reg.sp, 0x8FFE);
    assert_eq!(cpu.bus.read(0x8FFF), 0x11);
    assert_eq!(cpu.bus.read(0x8FFE), 0x22);
    cpu.execute();
    cpu.execute();
    cpu.execute();
    assert_eq!(cpu.reg.sp, 0x8FF8);
    assert_eq!(cpu.bus.read(0x8FF9), 0x77);
    assert_eq!(cpu.bus.read(0x8FF8), 0xD5);
    assert_eq!(cpu.execute(), 10);
    assert_eq!(cpu.reg.get_bc(), 0x77D5);
    assert_eq!(cpu.reg.sp, 0x8FFA);
    cpu.execute();
    assert_eq!(cpu.reg.get_de(), 0x5566);
    cpu.execute();
    assert_eq!(cpu.reg.get_hl(), 0x3344);
    cpu.execute();
    assert_eq!(cpu.reg.get_af(), 0x1122);
    assert_eq!(cpu.reg.sp, 0x9000);
}

#[test]
fn stack_wraps_around_zero() {
    let mut cpu = cpu_with(&[0xC5, 0xD1]);
    cpu.reg.sp = 0x0001;
    cpu.reg.set_bc(0xBEEF);
    cpu.execute();
    assert_eq!(cpu.reg.sp, 0xFFFF);
    assert_eq!(cpu.bus.read(0x0000), 0xBE);
    assert_eq!(cpu.bus.read(0xFFFF), 0xEF);
    cpu.execute();
    assert_eq!(cpu.reg.sp, 0x0001);
    assert_eq!(cpu.reg.get_de(), 0xBEEF);
}

#[test]
fn exchanges() {
    let mut cpu = cpu_with(&[0xEB, 0x08, 0xD9, 0xE3]);
    cpu.reg.set_de(0x1111);
    cpu.reg.set_hl(0x2222);
    assert_eq!(cpu.execute(), 4);
    assert_eq!(cpu.reg.get_de(), 0x2222);
    assert_eq!(cpu.reg.get_hl(), 0x1111);
    cpu.reg.set_af(0x1200);
    cpu.reg.eaf = 0x34FF;
    assert_eq!(cpu.execute(), 4);
    assert_eq!(cpu.reg.get_af(), 0x34FF);
    assert_eq!(cpu.reg.eaf, 0x1200);
    cpu.reg.set_bc(0xAAAA);
    cpu.reg.ebc = 0x0B0B;
    cpu.reg.ede = 0x0D0D;
    cpu.reg.ehl = 0x0E0E;
    assert_eq!(cpu.execute(), 4);
    assert_eq!(cpu.reg.get_bc(), 0x0B0B);
    assert_eq!(cpu.reg.get_de(), 0x0D0D);
    assert_eq!(cpu.reg.get_hl(), 0x0E0E);
    assert_eq!(cpu.reg.ebc, 0xAAAA);
    assert_eq!(cpu.reg.ede, 0x2222);
    assert_eq!(cpu.reg.ehl, 0x1111);
    cpu.reg.sp = 0x7000;
    cpu.bus.write(0x7000, 0x78);
    cpu.bus.write(0x7001, 0x56);
    assert_eq!(cpu.execute(), 19);
    assert_eq!(cpu.reg.get_hl(), 0x5678);
    assert_eq!(cpu.bus.read(0x7000), 0x0E);
    assert_eq!(cpu.bus.read(0x7001), 0x0E);
    assert_eq!(cpu.reg.sp, 0x7000);
}

#[test]
fn absolute_jumps() {
    let mut cpu = cpu_with(&[0xC3, 0x10, 0x00]);
    cpu.bus.write(0x0010, 0xCA); // JP Z,0020  (Z clear: not taken)
    cpu.bus.write(0x0011, 0x20);
    cpu.bus.write(0x0012, 0x00);
    cpu.bus.write(0x0013, 0xC2); // JP NZ,0030 (taken)
    cpu.bus.write(0x0014, 0x30);
    cpu.bus.write(0x0015, 0x00);
    cpu.bus.write(0x0030, 0xE9); // JP (HL)
    assert_eq!(cpu.execute(), 10);
    assert_eq!(cpu.reg.pc, 0x0010);
    assert_eq!(cpu.execute(), 10);
    assert_eq!(cpu.reg.pc, 0x0013);
    assert_eq!(cpu.execute(), 10);
    assert_eq!(cpu.reg.pc, 0x0030);
    cpu.reg.set_hl(0x0000);
    assert_eq!(cpu.execute(), 4);
    assert_eq!(cpu.reg.pc, 0x0000);
}

#[test]
fn jump_conditions_follow_their_flags() {
    // opcode, flag byte that takes the jump, flag byte that does not
    let cases: [(u8, u8, u8); 8] = [
        (0xC2, 0x00, 0x40),
        (0xCA, 0x40, 0x00),
        (0xD2, 0x00, 0x01),
        (0xDA, 0x01, 0x00),
        (0xE2, 0x00, 0x04),
        (0xEA, 0x04, 0x00),
        (0xF2, 0x00, 0x80),
        (0xFA, 0x80, 0x00),
    ];
    for (op, taken, not_taken) in cases {
        let mut cpu = cpu_with(&[op, 0x34, 0x12]);
        cpu.reg.flags.from_byte(taken);
        assert_eq!(cpu.execute(), 10);
        assert_eq!(cpu.reg.pc, 0x1234);
        let mut cpu = cpu_with(&[op, 0x34, 0x12]);
        cpu.reg.flags.from_byte(not_taken);
        assert_eq!(cpu.execute(), 10);
        assert_eq!(cpu.reg.pc, 0x0003);
    }
}

#[test]
fn relative_jumps() {
    let mut cpu = cpu_with(&[0x18, 0x02, 0x00, 0x00, 0x18, 0xFA]);
    assert_eq!(cpu.execute(), 12);
    assert_eq!(cpu.reg.pc, 0x0004);
    assert_eq!(cpu.execute(), 12);
    assert_eq!(cpu.reg.pc, 0x0000);
    let mut cpu = cpu_with(&[0x18, 0x80]);
    cpu.execute();
    assert_eq!(cpu.reg.pc, 0xFF82);
    let mut cpu = cpu_with(&[0x18, 0x7F]);
    cpu.execute();
    assert_eq!(cpu.reg.pc, 0x0081);
}

#[test]
fn conditional_relative_jumps_cost_five_more_when_taken() {
    let cases: [(u8, u8, u8); 4] =
        [(0x20, 0x00, 0x40), (0x28, 0x40, 0x00), (0x30, 0x00, 0x01), (0x38, 0x01, 0x00)];
    for (op, taken, not_taken) in cases {
        let mut cpu = cpu_with(&[op, 0x10]);
        cpu.reg.flags.from_byte(taken);
        assert_eq!(cpu.execute(), 12);
        assert_eq!(cpu.reg.pc, 0x0012);
        let mut cpu = cpu_with(&[op, 0x10]);
        cpu.reg.flags.from_byte(not_taken);
        assert_eq!(cpu.execute(), 7);
        assert_eq!(cpu.reg.pc, 0x0002);
    }
}

#[test]
fn djnz_with_b_one_falls_through() {
    let mut cpu = cpu_with(&[0x10, 0x20]);
    cpu.reg.b = 1;
    let flags = cpu.reg.flags;
    assert_eq!(cpu.execute(), 8);
    assert_eq!(cpu.reg.b, 0);
    assert_eq!(cpu.reg.pc, 0x0002);
    assert_eq!(cpu.reg.flags, flags);
}

#[test]
fn djnz_branches_while_b_is_not_zero() {
    let mut cpu = cpu_with(&[0x10, 0xFE]);
    cpu.reg.b = 3;
    assert_eq!(cpu.execute(), 13);
    assert_eq!(cpu.reg.b, 2);
    assert_eq!(cpu.reg.pc, 0x0000);
    assert_eq!(cpu.execute(), 13);
    assert_eq!(cpu.execute(), 8);
    assert_eq!(cpu.reg.b, 0);
    assert_eq!(cpu.reg.pc, 0x0002);
    let mut cpu = cpu_with(&[0x10, 0x05]);
    cpu.reg.b = 0;
    assert_eq!(cpu.execute(), 13);
    assert_eq!(cpu.reg.b, 0xFF);
    assert_eq!(cpu.reg.pc, 0x0007);
}

#[test]
fn call_and_return() {
    let mut cpu = cpu_with(&[0xCD, 0x00, 0x20]);
    cpu.bus.write(0x2000, 0xC9);
    cpu.reg.sp = 0x9000;
    assert_eq!(cpu.execute(), 17);
    assert_eq!(cpu.reg.pc, 0x2000);
    assert_eq!(cpu.reg.sp, 0x8FFE);
    assert_eq!(cpu.bus.read(0x8FFE), 0x03);
    assert_eq!(cpu.bus.read(0x8FFF), 0x00);
    assert_eq!(cpu.execute(), 10);
    assert_eq!(cpu.reg.pc, 0x0003);
    assert_eq!(cpu.reg.sp, 0x9000);
}

#[test]
fn conditional_calls_and_returns() {
    let cases: [(u8, u8, u8, u8); 8] = [
        (0xC4, 0xC0, 0x00, 0x40),
        (0xCC, 0xC8, 0x40, 0x00),
        (0xD4, 0xD0, 0x00, 0x01),
        (0xDC, 0xD8, 0x01, 0x00),
        (0xE4, 0xE0, 0x00, 0x04),
        (0xEC, 0xE8, 0x04, 0x00),
        (0xF4, 0xF0, 0x00, 0x80),
        (0xFC, 0xF8, 0x80, 0x00),
    ];
    for (call, ret, taken, not_taken) in cases {
        let mut cpu = cpu_with(&[call, 0x00, 0x30, ret]);
        cpu.bus.write(0x3000, ret);
        cpu.reg.sp = 0x9000;
        cpu.reg.flags.from_byte(not_taken);
        assert_eq!(cpu.execute(), 10);
        assert_eq!(cpu.reg.pc, 0x0003);
        assert_eq!(cpu.reg.sp, 0x9000);
        assert_eq!(cpu.execute(), 5);
        assert_eq!(cpu.reg.pc, 0x0004);
        assert_eq!(cpu.reg.sp, 0x9000);
        cpu.reg.pc = 0;
        cpu.reg.flags.from_byte(taken);
        assert_eq!(cpu.execute(), 17);
        assert_eq!(cpu.reg.pc, 0x3000);
        assert_eq!(cpu.reg.sp, 0x8FFE);
        assert_eq!(cpu.execute(), 11);
        assert_eq!(cpu.reg.pc, 0x0003);
        assert_eq!(cpu.reg.sp, 0x9000);
    }
}

#[test]
fn restarts_push_the_next_address() {
    let ops: [(u8, u16); 8] = [
        (0xC7, 0x00),
        (0xCF, 0x08),
        (0xD7, 0x10),
        (0xDF, 0x18),
        (0xE7, 0x20),
        (0xEF, 0x28),
        (0xF7, 0x30),
        (0xFF, 0x38),
    ];
    for (op, vector) in ops {
        let mut cpu = Z80::new();
        cpu.bus.write(0x1234, op);
        cpu.reg.pc = 0x1234;
        cpu.reg.sp = 0x9000;
        assert_eq!(cpu.execute(), 11);
        assert_eq!(cpu.reg.pc, vector);
        assert_eq!(cpu.reg.sp, 0x8FFE);
        assert_eq!(cpu.bus.read(0x8FFE), 0x35);
        assert_eq!(cpu.bus.read(0x8FFF), 0x12);
    }
}

#[test]
fn in_and_out_with_immediate_port() {
    let mut cpu = cpu_with(&[0xDB, 0x42, 0xD3, 0x10]);
    cpu.reg.a = 0x99;
    let flags = cpu.reg.flags;
    assert_eq!(cpu.execute(), 11);
    assert_eq!(cpu.reg.a, 0x42);
    assert_eq!(cpu.reg.flags, flags);
    assert_eq!(cpu.reg.pc, 2);
    let before = cpu.reg;
    assert_eq!(cpu.execute(), 11);
    assert_eq!(cpu.reg.pc, 4);
    cpu.reg.pc = 2;
    assert_eq!(cpu.reg, before);
}

#[test]
fn sixteen_bit_inc_dec_leave_flags_alone() {
    let mut cpu = cpu_with(&[0x03, 0x13, 0x23, 0x33, 0x0B, 0x1B, 0x2B, 0x3B]);
    cpu.reg.set_bc(0xFFFF);
    cpu.reg.set_de(0x00FF);
    cpu.reg.set_hl(0x1234);
    cpu.reg.sp = 0xFFFF;
    cpu.reg.flags.from_byte(0xA5);
    assert_eq!(cpu.execute(), 6);
    cpu.execute();
    cpu.execute();
    cpu.execute();
    assert_eq!(cpu.reg.get_bc(), 0x0000);
    assert_eq!(cpu.reg.get_de(), 0x0100);
    assert_eq!(cpu.reg.get_hl(), 0x1235);
    assert_eq!(cpu.reg.sp, 0x0000);
    assert_eq!(cpu.execute(), 6);
    cpu.execute();
    cpu.execute();
    cpu.execute();
    assert_eq!(cpu.reg.get_bc(), 0xFFFF);
    assert_eq!(cpu.reg.get_de(), 0x00FF);
    assert_eq!(cpu.reg.get_hl(), 0x1234);
    assert_eq!(cpu.reg.sp, 0xFFFF);
    assert_eq!(cpu.reg.flags.to_byte(), 0xA5);
}

#[test]
fn di_and_ei_switch_both_flip_flops_at_once() {
    let mut cpu = cpu_with(&[0xFB, 0xF3]);
    assert_eq!(cpu.execute(), 4);
    assert!(cpu.iff1 && cpu.iff2);
    assert_eq!(cpu.execute(), 4);
    assert!(!cpu.iff1 && !cpu.iff2);
}

#[test]
fn pc_wraps_at_the_end_of_memory() {
    let mut cpu = Z80::new();
    cpu.reg.pc = 0xFFFF;
    cpu.bus.write(0xFFFF, 0x3E);
    cpu.bus.write(0x0000, 0x5A);
    assert_eq!(cpu.execute(), 7);
    assert_eq!(cpu.reg.a, 0x5A);
    assert_eq!(cpu.reg.pc, 0x0001);
}
