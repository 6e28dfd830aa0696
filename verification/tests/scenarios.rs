use rust_z80_emu::z80::{InterruptMode, Z80};

fn load(cpu: &mut Z80, addr: u16, bytes: &[u8]) {
    for (i, byte) in bytes.iter().enumerate() {
        cpu.bus.write(addr.wrapping_add(i as u16), *byte);
    }
}

fn run_until(cpu: &mut Z80, sentinel: u16, limit: usize) -> usize {
    let mut cycles: usize = 0;
    let mut steps: usize = 0;
    while cpu.reg.pc != sentinel {
        assert!(steps < limit, "program did not reach {:#06x}", sentinel);
        cycles += cpu.execute() as usize;
        steps += 1;
    }
    cycles
}

#[test]
fn data_copy_block_move() {
    let mut cpu = Z80::new();
    load(
        &mut cpu,
        0x0000,
        &[0x21, 0x64, 0x00, 0x11, 0xF0, 0x00, 0x01, 0x20, 0x00, 0xED, 0xB0],
    );
    for i in 0..0x20u16 {
        cpu.bus.write(0x0064 + i, i as u8);
    }
    let cycles = run_until(&mut cpu, 0x000B, 1000);
    for i in 0..0x20u16 {
        assert_eq!(cpu.bus.read(0x00F0 + i), cpu.bus.read(0x0064 + i));
        assert_eq!(cpu.bus.read(0x00F0 + i), i as u8);
    }
    assert_eq!(cpu.reg.get_hl(), 0x0084);
    assert_eq!(cpu.reg.get_de(), 0x0110);
    assert_eq!(cpu.reg.get_bc(), 0x0000);
    // three 10-state loads, 31 repeating transfers of 21 and a last one of 16
    assert_eq!(cycles, 3 * 10 + 31 * 21 + 16);
}

#[test]
fn add_with_signed_overflow() {
    let mut cpu = Z80::new();
    cpu.reg.a = 0x7F;
    cpu.reg.b = 0x01;
    cpu.reg.flags.c = false;
    cpu.bus.write(0, 0x80);
    let cycles = cpu.execute();
    assert_eq!(cycles, 4);
    assert_eq!(cpu.reg.a, 0x80);
    assert!(cpu.reg.flags.s);
    assert!(!cpu.reg.flags.z);
    assert!(cpu.reg.flags.h);
    assert!(cpu.reg.flags.p);
    assert!(!cpu.reg.flags.n);
    assert!(!cpu.reg.flags.c);
    assert_eq!(cpu.reg.pc, 1);
}

#[test]
fn daa_after_bcd_add() {
    let mut cpu = Z80::new();
    cpu.reg.a = 0x15;
    cpu.reg.b = 0x27;
    load(&mut cpu, 0, &[0x80, 0x27]);
    cpu.execute();
    assert_eq!(cpu.reg.a, 0x3C);
    cpu.execute();
    assert_eq!(cpu.reg.a, 0x42);
    assert!(!cpu.reg.flags.n);
    assert!(!cpu.reg.flags.c);
}

const MULTIPLY: [u8; 32] = [
    0x21, 0x03, 0x00, // 0000 LD HL,0003
    0x11, 0x04, 0x00, // 0003 LD DE,0004
    0x44, // 0006 LD B,H
    0x4D, // 0007 LD C,L
    0x21, 0x00, 0x00, // 0008 LD HL,0000
    0xDD, 0x21, 0x00, 0x00, // 000B LD IX,0000
    0x78, // 000F LD A,B
    0xB1, // 0010 OR C
    0x28, 0x0A, // 0011 JR Z,001D
    0x19, // 0013 ADD HL,DE
    0x30, 0x02, // 0014 JR NC,0018
    0xDD, 0x23, // 0016 INC IX
    0x0B, // 0018 DEC BC
    0x18, 0xF4, // 0019 JR 000F
    0x00, 0x00, // 001B
    0xDD, 0xE5, // 001D PUSH IX
    0xC1, // 001F POP BC
];

fn multiply(hl: u16, de: u16) -> u32 {
    let mut cpu = Z80::new();
    load(&mut cpu, 0, &MULTIPLY);
    cpu.bus.write(0x0001, hl as u8);
    cpu.bus.write(0x0002, (hl >> 8) as u8);
    cpu.bus.write(0x0004, de as u8);
    cpu.bus.write(0x0005, (de >> 8) as u8);
    cpu.reg.sp = 0x8000;
    run_until(&mut cpu, 0x0020, 2_000_000);
    ((cpu.reg.b as u32) << 24)
        | ((cpu.reg.c as u32) << 16)
        | ((cpu.reg.h as u32) << 8)
        | (cpu.reg.l as u32)
}

#[test]
fn multiply_by_repeated_add() {
    assert_eq!(multiply(0x0003, 0x0004), 0x0000_000C);
}

#[test]
fn multiply_carries_into_the_high_word() {
    assert_eq!(multiply(0x0123, 0xFEDC), 0x0123 * 0xFEDC);
    assert_eq!(multiply(0x0000, 0xFFFF), 0);
    assert_eq!(multiply(0x0100, 0x0100), 0x0001_0000);
}

#[test]
fn interrupt_mode_load() {
    let mut cpu = Z80::new();
    load(&mut cpu, 0, &[0xED, 0x56]);
    let before = Z80::new();
    let cycles = cpu.execute();
    assert_eq!(cycles, 8);
    assert_eq!(cpu.im, InterruptMode::IM_1);
    assert_eq!(cpu.reg.pc, 2);
    let mut reg = cpu.reg;
    reg.pc = 0;
    assert_eq!(reg, before.reg);
    assert_eq!(cpu.pins, before.pins);
    assert_eq!(cpu.n_halt, before.n_halt);
    assert_eq!(cpu.iff1, before.iff1);
    assert_eq!(cpu.iff2, before.iff2);
    assert_eq!(cpu.p_inst, before.p_inst);
    assert_eq!(cpu.bus.read(0), 0xED);
    assert_eq!(cpu.bus.read(1), 0x56);
    for addr in 2..=0xFFFFu16 {
        assert_eq!(cpu.bus.read(addr), 0);
    }
}

#[test]
fn halt_re_entry() {
    let mut cpu = Z80::new();
    cpu.bus.write(0, 0x76);
    assert!(cpu.n_halt);
    let cycles = cpu.execute();
    assert_eq!(cycles, 4);
    assert_eq!(cpu.reg.pc, 0x0000);
    assert!(!cpu.n_halt);
    cpu.execute();
    assert_eq!(cpu.reg.pc, 0x0000);
    assert!(!cpu.n_halt);
    for _ in 0..100 {
        cpu.execute();
        assert_eq!(cpu.reg.pc, 0x0000);
        assert!(!cpu.n_halt);
    }
}
