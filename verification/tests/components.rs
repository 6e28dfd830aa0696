use rust_z80_emu::arith::{displace, hi, lo, make_word, parity};
use rust_z80_emu::bus::{read_io, write_io, Bus, MEMORY_SIZE};
use rust_z80_emu::cycles::{CYCLES, CYCLES_CB, CYCLES_DD_FD, CYCLES_DD_FD_CB, CYCLES_ED};
use rust_z80_emu::flags::Flags;
use rust_z80_emu::registers::Registers;
use rust_z80_emu::z80::{InterruptMode, Pins, Z80};

#[test]
fn bus_starts_zeroed_and_covers_64k() {
    let bus = Bus::new();
    assert_eq!(MEMORY_SIZE, 0x10000);
    for addr in 0..=0xFFFFu16 {
        assert_eq!(bus.read(addr), 0);
    }
}

#[test]
fn bus_write_changes_one_cell() {
    let mut bus = Bus::new();
    bus.write(0xFFFF, 0xAB);
    bus.write(0x0000, 0xCD);
    bus.write(0x1234, 0x56);
    assert_eq!(bus.read(0xFFFF), 0xAB);
    assert_eq!(bus.read(0x0000), 0xCD);
    assert_eq!(bus.read(0x1234), 0x56);
    assert_eq!(bus.read(0x1233), 0);
    assert_eq!(bus.read(0x1235), 0);
    assert_eq!(bus.read(0xFFFE), 0);
    assert_eq!(bus.read(0x0001), 0);
}

#[test]
fn bus_reset_clears_memory() {
    let mut bus = Bus::new();
    bus.write(0x8000, 1);
    bus.write(0xFFFF, 2);
    bus.reset();
    for addr in 0..=0xFFFFu16 {
        assert_eq!(bus.read(addr), 0);
    }
}

#[test]
fn default_io_answers_with_low_byte_of_port() {
    assert_eq!(read_io(0x1234), 0x34);
    assert_eq!(read_io(0xFF00), 0x00);
    assert_eq!(read_io(0x00FF), 0xFF);
    write_io(0xFFFF, 0xFF);
}

#[test]
fn flags_round_trip_for_every_byte() {
    for val in 0..=0xFFu8 {
        let mut flags = Flags::new();
        flags.from_byte(val);
        assert_eq!(flags.to_byte(), val);
    }
}

#[test]
fn flags_bit_positions() {
    let mut flags = Flags::new();
    flags.reset();
    assert_eq!(flags.to_byte(), 0x00);
    flags.s = true;
    assert_eq!(flags.to_byte(), 0x80);
    flags.z = true;
    assert_eq!(flags.to_byte(), 0xC0);
    flags.b5 = true;
    assert_eq!(flags.to_byte(), 0xE0);
    flags.h = true;
    assert_eq!(flags.to_byte(), 0xF0);
    flags.b3 = true;
    assert_eq!(flags.to_byte(), 0xF8);
    flags.p = true;
    assert_eq!(flags.to_byte(), 0xFC);
    flags.n = true;
    assert_eq!(flags.to_byte(), 0xFE);
    flags.c = true;
    assert_eq!(flags.to_byte(), 0xFF);
    flags.from_byte(0x45);
    assert_eq!(
        flags,
        Flags { s: false, z: true, b5: false, h: false, b3: false, p: true, n: false, c: true }
    );
}

#[test]
fn flags_unpack_then_pack_is_identity_on_flags() {
    for val in 0..=0xFFu8 {
        let mut flags = Flags::new();
        flags.from_byte(val);
        let copy = flags;
        let mut again = Flags::new();
        again.from_byte(flags.to_byte());
        assert_eq!(again, copy);
    }
}

#[test]
fn registers_initial_state() {
    let reg = Registers::new();
    assert_eq!(reg.a, 0xFF);
    assert_eq!(reg.get_af(), 0xFFFF);
    assert_eq!(reg.get_bc(), 0xFFFF);
    assert_eq!(reg.get_de(), 0xFFFF);
    assert_eq!(reg.get_hl(), 0xFFFF);
    assert_eq!(reg.get_ix(), 0xFFFF);
    assert_eq!(reg.get_iy(), 0xFFFF);
    assert_eq!(reg.get_ir(), 0xFFFF);
    assert_eq!(reg.sp, 0xFFFF);
    assert_eq!(reg.pc, 0x0000);
    assert_eq!(reg.eaf, 0xFFFF);
    assert_eq!(reg.ebc, 0xFFFF);
    assert_eq!(reg.ede, 0xFFFF);
    assert_eq!(reg.ehl, 0xFFFF);
    assert_eq!(reg.flags.to_byte(), 0xFF);
}

#[test]
fn pair_set_then_get_reads_back() {
    let mut reg = Registers::new();
    reg.set_af(0x12D7);
    assert_eq!(reg.a, 0x12);
    assert_eq!(reg.flags.to_byte(), 0xD7);
    assert_eq!(reg.get_af(), 0x12D7);
    reg.set_bc(0x3456);
    assert_eq!((reg.b, reg.c), (0x34, 0x56));
    assert_eq!(reg.get_bc(), 0x3456);
    reg.set_de(0x789A);
    assert_eq!((reg.d, reg.e), (0x78, 0x9A));
    assert_eq!(reg.get_de(), 0x789A);
    reg.set_hl(0xBCDE);
    assert_eq!((reg.h, reg.l), (0xBC, 0xDE));
    assert_eq!(reg.get_hl(), 0xBCDE);
    reg.set_ix(0x0FED);
    assert_eq!((reg.ixh, reg.ixl), (0x0F, 0xED));
    assert_eq!(reg.get_ix(), 0x0FED);
    reg.set_iy(0xCBA9);
    assert_eq!((reg.iyh, reg.iyl), (0xCB, 0xA9));
    assert_eq!(reg.get_iy(), 0xCBA9);
    reg.set_ir(0x8765);
    assert_eq!((reg.i, reg.r), (0x87, 0x65));
    assert_eq!(reg.get_ir(), 0x8765);
}

#[test]
fn pair_get_then_set_is_identity() {
    let mut reg = Registers::new();
    reg.a = 0x01;
    reg.flags.from_byte(0x5A);
    reg.b = 0x23;
    reg.c = 0x45;
    reg.d = 0x67;
    reg.e = 0x89;
    reg.h = 0xAB;
    reg.l = 0xCD;
    reg.ixh = 0xEF;
    reg.ixl = 0x10;
    reg.iyh = 0x32;
    reg.iyl = 0x54;
    let before = reg;
    reg.set_af(reg.get_af());
    reg.set_bc(reg.get_bc());
    reg.set_de(reg.get_de());
    reg.set_hl(reg.get_hl());
    reg.set_ix(reg.get_ix());
    reg.set_iy(reg.get_iy());
    reg.set_ir(reg.get_ir());
    assert_eq!(reg, before);
}

#[test]
fn pc_and_sp_wrap() {
    let mut reg = Registers::new();
    reg.pc = 0xFFFF;
    reg.inc_pc();
    assert_eq!(reg.pc, 0x0000);
    reg.dec_pc();
    assert_eq!(reg.pc, 0xFFFF);
    reg.sp = 0x0000;
    reg.dec_sp();
    assert_eq!(reg.sp, 0xFFFF);
    reg.inc_sp();
    assert_eq!(reg.sp, 0x0000);
}

#[test]
fn registers_reset_restores_initial_state() {
    let mut reg = Registers::new();
    reg.set_bc(0x1234);
    reg.pc = 0x4000;
    reg.sp = 0x8000;
    reg.eaf = 0;
    reg.flags.reset();
    reg.reset();
    assert_eq!(reg, Registers::new());
}

#[test]
fn cpu_initial_state() {
    let cpu = Z80::new();
    assert_eq!(cpu.reg, Registers::new());
    assert_eq!(cpu.pins, Pins::new());
    assert!(cpu.pins.n_m1 && cpu.pins.n_busack && cpu.pins.n_reset);
    assert_eq!(cpu.pins._clock, 0);
    assert!(cpu.n_halt);
    assert!(!cpu.iff1);
    assert!(!cpu.iff2);
    assert_eq!(cpu.im, InterruptMode::IM_0);
    assert_eq!(cpu.p_inst, 0);
    assert_eq!(cpu.bus.read(0), 0);
}

#[test]
fn cpu_reset_restores_initial_state_and_is_idempotent() {
    let mut cpu = Z80::new();
    cpu.bus.write(0x0000, 0xFB);
    cpu.bus.write(0x0001, 0xED);
    cpu.bus.write(0x0002, 0x5E);
    cpu.bus.write(0x0003, 0xDD);
    cpu.bus.write(0x0004, 0x76);
    cpu.execute();
    cpu.execute();
    cpu.execute();
    assert!(cpu.iff1);
    assert_eq!(cpu.im, InterruptMode::IM_2);
    assert!(!cpu.n_halt);
    assert_eq!(cpu.p_inst, 0xDD);
    cpu.pins.n_wait = false;
    cpu.reset();
    let fresh = Z80::new();
    assert_eq!(cpu.reg, fresh.reg);
    assert_eq!(cpu.pins, fresh.pins);
    assert_eq!(cpu.n_halt, fresh.n_halt);
    assert_eq!(cpu.iff1, fresh.iff1);
    assert_eq!(cpu.iff2, fresh.iff2);
    assert_eq!(cpu.im, fresh.im);
    assert_eq!(cpu.p_inst, fresh.p_inst);
    for addr in 0..=0xFFFFu16 {
        assert_eq!(cpu.bus.read(addr), 0);
    }
    cpu.reset();
    assert_eq!(cpu.reg, fresh.reg);
    assert_eq!(cpu.pins, fresh.pins);
    assert_eq!(cpu.p_inst, 0);
    assert_eq!(cpu.bus.read(0), 0);
}

#[test]
fn word_helpers() {
    assert_eq!(hi(0x1234), 0x12);
    assert_eq!(lo(0x1234), 0x34);
    assert_eq!(make_word(0xAB, 0xCD), 0xABCD);
    assert_eq!(displace(0x1000, 0x7F), 0x107F);
    assert_eq!(displace(0x1000, 0x80), 0x0F80);
    assert_eq!(displace(0x1000, 0xFF), 0x0FFF);
    assert_eq!(displace(0x0000, 0xFF), 0xFFFF);
    assert_eq!(displace(0xFFFF, 0x01), 0x0000);
}

#[test]
fn parity_counts_set_bits() {
    for v in 0..=0xFFu8 {
        assert_eq!(parity(v), v.count_ones() % 2 == 0);
    }
}

#[test]
fn cycle_tables_hold_the_documented_entries() {
    assert_eq!(CYCLES[0x00], 4);
    assert_eq!(CYCLES[0x01], 10);
    assert_eq!(CYCLES[0x10], 8);
    assert_eq!(CYCLES[0x18], 12);
    assert_eq!(CYCLES[0x34], 11);
    assert_eq!(CYCLES[0x76], 4);
    assert_eq!(CYCLES[0xCB], 0);
    assert_eq!(CYCLES[0xCD], 17);
    assert_eq!(CYCLES[0xDD], 4);
    assert_eq!(CYCLES[0xE3], 19);
    assert_eq!(CYCLES[0xED], 4);
    assert_eq!(CYCLES[0xFD], 4);
    assert_eq!(CYCLES_CB[0x00], 8);
    assert_eq!(CYCLES_CB[0x06], 15);
    assert_eq!(CYCLES_CB[0x46], 12);
    assert_eq!(CYCLES_ED[0x56], 4);
    assert_eq!(CYCLES_ED[0xB0], 12);
    assert_eq!(CYCLES_ED[0x00], 0);
    assert_eq!(CYCLES_DD_FD[0x21], 4);
    assert_eq!(CYCLES_DD_FD[0x34], 12);
    assert_eq!(CYCLES_DD_FD[0x36], 9);
    assert_eq!(CYCLES_DD_FD[0xCB], 0);
    assert_eq!(CYCLES_DD_FD_CB[0x06], 8);
    assert_eq!(CYCLES_DD_FD_CB[0x00], 15);
    assert_eq!(CYCLES_DD_FD_CB[0x40], 12);
}

#[test]
fn bus_load_lays_an_image_over_memory() {
    let mut bus = Bus::new();
    bus.write(0x0FFF, 0xAA);
    bus.write(0x1001, 0xBB);
    bus.write(0x1003, 0xCC);
    assert!(bus.load(0x1000, &[1, 2, 3]));
    assert_eq!(bus.read(0x0FFF), 0xAA);
    assert_eq!(bus.read(0x1000), 1);
    assert_eq!(bus.read(0x1001), 2);
    assert_eq!(bus.read(0x1002), 3);
    assert_eq!(bus.read(0x1003), 0xCC);
    assert!(bus.load(0x2000, &[]));
    assert!(bus.load(0xFFFF, &[0x77]));
    assert_eq!(bus.read(0xFFFF), 0x77);
    assert_eq!(bus.read(0x0000), 0);
}

#[test]
fn bus_load_refuses_an_image_that_does_not_fit() {
    let mut bus = Bus::new();
    bus.write(0xFFFF, 0x11);
    assert!(!bus.load(0xFFFF, &[1, 2]));
    assert_eq!(bus.read(0xFFFF), 0x11);
    assert_eq!(bus.read(0x0000), 0);
    let whole = vec![0x5Au8; 0x10000];
    assert!(!bus.load(0x0001, &whole));
    assert_eq!(bus.read(0x0001), 0);
    assert!(bus.load(0x0000, &whole));
    assert_eq!(bus.read(0x0000), 0x5A);
    assert_eq!(bus.read(0xFFFF), 0x5A);
}
