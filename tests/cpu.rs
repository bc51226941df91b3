use nessy::bus::Bus;
use nessy::cpu::Cpu;
use nessy::error::NesError;
use nessy::rom::test_rom;

#[test]
fn is_crossing() {
    assert_eq!(Cpu::is_crossing(0xABCD, 0xABCE), false);
    assert_eq!(Cpu::is_crossing(0x00FF, 0x0100), true);
    assert_eq!(Cpu::is_crossing(0xAB00, 0xFF00), true);
}

#[test]
fn test_lda_immediate() {
    let mut cpu = Cpu::new();
    let mut bus = Bus::new(test_rom());
    cpu.load_and_run(&mut bus, &vec![0xa9, 0x05, 0x00]).unwrap();
    assert_eq!(cpu.a, 5);
    assert!(cpu.get_status() & 0b0000_0010 == 0b00);
    assert!(cpu.get_status() & 0b1000_0000 == 0);
}

#[test]
fn test_lda_absolute() {
    let mut cpu = Cpu::new();
    let mut bus = Bus::new(test_rom());
    bus.write(0x0710, 0x55).unwrap();

    cpu.load_and_run(&mut bus, &vec![0xad, 0x10, 0x07, 0x00]).unwrap();

    assert_eq!(cpu.a, 0x55);
}

#[test]
fn test_lda_zero_page() {
    let mut cpu = Cpu::new();
    let mut bus = Bus::new(test_rom());
    bus.write(0x10, 0x55).unwrap();

    cpu.load_and_run(&mut bus, &vec![0xa5, 0x10, 0x00]).unwrap();

    assert_eq!(cpu.a, 0x55);
}

#[test]
fn test_tax() {
    let mut cpu = Cpu::new();
    let mut bus = Bus::new(test_rom());
    cpu.a = 10;
    cpu.load_and_run(&mut bus, &vec![0xaa, 0x00]).unwrap();

    assert_eq!(cpu.x, 10)
}

#[test]
fn test_adc_x_indexed_zero_page() {
    let mut cpu = Cpu::new();
    let mut bus = Bus::new(test_rom());

    bus.write(0x15, 0x20).unwrap();
    cpu.x = 0x05;
    cpu.a = 0x01;
    // x indexed zero page
    cpu.load_and_run(&mut bus, &vec![0x75, 0x10, 0x00]).unwrap();

    assert_eq!(cpu.a, 0x21);
    assert_eq!(cpu.c, 0);
}

#[test]
fn test_cmp_immediate() {
    let mut cpu = Cpu::new();
    let mut bus = Bus::new(test_rom());
    cpu.a = 0x10; // Set accumulator

    cpu.load_and_run(&mut bus, &vec![0xC9, 0x10, 0x00]).unwrap();
    assert_eq!(cpu.z, 1);
    assert_eq!(cpu.c, 1);
    assert_eq!(cpu.n, 0);

    cpu.load_and_run(&mut bus, &vec![0xC9, 0x09, 0x00]).unwrap();
    assert_eq!(cpu.z, 0);
    assert_eq!(cpu.c, 1);
    assert_eq!(cpu.n, 0);

    cpu.load_and_run(&mut bus, &vec![0xC9, 0x11, 0x00]).unwrap();
    assert_eq!(cpu.z, 0);
    assert_eq!(cpu.c, 0);
    assert_eq!(cpu.n, 1);

    assert_eq!(cpu.a, 0x10);
}

#[test]
fn test_lsr_accumulator() {
    let mut cpu = Cpu::new();
    let mut bus = Bus::new(test_rom());

    cpu.a = 0x01;
    cpu.load_and_run(&mut bus, &vec![0x4A, 0x00]).unwrap();
    assert_eq!(cpu.a, 0x00);
    assert_eq!(cpu.c, 1);
    assert_eq!(cpu.z, 1);
}

#[test]
fn test_rol_absolute() {
    let mut cpu = Cpu::new();
    let mut bus = Bus::new(test_rom());
    bus.write(0x0110, 0xA2).unwrap(); // 1010 0010

    cpu.load_and_run(&mut bus, &vec![0x2E, 0x10, 0x01, 0x00]).unwrap();
    assert_eq!(bus.read(0x0110).unwrap(), 0x44); // 0100 0100
    assert_eq!(cpu.c, 1);
    assert_eq!(cpu.n, 0);
    assert_eq!(cpu.z, 0);
}

#[test]
fn test_ror_absolute() {
    let mut cpu = Cpu::new();
    let mut bus = Bus::new(test_rom());
    bus.write(0x0110, 0xA2).unwrap(); // 1010 0010

    cpu.load_and_run(&mut bus, &vec![0x6E, 0x10, 0x01, 0x00]).unwrap();
    assert_eq!(bus.read(0x0110).unwrap(), 0x51); //  0101 0001
    assert_eq!(cpu.c, 0);
    assert_eq!(cpu.n, 0);
    assert_eq!(cpu.z, 0);
}

#[test]
fn test_inx_overflow() {
    let mut cpu = Cpu::new();
    let mut bus = Bus::new(test_rom());
    cpu.x = 0xff;
    cpu.load_and_run(&mut bus, &vec![0xe8, 0xe8, 0x00]).unwrap();

    assert_eq!(cpu.x, 1)
}

#[test]
fn test_lda_tax_inx() {
    let mut cpu = Cpu::new();
    // lda, tax, inx
    let mut bus = Bus::new(test_rom());
    cpu.load_and_run(&mut bus, &vec![0xa9, 0xc0, 0xaa, 0xe8, 0x00]).unwrap();

    assert_eq!(cpu.x, 0xc1)
}

#[test]
fn test_status() {
    let mut cpu = Cpu::new();
    cpu.set_status(0b0010_0100);

    assert_eq!(cpu.i, 1);
    assert_eq!(cpu.get_status(), 0b0010_0100);
}

/// A processor at `0x0200` with `program` there.
fn at_program(program: &[u8]) -> (Cpu, Bus) {
    let mut bus = Bus::new(test_rom());
    for (i, b) in program.iter().enumerate() {
        bus.write(0x0200 + i as u16, *b).unwrap();
    }
    let mut cpu = Cpu::new();
    cpu.pc = 0x0200;
    (cpu, bus)
}

#[test]
fn lda_tax_inx_sets_negative() {
    let mut cpu = Cpu::new();
    let mut bus = Bus::new(test_rom());
    cpu.load_and_run(&mut bus, &vec![0xa9, 0xc0, 0xaa, 0xe8, 0x00]).unwrap();
    assert_eq!(cpu.x, 0xc1);
    assert_eq!(cpu.n, 1);
    assert_eq!(cpu.z, 0);
}

#[test]
fn lda_immediate_then_brk_leaves_flags_clear() {
    let mut cpu = Cpu::new();
    let mut bus = Bus::new(test_rom());
    cpu.load_and_run(&mut bus, &vec![0xa9, 0x05, 0x00]).unwrap();
    assert_eq!(cpu.a, 0x05);
    assert_eq!(cpu.z, 0);
    assert_eq!(cpu.n, 0);
}

#[test]
fn inx_wraps_to_zero() {
    let (mut cpu, mut bus) = at_program(&[0xE8]);
    cpu.x = 0xFF;
    assert_eq!(cpu.step(&mut bus).unwrap(), 2);
    assert_eq!(cpu.x, 0x00);
    assert_eq!(cpu.z, 1);
    assert_eq!(cpu.n, 0);
}

#[test]
fn jmp_indirect_high_byte_stays_on_page() {
    let (mut cpu, mut bus) = at_program(&[0x6C, 0xFF, 0x03]);
    bus.write(0x03FF, 0x34).unwrap();
    bus.write(0x0300, 0x12).unwrap();
    bus.write(0x0400, 0x56).unwrap();
    assert_eq!(cpu.step(&mut bus).unwrap(), 5);
    assert_eq!(cpu.pc, 0x1234);
}

#[test]
fn indirect_indexed_pointer_wraps_in_zero_page() {
    let (mut cpu, mut bus) = at_program(&[0xB1, 0xFF]);
    bus.write(0x00FF, 0x00).unwrap();
    bus.write(0x0000, 0x03).unwrap();
    bus.write(0x0100, 0x07).unwrap();
    bus.write(0x0302, 0x77).unwrap();
    cpu.y = 2;
    assert_eq!(cpu.step(&mut bus).unwrap(), 5);
    assert_eq!(cpu.a, 0x77);
}

#[test]
fn indexed_absolute_page_cross_costs_a_cycle() {
    let (mut cpu, mut bus) = at_program(&[0xBD, 0xFF, 0x02, 0xBD, 0x00, 0x03]);
    bus.write(0x0300, 0x01).unwrap();
    cpu.x = 1;
    assert_eq!(cpu.step(&mut bus).unwrap(), 5);
    assert_eq!(cpu.a, 0x01);
    assert_eq!(cpu.step(&mut bus).unwrap(), 4);
}

#[test]
fn branch_cycles() {
    // Not taken: base cycles only.
    let (mut cpu, mut bus) = at_program(&[0xD0, 0x02]);
    cpu.z = 1;
    assert_eq!(cpu.step(&mut bus).unwrap(), 2);
    assert_eq!(cpu.pc, 0x0202);

    // Taken on the same page.
    let (mut cpu, mut bus) = at_program(&[0xD0, 0x02]);
    assert_eq!(cpu.step(&mut bus).unwrap(), 3);
    assert_eq!(cpu.pc, 0x0204);

    // Taken backwards across a page.
    let (mut cpu, mut bus) = at_program(&[0xD0, 0x80]);
    assert_eq!(cpu.step(&mut bus).unwrap(), 4);
    assert_eq!(cpu.pc, 0x0182);
}

#[test]
fn push_then_pull_restores_value_and_stack_pointer() {
    let (mut cpu, mut bus) = at_program(&[0x48, 0xA9, 0x00, 0x68]);
    cpu.a = 0x42;
    let sp = cpu.sp;
    cpu.step(&mut bus).unwrap();
    assert_eq!(cpu.sp, sp.wrapping_sub(1));
    assert_eq!(bus.read(0x0100 + sp as u16).unwrap(), 0x42);
    cpu.step(&mut bus).unwrap();
    assert_eq!(cpu.a, 0x00);
    cpu.step(&mut bus).unwrap();
    assert_eq!(cpu.a, 0x42);
    assert_eq!(cpu.sp, sp);
    assert_eq!(cpu.n, 0);
    assert_eq!(cpu.z, 0);
}

#[test]
fn status_bit_five_always_reads_set() {
    let mut cpu = Cpu::new();
    cpu.set_status(0x00);
    assert_eq!(cpu.get_status(), 0x20);
    cpu.set_status(0xFF);
    assert_eq!(cpu.get_status(), 0xFF);
    cpu.set_status(0b1101_1011);
    assert_eq!(cpu.get_status(), 0b1111_1011);
}

#[test]
fn php_sets_break_and_plp_clears_it() {
    let (mut cpu, mut bus) = at_program(&[0x08, 0x28]);
    cpu.set_status(0b1100_0011);
    cpu.step(&mut bus).unwrap();
    assert_eq!(bus.read(0x01FD).unwrap(), 0b1111_0011);
    cpu.step(&mut bus).unwrap();
    assert_eq!(cpu.b, 0);
    assert_eq!(cpu.get_status(), 0b1110_0011);
}

#[test]
fn adc_is_nine_bit_addition() {
    let (mut cpu, mut bus) = at_program(&[0x38, 0x69, 0x01]);
    cpu.a = 0xFF;
    cpu.step(&mut bus).unwrap();
    cpu.step(&mut bus).unwrap();
    assert_eq!(cpu.a, 0x01);
    assert_eq!(cpu.c, 1);
    assert_eq!(cpu.z, 0);
    assert_eq!(cpu.v, 0);
}

#[test]
fn adc_signed_overflow() {
    let (mut cpu, mut bus) = at_program(&[0x69, 0x50]);
    cpu.a = 0x50;
    cpu.step(&mut bus).unwrap();
    assert_eq!(cpu.a, 0xA0);
    assert_eq!(cpu.v, 1);
    assert_eq!(cpu.n, 1);
    assert_eq!(cpu.c, 0);
}

#[test]
fn sbc_equals_adc_of_complement() {
    for (a, m, c) in [(0x50u8, 0xF0u8, 1u8), (0x50, 0xB0, 0), (0x00, 0x01, 1), (0x80, 0x01, 1), (0x10, 0x10, 0)] {
        let (mut sub, mut bus1) = at_program(&[0xE9, m]);
        sub.a = a;
        sub.c = c;
        sub.step(&mut bus1).unwrap();
        let (mut add, mut bus2) = at_program(&[0x69, m ^ 0xFF]);
        add.a = a;
        add.c = c;
        add.step(&mut bus2).unwrap();
        assert_eq!(sub.a, add.a);
        assert_eq!(sub.get_status(), add.get_status());
    }
    // 0x50 - 0xF0 borrows.
    let (mut cpu, mut bus) = at_program(&[0x38, 0xE9, 0xF0]);
    cpu.a = 0x50;
    cpu.step(&mut bus).unwrap();
    cpu.step(&mut bus).unwrap();
    assert_eq!(cpu.a, 0x60);
    assert_eq!(cpu.c, 0);
}

#[test]
fn bit_copies_high_bits() {
    let (mut cpu, mut bus) = at_program(&[0x24, 0x10]);
    bus.write(0x0010, 0xC0).unwrap();
    cpu.a = 0x01;
    cpu.step(&mut bus).unwrap();
    assert_eq!(cpu.n, 1);
    assert_eq!(cpu.v, 1);
    assert_eq!(cpu.z, 1);
    assert_eq!(cpu.a, 0x01);
}

#[test]
fn jsr_and_rts_round_trip() {
    let (mut cpu, mut bus) = at_program(&[0x20, 0x10, 0x02, 0xEA, 0, 0, 0, 0, 0, 0, 0, 0, 0, 0, 0, 0, 0x60]);
    assert_eq!(cpu.step(&mut bus).unwrap(), 6);
    assert_eq!(cpu.pc, 0x0210);
    assert_eq!(bus.read(0x01FD).unwrap(), 0x02);
    assert_eq!(bus.read(0x01FC).unwrap(), 0x02);
    cpu.step(&mut bus).unwrap();
    assert_eq!(cpu.pc, 0x0203);
    assert_eq!(cpu.sp, 0xFD);
}

#[test]
fn brk_pushes_return_and_status_then_jumps() {
    let (mut cpu, mut bus) = at_program(&[0x00, 0xEA]);
    cpu.set_status(0b0000_0001);
    assert_eq!(cpu.step(&mut bus).unwrap(), 7);
    // The vector at 0xFFFE of the empty cartridge is zero.
    assert_eq!(cpu.pc, 0x0000);
    assert_eq!(cpu.i, 1);
    assert_eq!(bus.read(0x01FD).unwrap(), 0x02);
    assert_eq!(bus.read(0x01FC).unwrap(), 0x02);
    assert_eq!(bus.read(0x01FB).unwrap(), 0b0011_0001);
    assert_eq!(cpu.sp, 0xFA);
}

#[test]
fn rti_restores_status_and_pc() {
    let (mut cpu, mut bus) = at_program(&[0x40]);
    cpu.sp = 0xFA;
    bus.write(0x01FB, 0b1100_0011).unwrap();
    bus.write(0x01FC, 0x34).unwrap();
    bus.write(0x01FD, 0x12).unwrap();
    cpu.step(&mut bus).unwrap();
    assert_eq!(cpu.pc, 0x1234);
    assert_eq!(cpu.get_status(), 0b1110_0011);
    assert_eq!(cpu.sp, 0xFD);
}

#[test]
fn txs_leaves_flags() {
    let (mut cpu, mut bus) = at_program(&[0x9A]);
    cpu.x = 0x00;
    cpu.step(&mut bus).unwrap();
    assert_eq!(cpu.sp, 0x00);
    assert_eq!(cpu.z, 0);
}

#[test]
fn undocumented_read_modify_write() {
    // DCP: decrement then compare.
    let (mut cpu, mut bus) = at_program(&[0xC7, 0x10]);
    bus.write(0x0010, 0x06).unwrap();
    cpu.a = 0x05;
    assert_eq!(cpu.step(&mut bus).unwrap(), 5);
    assert_eq!(bus.read(0x0010).unwrap(), 0x05);
    assert_eq!(cpu.z, 1);
    assert_eq!(cpu.c, 1);

    // ISB: increment then subtract.
    let (mut cpu, mut bus) = at_program(&[0xE7, 0x10]);
    bus.write(0x0010, 0x01).unwrap();
    cpu.a = 0x05;
    cpu.c = 1;
    cpu.step(&mut bus).unwrap();
    assert_eq!(bus.read(0x0010).unwrap(), 0x02);
    assert_eq!(cpu.a, 0x03);

    // SLO: shift left then or.
    let (mut cpu, mut bus) = at_program(&[0x07, 0x10]);
    bus.write(0x0010, 0x81).unwrap();
    cpu.a = 0x10;
    cpu.step(&mut bus).unwrap();
    assert_eq!(bus.read(0x0010).unwrap(), 0x02);
    assert_eq!(cpu.a, 0x12);
    assert_eq!(cpu.c, 1);

    // SRE: shift right then exclusive or.
    let (mut cpu, mut bus) = at_program(&[0x47, 0x10]);
    bus.write(0x0010, 0x03).unwrap();
    cpu.a = 0x01;
    cpu.step(&mut bus).unwrap();
    assert_eq!(bus.read(0x0010).unwrap(), 0x01);
    assert_eq!(cpu.a, 0x00);
    assert_eq!(cpu.z, 1);
    assert_eq!(cpu.c, 1);

    // RLA: rotate left then and.
    let (mut cpu, mut bus) = at_program(&[0x27, 0x10]);
    bus.write(0x0010, 0x80).unwrap();
    cpu.a = 0xFF;
    cpu.c = 1;
    cpu.step(&mut bus).unwrap();
    assert_eq!(bus.read(0x0010).unwrap(), 0x01);
    assert_eq!(cpu.a, 0x01);
    assert_eq!(cpu.c, 1);

    // RRA: rotate right then add.
    let (mut cpu, mut bus) = at_program(&[0x67, 0x10]);
    bus.write(0x0010, 0x03).unwrap();
    cpu.a = 0x10;
    cpu.c = 0;
    cpu.step(&mut bus).unwrap();
    assert_eq!(bus.read(0x0010).unwrap(), 0x01);
    assert_eq!(cpu.a, 0x12);
}

#[test]
fn lax_and_sax() {
    let (mut cpu, mut bus) = at_program(&[0xA7, 0x10, 0x87, 0x11]);
    bus.write(0x0010, 0xF0).unwrap();
    cpu.step(&mut bus).unwrap();
    assert_eq!(cpu.a, 0xF0);
    assert_eq!(cpu.x, 0xF0);
    assert_eq!(cpu.n, 1);
    cpu.a = 0x3C;
    cpu.step(&mut bus).unwrap();
    assert_eq!(bus.read(0x0011).unwrap(), 0x30);
}

#[test]
fn double_and_triple_nops_consume_operands() {
    let (mut cpu, mut bus) = at_program(&[0x04, 0x10, 0x1C, 0xFF, 0x02, 0x1A]);
    cpu.x = 1;
    assert_eq!(cpu.step(&mut bus).unwrap(), 3);
    assert_eq!(cpu.pc, 0x0202);
    assert_eq!(cpu.step(&mut bus).unwrap(), 5);
    assert_eq!(cpu.pc, 0x0205);
    assert_eq!(cpu.step(&mut bus).unwrap(), 2);
    assert_eq!(cpu.pc, 0x0206);
}

#[test]
fn unknown_opcode_fails() {
    let mut cpu = Cpu::new();
    let mut bus = Bus::new(test_rom());
    assert_eq!(cpu.load_and_run(&mut bus, &vec![0x02]), Err(NesError::UnknownOpcode(0x02)));
}

#[test]
fn reset_reads_vector() {
    let mut cpu = Cpu::new();
    let mut bus = Bus::new(test_rom());
    cpu.a = 7;
    cpu.sp = 0;
    cpu.reset(&mut bus).unwrap();
    assert_eq!(cpu.sp, 0xFD);
    assert_eq!(cpu.get_status(), 0b0010_0100);
    assert_eq!(cpu.pc, 0x0000);
    assert_eq!(cpu.a, 7);
}

#[test]
fn run_with_callback_sees_each_round() {
    let (mut cpu, mut bus) = at_program(&[0xA9, 0x05, 0xAA, 0x00]);
    let seen: std::cell::RefCell<Vec<u16>> = std::cell::RefCell::new(Vec::new());
    cpu.run_with_callback(&mut bus, |c: &Cpu, _b: &Bus| seen.borrow_mut().push(c.pc)).unwrap();
    assert_eq!(seen.into_inner(), vec![0x0200, 0x0202, 0x0203]);
    assert_eq!(cpu.x, 0x05);
    assert_eq!(cpu.pc, 0x0204);
}

#[test]
fn page_cross_cycle_only_for_reads() {
    // STA abs,X and ASL abs,X count the indexing cycle in their base count.
    let (mut cpu, mut bus) = at_program(&[0x9D, 0xFF, 0x02, 0x1E, 0xFF, 0x02, 0xBD, 0xFF, 0x02]);
    cpu.x = 1;
    assert_eq!(cpu.step(&mut bus).unwrap(), 5);
    assert_eq!(cpu.step(&mut bus).unwrap(), 7);
    assert_eq!(cpu.step(&mut bus).unwrap(), 5);
}
