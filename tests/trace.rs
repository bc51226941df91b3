use nessy::bus::Bus;
use nessy::cpu::Cpu;
use nessy::error::NesError;
use nessy::opcodes::{AddrMode, Instruction};
use nessy::rom::test_rom;
use nessy::rom::Rom;
use nessy::trace::{format_trace, trace_line};

fn with_program(program: &[u8]) -> (Cpu, Bus) {
    let mut bus = Bus::new(test_rom());
    for (i, b) in program.iter().enumerate() {
        bus.write(0x0400 + i as u16, *b).unwrap();
    }
    let mut cpu = Cpu::new();
    cpu.pc = 0x0400;
    (cpu, bus)
}

#[test]
fn trace_indirect_indexed() {
    let (mut cpu, mut bus) = with_program(&[0xB1, 0x10]);
    bus.write(0x0010, 0xF0).unwrap();
    bus.write(0x0011, 0x02).unwrap();
    bus.write(0x0300, 0x99).unwrap();
    cpu.y = 0x10;
    let t = trace_line(&cpu, &bus).unwrap();
    assert_eq!(t.pc, 0x0400);
    assert_eq!(t.bytes, vec![0xB1, 0x10]);
    assert_eq!(t.info.instruction, Instruction::Lda);
    assert_eq!(t.info.mode, AddrMode::ZeroPageIndirectYIndexed);
    assert_eq!(t.pointer, 0x02F0);
    assert_eq!(t.address, Some(0x0300));
    assert_eq!(t.value, Some(0x99));
    assert!(!t.undocumented);
    assert_eq!(t.p, 0x20);
}

#[test]
fn trace_jump_and_undocumented() {
    let (cpu, mut bus) = with_program(&[0x4C, 0xF5, 0xC5]);
    let t = trace_line(&cpu, &bus).unwrap();
    assert_eq!(t.info.instruction, Instruction::Jmp);
    assert_eq!(t.address, Some(0xC5F5));
    assert_eq!(t.value, None);

    bus.write(0x0400, 0xA7).unwrap();
    let t = trace_line(&cpu, &bus).unwrap();
    assert!(t.undocumented);
    assert_eq!(t.info.instruction.mnemonic(), "LAX");

    bus.write(0x0400, 0xEB).unwrap();
    assert!(trace_line(&cpu, &bus).unwrap().undocumented);
    bus.write(0x0400, 0x04).unwrap();
    assert_eq!(trace_line(&cpu, &bus).unwrap().info.instruction.mnemonic(), "NOP");
}

#[test]
fn trace_branch_target_and_failures() {
    let (cpu, mut bus) = with_program(&[0xF0, 0xFE]);
    assert_eq!(trace_line(&cpu, &bus).unwrap().address, Some(0x0400));
    bus.write(0x0400, 0x02).unwrap();
    assert!(matches!(trace_line(&cpu, &bus), Err(NesError::UnknownOpcode(0x02))));
    let mut ppu_cpu = Cpu::new();
    ppu_cpu.pc = 0x2007;
    assert!(matches!(trace_line(&ppu_cpu, &bus), Err(NesError::UnmappedAccess(0x2007))));
}

fn text(cpu: &Cpu, bus: &Bus) -> String {
    String::from_utf8(format_trace(&trace_line(cpu, bus).unwrap())).unwrap()
}

#[test]
fn format_first_nestest_line() {
    let mut image = vec![0x4E, 0x45, 0x53, 0x1A, 1, 1, 0, 0, 0, 0, 0, 0, 0, 0, 0, 0];
    image.extend(std::iter::repeat(0u8).take(16384 + 8192));
    image[16] = 0x4C;
    image[17] = 0xF5;
    image[18] = 0xC5;
    let mut bus = Bus::new(Rom::from_ines(&image).unwrap());
    let mut cpu = Cpu::new();
    cpu.reset(&mut bus).unwrap();
    cpu.pc = 0xC000;
    assert_eq!(text(&cpu, &bus), "C000  4C F5 C5  JMP $C5F5                       A:00 X:00 Y:00 P:24 SP:FD");
}

#[test]
fn format_indexed_operands() {
    let (mut cpu, mut bus) = with_program(&[0xB1, 0x10]);
    bus.write(0x0010, 0xF0).unwrap();
    bus.write(0x0011, 0x02).unwrap();
    bus.write(0x0300, 0x99).unwrap();
    cpu.y = 0x10;
    cpu.set_status(0);
    assert_eq!(text(&cpu, &bus), "0400  B1 10     LDA ($10),Y = 02F0 @ 0300 = 99  A:00 X:00 Y:10 P:20 SP:FD");

    let (mut cpu, mut bus) = with_program(&[0xB5, 0x10]);
    bus.write(0x0015, 0x07).unwrap();
    cpu.x = 5;
    assert_eq!(text(&cpu, &bus), "0400  B5 10     LDA $10,X @ 15 = 07             A:00 X:05 Y:00 P:20 SP:FD");
}
