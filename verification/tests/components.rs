use mos6502::addressing::{resolve, AddressingMode, Operand};
use mos6502::assembler::assemble_program;
use mos6502::bus::Bus;
use mos6502::cpu::Cpu;
use mos6502::flags::Flags;
use mos6502::opcodes::{Mnemonic, OpcodeTable};

#[test]
fn bus_read_write_roundtrip() {
    let mut bus = Bus::new();
    assert_eq!(bus.read(0x1234), 0);
    bus.write(0x1234, 0xAB);
    assert_eq!(bus.read(0x1234), 0xAB);
    bus.write(0x0000, 0x01);
    bus.write(0xFFFF, 0x02);
    assert_eq!(bus.read(0x0000), 0x01);
    assert_eq!(bus.read(0xFFFF), 0x02);
}

#[test]
fn bus_words_are_little_endian() {
    let mut bus = Bus::new();
    bus.write_word(0x0200, 0xBEEF);
    assert_eq!(bus.read(0x0200), 0xEF);
    assert_eq!(bus.read(0x0201), 0xBE);
    assert_eq!(bus.read_word(0x0200), 0xBEEF);
}

#[test]
fn bus_word_addresses_wrap_at_the_top_of_memory() {
    let mut bus = Bus::new();
    bus.write(0xFFFF, 0x34);
    bus.write(0x0000, 0x12);
    assert_eq!(bus.read_word(0xFFFF), 0x1234);
}

#[test]
fn load_bytes_wraps_at_the_top_of_memory() {
    let mut bus = Bus::new();
    bus.load_bytes(&vec![0xAA, 0xBB, 0xCC], 0xFFFE);
    assert_eq!(bus.read(0xFFFE), 0xAA);
    assert_eq!(bus.read(0xFFFF), 0xBB);
    assert_eq!(bus.read(0x0000), 0xCC);
}

#[test]
fn opcode_table_knows_the_documented_set() {
    let table = OpcodeTable::new();
    let lda_imm = table.lookup(0xA9).unwrap();
    assert_eq!(lda_imm.code, 0xA9);
    assert_eq!(lda_imm.mnemonic, Mnemonic::Lda);
    assert_eq!(lda_imm.length, 2);
    assert_eq!(lda_imm.base_cycles, 2);
    assert_eq!(lda_imm.mode, AddressingMode::Immediate);

    let brk = table.lookup(0x00).unwrap();
    assert_eq!(brk.mnemonic, Mnemonic::Brk);
    assert_eq!(brk.length, 1);
    assert_eq!(brk.base_cycles, 7);

    let sta_indy = table.lookup(0x91).unwrap();
    assert_eq!(sta_indy.mnemonic, Mnemonic::Sta);
    assert_eq!(sta_indy.mode, AddressingMode::IndirectIndexed);
    assert_eq!(sta_indy.length, 2);
    assert_eq!(sta_indy.base_cycles, 6);

    // undocumented bytes have no entry
    assert!(table.lookup(0x02).is_none());
    assert!(table.lookup(0xFF).is_none());

    let mut documented: u32 = 0;
    for code in 0..=255u8 {
        if table.lookup(code).is_some() {
            documented += 1;
        }
    }
    assert_eq!(documented, 151);
}

#[test]
fn zero_page_x_wraps_within_the_zero_page() {
    // base byte 0xFF with X = 0x02 resolves to 0x0001, not 0x0101
    let mut bus = Bus::new();
    bus.write(0x0700, 0xFF);
    let (op, crossed) = resolve(AddressingMode::ZeroPageX, &bus, 0x0700, 0x02, 0x00);
    assert_eq!(op, Operand::Memory(0x0001));
    assert!(!crossed);
}

#[test]
fn zero_page_y_wraps_within_the_zero_page() {
    let mut bus = Bus::new();
    bus.write(0x0700, 0x80);
    let (op, _) = resolve(AddressingMode::ZeroPageY, &bus, 0x0700, 0x00, 0x90);
    assert_eq!(op, Operand::Memory(0x0010));
}

#[test]
fn absolute_indexed_records_page_crossing() {
    let mut bus = Bus::new();
    bus.write_word(0x0700, 0x12FF);
    let (op, crossed) = resolve(AddressingMode::AbsoluteX, &bus, 0x0700, 0x01, 0x00);
    assert_eq!(op, Operand::Memory(0x1300));
    assert!(crossed);
    let (op2, crossed2) = resolve(AddressingMode::AbsoluteY, &bus, 0x0700, 0x00, 0x00);
    assert_eq!(op2, Operand::Memory(0x12FF));
    assert!(!crossed2);
}

#[test]
fn absolute_indexed_wraps_the_full_address_space() {
    let mut bus = Bus::new();
    bus.write_word(0x0700, 0xFFFF);
    let (op, _) = resolve(AddressingMode::AbsoluteX, &bus, 0x0700, 0x02, 0x00);
    assert_eq!(op, Operand::Memory(0x0001));
}

#[test]
fn indexed_indirect_dereferences_through_the_zero_page() {
    // operand 0x20, X = 0x04 -> pointer at 0x24/0x25 -> 0x3074
    let mut bus = Bus::new();
    bus.write(0x0700, 0x20);
    bus.write(0x0024, 0x74);
    bus.write(0x0025, 0x30);
    let (op, _) = resolve(AddressingMode::IndexedIndirect, &bus, 0x0700, 0x04, 0x00);
    assert_eq!(op, Operand::Memory(0x3074));
}

#[test]
fn indexed_indirect_pointer_wraps_in_the_zero_page() {
    // operand 0xFF, X = 0x00: pointer bytes at 0xFF and 0x00
    let mut bus = Bus::new();
    bus.write(0x0700, 0xFF);
    bus.write(0x00FF, 0x34);
    bus.write(0x0000, 0x12);
    let (op, _) = resolve(AddressingMode::IndexedIndirect, &bus, 0x0700, 0x00, 0x00);
    assert_eq!(op, Operand::Memory(0x1234));
}

#[test]
fn indirect_indexed_adds_y_after_the_dereference() {
    // operand 0x86 -> pointer 0x4028; Y = 0x10 -> 0x4038
    let mut bus = Bus::new();
    bus.write(0x0700, 0x86);
    bus.write(0x0086, 0x28);
    bus.write(0x0087, 0x40);
    let (op, crossed) = resolve(AddressingMode::IndirectIndexed, &bus, 0x0700, 0x00, 0x10);
    assert_eq!(op, Operand::Memory(0x4038));
    assert!(!crossed);
}

#[test]
fn immediate_and_implied_operands() {
    let mut bus = Bus::new();
    bus.write(0x0700, 0x99);
    let (op, _) = resolve(AddressingMode::Immediate, &bus, 0x0700, 0, 0);
    assert_eq!(op, Operand::Immediate(0x99));
    let (op2, _) = resolve(AddressingMode::Implied, &bus, 0x0700, 0, 0);
    assert_eq!(op2, Operand::Implied);
}

#[test]
fn flags_pack_and_unpack() {
    let f = Flags::reset();
    assert_eq!(f.to_byte(), 0x24);
    let g = Flags::from_byte(0xFF);
    assert!(g.negative && g.overflow && g.break2 && g.brk);
    assert!(g.decimal && g.interrupt_disable && g.zero && g.carry);
    let h = Flags::from_byte(0x81);
    assert!(h.negative && h.carry);
    assert!(!h.zero && !h.overflow && !h.brk && !h.break2);
    assert_eq!(h.to_byte(), 0x81);
}

#[test]
fn flags_render_as_a_display_line() {
    let f = Flags::reset(); // Break2 and InterruptDisable set
    assert_eq!(f.to_line(), "0 0 1 0 0 1 0 0 ");
    let g = Flags::from_byte(0x81);
    assert_eq!(g.to_line(), "1 0 0 0 0 0 0 1 ");
}

#[test]
fn assembles_and_runs_the_store_sequence_end_to_end() {
    let source = b"LDA #$01\nSTA $0200\nLDA #$05\nSTA $0201\nLDA #$08\nSTA $0202";
    let program = assemble_program(source).unwrap();
    assert!(!program.is_empty());
    assert_ne!(program.as_slice(), &source[..]);
    let mut cpu = Cpu::new(Bus::new());
    cpu.load(&program);
    cpu.reset();
    assert_eq!(cpu.program_counter, 0x0600);
    cpu.run(10_000).unwrap();
    assert!(cpu.halted);
    assert_eq!(cpu.bus.read(0x0200), 0x01);
    assert_eq!(cpu.bus.read(0x0201), 0x05);
    assert_eq!(cpu.bus.read(0x0202), 0x08);
    assert_eq!(cpu.reg_a, 0x08);
}

#[test]
fn assembling_the_documented_example_gives_its_machine_code() {
    let program = assemble_program(b"LDA #1\nADC #1\nCMP #2").unwrap();
    assert_eq!(program, vec![0xA9, 0x01, 0x69, 0x01, 0xC9, 0x02]);
}

#[test]
fn assembly_failure_is_reported() {
    // TAX takes no operand; the assembler must refuse it
    let r = assemble_program(b"TAX #$01\n");
    assert!(r.is_err());
}
