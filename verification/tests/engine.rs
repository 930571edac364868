use mos6502::bus::Bus;
use mos6502::cpu::{Cpu, EmuError, InstructionSink, LOAD_ADDR};

fn fresh_cpu() -> Cpu {
    Cpu::new(Bus::new())
}

fn cpu_with_program(program: Vec<u8>) -> Cpu {
    let mut cpu = fresh_cpu();
    cpu.load(&program);
    cpu.reset();
    cpu
}

#[test]
fn reset_establishes_documented_state() {
    let mut cpu = cpu_with_program(vec![0xA9, 0x07]);
    cpu.reg_a = 3;
    cpu.reg_x = 4;
    cpu.reg_y = 5;
    cpu.reset();
    assert_eq!(cpu.reg_a, 0);
    assert_eq!(cpu.reg_x, 0);
    assert_eq!(cpu.reg_y, 0);
    assert_eq!(cpu.stack_pointer, 0xFD);
    assert_eq!(cpu.program_counter, 0x0600);
    assert!(cpu.status.interrupt_disable);
    assert!(cpu.status.break2);
    assert!(!cpu.status.carry);
    assert!(!cpu.status.zero);
    assert!(!cpu.halted);
    // loaded memory survives the reset
    assert_eq!(cpu.bus.read(0x0600), 0xA9);
    assert_eq!(cpu.bus.read(0x0601), 0x07);
}

#[test]
fn load_is_verbatim_at_the_fixed_address() {
    let cpu = cpu_with_program(vec![1, 2, 3]);
    assert_eq!(LOAD_ADDR, 0x0600);
    assert_eq!(cpu.bus.read(0x0600), 1);
    assert_eq!(cpu.bus.read(0x0601), 2);
    assert_eq!(cpu.bus.read(0x0602), 3);
    assert_eq!(cpu.bus.read(0x0603), 0);
}

#[test]
fn lda_zero_sets_zero_and_clears_negative() {
    let mut cpu = cpu_with_program(vec![0xA9, 0x00]);
    cpu.step().unwrap();
    assert_eq!(cpu.reg_a, 0x00);
    assert!(cpu.status.zero);
    assert!(!cpu.status.negative);
}

#[test]
fn lda_0x80_sets_negative_and_clears_zero() {
    let mut cpu = cpu_with_program(vec![0xA9, 0x80]);
    cpu.step().unwrap();
    assert_eq!(cpu.reg_a, 0x80);
    assert!(!cpu.status.zero);
    assert!(cpu.status.negative);
}

#[test]
fn lda_0x01_clears_both() {
    let mut cpu = cpu_with_program(vec![0xA9, 0x01]);
    cpu.step().unwrap();
    assert_eq!(cpu.reg_a, 0x01);
    assert!(!cpu.status.zero);
    assert!(!cpu.status.negative);
}

#[test]
fn adc_0x50_plus_0x50_signals_signed_overflow() {
    // LDA #$50; ADC #$50 with carry initially clear
    let mut cpu = cpu_with_program(vec![0xA9, 0x50, 0x69, 0x50]);
    cpu.step().unwrap();
    cpu.step().unwrap();
    assert_eq!(cpu.reg_a, 0xA0);
    assert!(!cpu.status.carry);
    assert!(cpu.status.overflow);
    assert!(cpu.status.negative);
    assert!(!cpu.status.zero);
}

#[test]
fn adc_with_carry_in_and_unsigned_overflow() {
    // SEC; LDA #$FF; ADC #$00 -> 0x00, carry out, zero
    let mut cpu = cpu_with_program(vec![0x38, 0xA9, 0xFF, 0x69, 0x00]);
    cpu.step().unwrap();
    cpu.step().unwrap();
    cpu.step().unwrap();
    assert_eq!(cpu.reg_a, 0x00);
    assert!(cpu.status.carry);
    assert!(cpu.status.zero);
    assert!(!cpu.status.overflow);
}

#[test]
fn sbc_signals_signed_overflow() {
    // SEC; LDA #$50; SBC #$B0 -> 0xA0 with overflow, borrow taken
    let mut cpu = cpu_with_program(vec![0x38, 0xA9, 0x50, 0xE9, 0xB0]);
    cpu.step().unwrap();
    cpu.step().unwrap();
    cpu.step().unwrap();
    assert_eq!(cpu.reg_a, 0xA0);
    assert!(!cpu.status.carry);
    assert!(cpu.status.overflow);
    assert!(cpu.status.negative);
}

#[test]
fn sbc_exact_difference_keeps_carry() {
    // SEC; LDA #$09; SBC #$04 -> 0x05, no borrow
    let mut cpu = cpu_with_program(vec![0x38, 0xA9, 0x09, 0xE9, 0x04]);
    cpu.step().unwrap();
    cpu.step().unwrap();
    cpu.step().unwrap();
    assert_eq!(cpu.reg_a, 0x05);
    assert!(cpu.status.carry);
    assert!(!cpu.status.overflow);
    assert!(!cpu.status.zero);
}

#[test]
fn cmp_equal_sets_zero_and_carry() {
    // LDA #$42; CMP #$42
    let mut cpu = cpu_with_program(vec![0xA9, 0x42, 0xC9, 0x42]);
    cpu.step().unwrap();
    cpu.step().unwrap();
    assert_eq!(cpu.reg_a, 0x42);
    assert!(cpu.status.zero);
    assert!(cpu.status.carry);
    assert!(!cpu.status.negative);
}

#[test]
fn cmp_smaller_clears_carry_and_sets_negative() {
    // LDX #$10; CPX #$20 -> difference 0xF0
    let mut cpu = cpu_with_program(vec![0xA2, 0x10, 0xE0, 0x20]);
    cpu.step().unwrap();
    cpu.step().unwrap();
    assert!(!cpu.status.carry);
    assert!(!cpu.status.zero);
    assert!(cpu.status.negative);
}

#[test]
fn logic_ops_on_accumulator() {
    // LDA #$0F; AND #$8F; ORA #$40; EOR #$FF
    let mut cpu = cpu_with_program(vec![0xA9, 0x0F, 0x29, 0x8F, 0x09, 0x40, 0x49, 0xFF]);
    cpu.step().unwrap();
    cpu.step().unwrap();
    assert_eq!(cpu.reg_a, 0x0F);
    cpu.step().unwrap();
    assert_eq!(cpu.reg_a, 0x4F);
    cpu.step().unwrap();
    assert_eq!(cpu.reg_a, 0xB0);
    assert!(cpu.status.negative);
}

#[test]
fn bit_reads_memory_bits_into_flags() {
    // $10 holds 0xC0; LDA #$0F; BIT $10 -> zero (no common bits), N and V from memory
    let mut cpu = cpu_with_program(vec![0xA9, 0x0F, 0x24, 0x10]);
    cpu.bus.write(0x0010, 0xC0);
    cpu.step().unwrap();
    cpu.step().unwrap();
    assert!(cpu.status.zero);
    assert!(cpu.status.negative);
    assert!(cpu.status.overflow);
    assert_eq!(cpu.reg_a, 0x0F);
}

#[test]
fn asl_accumulator_shifts_out_high_bit() {
    // LDA #$81; ASL A -> 0x02, carry set
    let mut cpu = cpu_with_program(vec![0xA9, 0x81, 0x0A]);
    cpu.step().unwrap();
    cpu.step().unwrap();
    assert_eq!(cpu.reg_a, 0x02);
    assert!(cpu.status.carry);
    assert!(!cpu.status.zero);
}

#[test]
fn lsr_memory_shifts_into_carry() {
    // LSR $10 with $10 = 0x01 -> 0x00, carry set, zero set
    let mut cpu = cpu_with_program(vec![0x46, 0x10]);
    cpu.bus.write(0x0010, 0x01);
    cpu.step().unwrap();
    assert_eq!(cpu.bus.read(0x0010), 0x00);
    assert!(cpu.status.carry);
    assert!(cpu.status.zero);
}

#[test]
fn rol_and_ror_move_the_carry() {
    // SEC; ROL A on 0x40 -> 0x81; then ROR A -> 0xC0 with carry from bit 0
    let mut cpu = cpu_with_program(vec![0xA9, 0x40, 0x38, 0x2A, 0x6A]);
    cpu.step().unwrap();
    cpu.step().unwrap();
    cpu.step().unwrap();
    assert_eq!(cpu.reg_a, 0x81);
    assert!(!cpu.status.carry);
    cpu.step().unwrap();
    assert_eq!(cpu.reg_a, 0x40);
    assert!(cpu.status.carry);
}

#[test]
fn inc_wraps_memory_to_zero() {
    let mut cpu = cpu_with_program(vec![0xE6, 0x10]);
    cpu.bus.write(0x0010, 0xFF);
    cpu.step().unwrap();
    assert_eq!(cpu.bus.read(0x0010), 0x00);
    assert!(cpu.status.zero);
}

#[test]
fn register_increments_and_decrements_wrap() {
    // LDX #$FF; INX; DEX
    let mut cpu = cpu_with_program(vec![0xA2, 0xFF, 0xE8, 0xCA]);
    cpu.step().unwrap();
    cpu.step().unwrap();
    assert_eq!(cpu.reg_x, 0x00);
    assert!(cpu.status.zero);
    cpu.step().unwrap();
    assert_eq!(cpu.reg_x, 0xFF);
    assert!(cpu.status.negative);
}

#[test]
fn stores_write_registers_to_memory() {
    // LDA #$11; LDX #$22; LDY #$33; STA $40; STX $41; STY $42
    let mut cpu = cpu_with_program(vec![
        0xA9, 0x11, 0xA2, 0x22, 0xA0, 0x33, 0x85, 0x40, 0x86, 0x41, 0x84, 0x42,
    ]);
    for _ in 0..6u8 {
        cpu.step().unwrap();
    }
    assert_eq!(cpu.bus.read(0x0040), 0x11);
    assert_eq!(cpu.bus.read(0x0041), 0x22);
    assert_eq!(cpu.bus.read(0x0042), 0x33);
}

#[test]
fn transfers_move_registers() {
    // LDA #$80; TAX; TXS; TSX keeps N flag from value
    let mut cpu = cpu_with_program(vec![0xA9, 0x80, 0xAA, 0x9A, 0xBA]);
    cpu.step().unwrap();
    cpu.step().unwrap();
    assert_eq!(cpu.reg_x, 0x80);
    assert!(cpu.status.negative);
    cpu.step().unwrap();
    assert_eq!(cpu.stack_pointer, 0x80);
    cpu.step().unwrap();
    assert_eq!(cpu.reg_x, 0x80);
    assert!(cpu.status.negative);
}

#[test]
fn flag_instructions_set_and_clear() {
    // SEC; SED; CLC; CLD; CLI (interrupt flag starts set)
    let mut cpu = cpu_with_program(vec![0x38, 0xF8, 0x18, 0xD8, 0x58]);
    cpu.step().unwrap();
    assert!(cpu.status.carry);
    cpu.step().unwrap();
    assert!(cpu.status.decimal);
    cpu.step().unwrap();
    assert!(!cpu.status.carry);
    cpu.step().unwrap();
    assert!(!cpu.status.decimal);
    assert!(cpu.status.interrupt_disable);
    cpu.step().unwrap();
    assert!(!cpu.status.interrupt_disable);
}

#[test]
fn push_pull_accumulator_restores_value_and_stack_pointer() {
    // LDA #$7B; PHA; LDA #$00; PLA
    let mut cpu = cpu_with_program(vec![0xA9, 0x7B, 0x48, 0xA9, 0x00, 0x68]);
    cpu.step().unwrap();
    let sp_before = cpu.stack_pointer;
    cpu.step().unwrap();
    assert_eq!(cpu.stack_pointer, sp_before.wrapping_sub(1));
    cpu.step().unwrap();
    assert_eq!(cpu.reg_a, 0x00);
    cpu.step().unwrap();
    assert_eq!(cpu.reg_a, 0x7B);
    assert_eq!(cpu.stack_pointer, sp_before);
}

#[test]
fn two_hundred_fifty_six_pushes_wrap_the_stack_pointer() {
    let mut cpu = fresh_cpu();
    cpu.reset();
    let sp_start = cpu.stack_pointer;
    for i in 0..256usize {
        cpu.stack_push(i as u8);
    }
    assert_eq!(cpu.stack_pointer, sp_start);
}

#[test]
fn php_plp_round_trip_flags() {
    // SEC; PHP; CLC; PLP -> carry restored, pulled Break discarded, Break2 set
    let mut cpu = cpu_with_program(vec![0x38, 0x08, 0x18, 0x28]);
    cpu.step().unwrap();
    cpu.step().unwrap();
    // the pushed copy carries Break and Break2 set
    let pushed = cpu.bus.read(0x0100 + cpu.stack_pointer.wrapping_add(1) as u16);
    assert_eq!(pushed & 0x30, 0x30);
    assert_eq!(pushed & 0x01, 0x01);
    cpu.step().unwrap();
    assert!(!cpu.status.carry);
    cpu.step().unwrap();
    assert!(cpu.status.carry);
    assert!(!cpu.status.brk);
    assert!(cpu.status.break2);
}

#[test]
fn jsr_then_rts_resumes_after_the_call() {
    // 0x0600: JSR $8000; 0x8000: RTS
    let mut cpu = cpu_with_program(vec![0x20, 0x00, 0x80]);
    cpu.bus.write(0x8000, 0x60);
    let sp_before = cpu.stack_pointer;
    cpu.step().unwrap();
    assert_eq!(cpu.program_counter, 0x8000);
    assert_eq!(cpu.stack_pointer, sp_before.wrapping_sub(2));
    cpu.step().unwrap();
    assert_eq!(cpu.program_counter, 0x0603);
    assert_eq!(cpu.stack_pointer, sp_before);
}

#[test]
fn branch_not_taken_advances_two_bytes() {
    // LDA #$01 clears zero; BEQ +5 not taken
    let mut cpu = cpu_with_program(vec![0xA9, 0x01, 0xF0, 0x05]);
    cpu.step().unwrap();
    cpu.step().unwrap();
    assert_eq!(cpu.program_counter, 0x0604);
}

#[test]
fn branch_taken_adds_signed_offset() {
    // LDA #$00 sets zero; BEQ +5
    let mut cpu = cpu_with_program(vec![0xA9, 0x00, 0xF0, 0x05]);
    cpu.step().unwrap();
    cpu.step().unwrap();
    assert_eq!(cpu.program_counter, 0x0609);
}

#[test]
fn branch_taken_backwards() {
    // LDA #$00; BEQ -4 (0xFC) lands back on the LDA
    let mut cpu = cpu_with_program(vec![0xA9, 0x00, 0xF0, 0xFC]);
    cpu.step().unwrap();
    cpu.step().unwrap();
    assert_eq!(cpu.program_counter, 0x0600);
}

#[test]
fn jmp_absolute_and_indirect_page_bug() {
    // JMP ($02FF) with the pointer word split across a page: the high byte
    // comes from $0200, not $0300.
    let mut cpu = cpu_with_program(vec![0x6C, 0xFF, 0x02]);
    cpu.bus.write(0x02FF, 0x34);
    cpu.bus.write(0x0300, 0x56);
    cpu.bus.write(0x0200, 0x12);
    cpu.step().unwrap();
    assert_eq!(cpu.program_counter, 0x1234);

    let mut cpu2 = cpu_with_program(vec![0x4C, 0x22, 0x11]);
    cpu2.step().unwrap();
    assert_eq!(cpu2.program_counter, 0x1122);
}

#[test]
fn unknown_opcode_is_fatal_and_reported() {
    let mut cpu = cpu_with_program(vec![0xFF]);
    let r = cpu.step();
    assert_eq!(r, Err(EmuError::UnknownOpcode { code: 0xFF, pc: 0x0600 }));
    assert!(cpu.halted);
}

#[test]
fn brk_pushes_state_and_halts() {
    // SEC; BRK
    let mut cpu = cpu_with_program(vec![0x38, 0x00]);
    cpu.bus.write(0xFFFE, 0xCD);
    cpu.bus.write(0xFFFF, 0xAB);
    cpu.step().unwrap();
    let sp_before = cpu.stack_pointer;
    cpu.step().unwrap();
    assert!(cpu.halted);
    assert_eq!(cpu.program_counter, 0xABCD);
    assert_eq!(cpu.stack_pointer, sp_before.wrapping_sub(3));
    // pushed: high and low of the PC past the opcode, then flags with B set
    assert_eq!(cpu.bus.read(0x0100 + sp_before as u16), 0x06);
    assert_eq!(cpu.bus.read(0x0100 + sp_before.wrapping_sub(1) as u16), 0x02);
    let pushed_flags = cpu.bus.read(0x0100 + sp_before.wrapping_sub(2) as u16);
    assert_eq!(pushed_flags & 0x10, 0x10);
    assert_eq!(pushed_flags & 0x20, 0x20);
    assert_eq!(pushed_flags & 0x01, 0x01);
    assert!(cpu.status.interrupt_disable);
}

#[test]
fn rti_restores_flags_and_program_counter() {
    // hand-build an interrupt frame, then execute RTI at 0x0600
    let mut cpu = cpu_with_program(vec![0x40]);
    cpu.stack_push(0x12); // PC high
    cpu.stack_push(0x34); // PC low
    cpu.stack_push(0x81); // flags: negative + carry
    cpu.step().unwrap();
    assert_eq!(cpu.program_counter, 0x1234);
    assert!(cpu.status.negative);
    assert!(cpu.status.carry);
    assert!(!cpu.status.brk);
    assert!(cpu.status.break2);
}

#[test]
fn run_executes_until_the_break_instruction() {
    // LDA #$01; STA $0200; ... as assembled machine code, then implicit BRK
    let mut cpu = cpu_with_program(vec![
        0xA9, 0x01, 0x8D, 0x00, 0x02, 0xA9, 0x05, 0x8D, 0x01, 0x02, 0xA9, 0x08, 0x8D, 0x02, 0x02,
    ]);
    let n = cpu.run(1000).unwrap();
    assert!(cpu.halted);
    assert_eq!(n, 7); // six program instructions and the final BRK
    assert_eq!(cpu.bus.read(0x0200), 0x01);
    assert_eq!(cpu.bus.read(0x0201), 0x05);
    assert_eq!(cpu.bus.read(0x0202), 0x08);
    assert_eq!(cpu.reg_a, 0x08);
}

#[test]
fn run_respects_the_step_budget() {
    // an unconditional back-branch: BNE to itself never halts (zero stays clear)
    let mut cpu = cpu_with_program(vec![0xA9, 0x01, 0xD0, 0xFC]);
    let n = cpu.run(50).unwrap();
    assert_eq!(n, 50);
    assert!(!cpu.halted);
}

#[test]
fn run_reports_unknown_opcode() {
    let mut cpu = cpu_with_program(vec![0xA9, 0x01, 0xFF]);
    let r = cpu.run(10);
    assert_eq!(r, Err(EmuError::UnknownOpcode { code: 0xFF, pc: 0x0602 }));
    assert!(cpu.halted);
}

struct CountingSink {
    retired: u64,
    stop_after: u64,
}

impl InstructionSink for CountingSink {
    fn instruction_retired(&mut self, _cpu: &Cpu) -> bool {
        self.retired += 1;
        self.retired < self.stop_after
    }
}

#[test]
fn callback_is_notified_once_per_instruction_and_may_stop_the_run() {
    let mut cpu = cpu_with_program(vec![0xEA, 0xEA, 0xEA, 0xEA, 0xEA]);
    let mut sink = CountingSink { retired: 0, stop_after: 3 };
    let n = cpu.run_with_callback(&mut sink, 1000).unwrap();
    assert_eq!(n, 3);
    assert_eq!(sink.retired, 3);
    assert!(!cpu.halted);
    assert_eq!(cpu.program_counter, 0x0603);
}

#[test]
fn callback_run_on_halted_machine_or_empty_budget_retires_nothing() {
    let mut cpu = cpu_with_program(vec![0xEA, 0xEA]);
    let mut sink = CountingSink { retired: 0, stop_after: u64::MAX };
    // empty budget: nothing retires, the sink is never consulted
    assert_eq!(cpu.run_with_callback(&mut sink, 0), Ok(0));
    assert_eq!(sink.retired, 0);
    // run to the halt, then ask again: still nothing
    cpu.run_with_callback(&mut sink, 1000).unwrap();
    assert!(cpu.halted);
    let before = sink.retired;
    assert_eq!(cpu.run_with_callback(&mut sink, 1000), Ok(0));
    assert_eq!(sink.retired, before);
}

#[test]
fn callback_run_on_startable_machine_retires_at_least_one_instruction() {
    let mut cpu = cpu_with_program(vec![0xEA, 0xEA]);
    // a sink that stops at once still sees the first retired instruction
    let mut sink = CountingSink { retired: 0, stop_after: 1 };
    let n = cpu.run_with_callback(&mut sink, 1000).unwrap();
    assert_eq!(n, 1);
    assert_eq!(sink.retired, 1);
    assert_eq!(cpu.program_counter, 0x0601);
}

#[test]
fn callback_runs_to_halt_when_it_never_stops() {
    let mut cpu = cpu_with_program(vec![0xEA, 0xEA]);
    let mut sink = CountingSink { retired: 0, stop_after: u64::MAX };
    let n = cpu.run_with_callback(&mut sink, 1000).unwrap();
    assert!(cpu.halted);
    assert_eq!(n, 3); // two NOPs and the BRK
    assert_eq!(sink.retired, 3);
}
