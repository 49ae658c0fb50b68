use i8080::alu::AluFlags;
use i8080::cp_m;
use i8080::cpu::Cpu;
use i8080::memory::MemorySize;
use i8080::registers::Register;
use i8080::registers::RegisterValue;

/// Runs the CPU until it halts, dispatching intercepted BDOS calls, and
/// returns the bytes written to the console port in order.
fn run_with_bdos(cpu: &mut Cpu) -> Vec<u8> {
    while cpu.is_running() {
        let (_cycles, intercepted) = cpu.execute_next().unwrap();
        if let Some(addr) = intercepted {
            assert_eq!(addr, cp_m::BDOS_ENTRY);
            cp_m::cpm_bdos(cpu);
        }
    }
    let mut output = Vec::new();
    for i in 0..cpu.port_write_count() {
        let w = cpu.port_write_at(i);
        if w.port == cp_m::CONSOLE_PORT {
            output.push(w.value);
        }
    }
    output
}

#[test]
fn flags_after_add_instruction() {
    let mut cpu = Cpu::new();

    // A = 0x2E, B = 0x6C; execute ADD B
    cpu.alu
        .write_accumulator(RegisterValue::from(0x2Eu8))
        .unwrap();
    cpu.reg_array
        .write_reg(Register::B, RegisterValue::from(0x6Cu8))
        .unwrap();
    cpu.load_to_memory(vec![0x80], 0x100).unwrap();
    cpu.set_pc(0x100).unwrap();

    cpu.execute_next().unwrap();

    assert_eq!(cpu.alu.accumulator(), RegisterValue::from(0x9Au8));
    let flags = cpu.alu.flags();
    assert!(flags.sign);
    assert!(!flags.zero);
    assert!(flags.aux_carry);
    assert!(flags.parity);
    assert!(!flags.carry);
}

#[test]
fn decimal_adjust_instruction() {
    let mut cpu = Cpu::new();

    // A = 0x9B with carry and auxiliary carry clear; execute DAA
    cpu.alu
        .write_accumulator(RegisterValue::from(0x9Bu8))
        .unwrap();
    cpu.load_to_memory(vec![0x27], 0x100).unwrap();
    cpu.set_pc(0x100).unwrap();

    cpu.execute_next().unwrap();

    assert_eq!(cpu.alu.accumulator(), RegisterValue::from(0x01u8));
    assert!(cpu.alu.flags().carry);
    assert!(cpu.alu.flags().aux_carry);
}

#[test]
fn flags_after_sub_instruction() {
    let mut cpu = Cpu::new();

    // A = 0x3E, B = 0x3E; execute SUB B. The difference is 0, no borrow
    // occurs anywhere: the low nibbles are equal, so there is no borrow
    // into bit 3 either and the auxiliary carry stays clear.
    cpu.alu
        .write_accumulator(RegisterValue::from(0x3Eu8))
        .unwrap();
    cpu.reg_array
        .write_reg(Register::B, RegisterValue::from(0x3Eu8))
        .unwrap();
    cpu.load_to_memory(vec![0x90], 0x100).unwrap();
    cpu.set_pc(0x100).unwrap();

    cpu.execute_next().unwrap();

    assert_eq!(cpu.alu.accumulator(), RegisterValue::from(0x00u8));
    let flags = cpu.alu.flags();
    assert!(flags.zero);
    assert!(!flags.sign);
    assert!(!flags.carry);
    assert!(!flags.aux_carry);
    assert!(flags.parity);
}

#[test]
fn taken_conditional_call_adds_six_cycles() {
    let mut cpu = Cpu::new();

    // at 0x100: CZ 0x1234, with the zero flag set and SP = 0xFF00;
    // at 0x1234: RET
    cpu.load_to_memory(vec![0xCC, 0x34, 0x12], 0x100).unwrap();
    cpu.load_to_memory(vec![0xC9], 0x1234).unwrap();
    cpu.set_pc(0x100).unwrap();
    cpu.reg_array
        .write_reg(Register::SP, RegisterValue::from(0xFF00u16))
        .unwrap();
    cpu.alu
        .write_flags(AluFlags::from_bools(true, false, false, false, false));

    let (call_cycles, _) = cpu.execute_next().unwrap();
    assert_eq!(call_cycles, 17);

    let (ret_cycles, _) = cpu.execute_next().unwrap();
    assert_eq!(ret_cycles, 10);

    assert_eq!(cpu.get_total_cycles(), 27);
    assert_eq!(
        cpu.reg_array.read_reg(Register::PC),
        RegisterValue::from(0x103u16)
    );
    assert_eq!(
        cpu.reg_array.read_reg(Register::SP),
        RegisterValue::from(0xFF00u16)
    );
}

#[test]
fn bdos_prints_single_character() {
    let mut cpu = Cpu::new();
    cp_m::add_cpm_bdos(&mut cpu);

    // MVI C,2; MVI E,'A'; CALL 0x0005; HLT
    cpu.load_to_memory(vec![0x0E, 0x02, 0x1E, 0x41, 0xCD, 0x05, 0x00, 0x76], 0x100)
        .unwrap();
    cpu.set_pc(0x100).unwrap();

    let output = run_with_bdos(&mut cpu);
    assert_eq!(output, b"A");
}

#[test]
fn bdos_prints_terminated_string() {
    let mut cpu = Cpu::new();
    cp_m::add_cpm_bdos(&mut cpu);

    // MVI C,9; LXI D,0x0200; CALL 0x0005; HLT -- with "HELLO$" at 0x0200
    cpu.load_to_memory(vec![0x0E, 0x09, 0x11, 0x00, 0x02, 0xCD, 0x05, 0x00, 0x76], 0x100)
        .unwrap();
    cpu.load_to_memory(b"HELLO$".to_vec(), 0x0200).unwrap();
    cpu.set_pc(0x100).unwrap();

    let output = run_with_bdos(&mut cpu);
    assert_eq!(output, b"HELLO");
}

#[test]
fn jump_to_zero_terminates_execution() {
    let mut cpu = Cpu::new();

    cpu.load_to_memory(vec![0xC3, 0x00, 0x00], 0x100).unwrap();
    cpu.set_pc(0x100).unwrap();

    assert!(cpu.is_running());
    cpu.execute_next().unwrap();
    assert!(!cpu.is_running());

    // a halted CPU takes no further steps and no cycles
    let total = cpu.get_total_cycles();
    let (cycles, intercepted) = cpu.execute_next().unwrap();
    assert_eq!(cycles, 0);
    assert_eq!(intercepted, None);
    assert_eq!(cpu.get_total_cycles(), total);
}

#[test]
fn psw_round_trips_through_the_stack() {
    // push PSW then pop PSW for every flags byte: the accumulator comes
    // back exactly, and the flags byte comes back with the fixed bits
    // forced per the S Z 0 AC 0 P 1 C layout
    for f in 0..=255u8 {
        let mut cpu = Cpu::new();
        cpu.reg_array
            .write_reg(Register::SP, RegisterValue::from(0xFF00u16))
            .unwrap();
        cpu.alu
            .write_accumulator(RegisterValue::from(0x5Au8))
            .unwrap();
        cpu.alu.write_flags(i8080::alu::AluFlags::from_f(f));

        // PUSH PSW; POP PSW
        cpu.load_to_memory(vec![0xF5, 0xF1], 0x100).unwrap();
        cpu.set_pc(0x100).unwrap();
        cpu.execute_next().unwrap();
        cpu.execute_next().unwrap();

        assert_eq!(cpu.alu.accumulator(), RegisterValue::from(0x5Au8));
        assert_eq!(
            cpu.reg_array.read_reg(Register::PSW),
            RegisterValue::Integer8Pair(0x5A, (f & 0xD7) | 0x02)
        );
        assert_eq!(
            cpu.reg_array.read_reg(Register::SP),
            RegisterValue::from(0xFF00u16)
        );
    }
}

#[test]
fn push_pop_restores_register_pair() {
    let mut cpu = Cpu::new();
    cpu.reg_array
        .write_reg(Register::SP, RegisterValue::from(0x8000u16))
        .unwrap();
    cpu.reg_array
        .write_reg(Register::BC, RegisterValue::from(0xBEEFu16))
        .unwrap();

    // PUSH B; LXI B,0; POP B
    cpu.load_to_memory(vec![0xC5, 0x01, 0x00, 0x00, 0xC1], 0x100)
        .unwrap();
    cpu.set_pc(0x100).unwrap();
    cpu.execute_next().unwrap();
    cpu.execute_next().unwrap();
    assert_eq!(u16::from(cpu.reg_array.read_reg(Register::BC)), 0);
    cpu.execute_next().unwrap();

    assert_eq!(u16::from(cpu.reg_array.read_reg(Register::BC)), 0xBEEF);
    assert_eq!(u16::from(cpu.reg_array.read_reg(Register::SP)), 0x8000);
}

#[test]
fn increment_through_memory_updates_flags_but_not_carry() {
    let mut cpu = Cpu::new();

    // INR M with HL pointing at 0x0F and the carry set: the byte becomes
    // 0x10, the auxiliary carry is set, and the carry flag is untouched
    cpu.reg_array
        .write_reg(Register::HL, RegisterValue::from(0x2000u16))
        .unwrap();
    cpu.memory
        .write(RegisterValue::from(0x2000u16), RegisterValue::from(0x0Fu8))
        .unwrap();
    cpu.alu
        .write_flags(AluFlags::from_bools(false, false, false, true, false));
    cpu.load_to_memory(vec![0x34], 0x100).unwrap();
    cpu.set_pc(0x100).unwrap();

    let (cycles, _) = cpu.execute_next().unwrap();
    assert_eq!(cycles, 10);
    assert_eq!(
        cpu.memory
            .read(RegisterValue::from(0x2000u16), MemorySize::Integer8)
            .unwrap(),
        RegisterValue::from(0x10u8)
    );
    assert!(cpu.alu.flags().aux_carry);
    assert!(cpu.alu.flags().carry);
}

#[test]
fn double_byte_add_sets_only_the_carry() {
    let mut cpu = Cpu::new();

    // DAD B with HL = 0xF000 and BC = 0x2000 wraps to 0x1000 with carry
    cpu.reg_array
        .write_reg(Register::HL, RegisterValue::from(0xF000u16))
        .unwrap();
    cpu.reg_array
        .write_reg(Register::BC, RegisterValue::from(0x2000u16))
        .unwrap();
    cpu.alu
        .write_flags(AluFlags::from_bools(true, false, true, false, false));
    cpu.load_to_memory(vec![0x09], 0x100).unwrap();
    cpu.set_pc(0x100).unwrap();

    cpu.execute_next().unwrap();

    assert_eq!(u16::from(cpu.reg_array.read_reg(Register::HL)), 0x1000);
    let flags = cpu.alu.flags();
    assert!(flags.carry);
    // zero and parity were left as they were
    assert!(flags.zero);
    assert!(flags.parity);
}

#[test]
fn exchange_swaps_de_and_hl() {
    let mut cpu = Cpu::new();

    cpu.reg_array
        .write_reg(Register::DE, RegisterValue::from(0x1111u16))
        .unwrap();
    cpu.reg_array
        .write_reg(Register::HL, RegisterValue::from(0x2222u16))
        .unwrap();
    // XCHG
    cpu.load_to_memory(vec![0xEB], 0x100).unwrap();
    cpu.set_pc(0x100).unwrap();

    let (cycles, _) = cpu.execute_next().unwrap();
    assert_eq!(cycles, 4);
    assert_eq!(u16::from(cpu.reg_array.read_reg(Register::DE)), 0x2222);
    assert_eq!(u16::from(cpu.reg_array.read_reg(Register::HL)), 0x1111);
}

#[test]
fn interrupt_latch_follows_di_and_ei() {
    let mut cpu = Cpu::new();

    // DI; EI
    cpu.load_to_memory(vec![0xF3, 0xFB], 0x100).unwrap();
    cpu.set_pc(0x100).unwrap();

    assert!(cpu.interrupts_enabled);
    cpu.execute_next().unwrap();
    assert!(!cpu.interrupts_enabled);
    cpu.execute_next().unwrap();
    assert!(cpu.interrupts_enabled);
}

#[test]
fn in_reads_back_what_out_wrote() {
    let mut cpu = Cpu::new();

    // MVI A,0x7F; OUT 5; MVI A,0; IN 5; HLT
    cpu.load_to_memory(
        vec![0x3E, 0x7F, 0xD3, 0x05, 0x3E, 0x00, 0xDB, 0x05, 0x76],
        0x100,
    )
    .unwrap();
    cpu.set_pc(0x100).unwrap();
    while cpu.is_running() {
        cpu.execute_next().unwrap();
    }

    assert_eq!(cpu.alu.accumulator(), RegisterValue::from(0x7Fu8));
    assert_eq!(cpu.port_write_count(), 1);
    assert_eq!(cpu.port_write_at(0).port, 5);
    assert_eq!(cpu.port_write_at(0).value, 0x7F);
}

#[test]
fn rst_pushes_and_jumps_to_its_slot() {
    let mut cpu = Cpu::new();

    cpu.reg_array
        .write_reg(Register::SP, RegisterValue::from(0xFF00u16))
        .unwrap();
    // RST 2 at 0x100
    cpu.load_to_memory(vec![0xD7], 0x100).unwrap();
    cpu.set_pc(0x100).unwrap();

    cpu.execute_next().unwrap();

    assert_eq!(u16::from(cpu.reg_array.read_reg(Register::PC)), 0x10);
    // the return address 0x101 sits on the stack
    assert_eq!(
        cpu.memory
            .read(RegisterValue::from(0xFEFEu16), MemorySize::Integer16)
            .unwrap(),
        RegisterValue::from(0x0101u16)
    );
}

#[test]
fn execute_cycles_reports_the_overshoot() {
    let mut cpu = Cpu::new();

    // a field of NOPs at 4 cycles apiece: asking for 10 cycles runs 3 NOPs
    // and overshoots by 2
    cpu.load_to_memory(vec![0x00; 16], 0x100).unwrap();
    cpu.set_pc(0x100).unwrap();

    let overshoot = cpu.execute_cycles(10).unwrap();
    assert_eq!(overshoot, 2);
    assert_eq!(cpu.get_total_cycles(), 12);
}

#[test]
fn undefined_opcode_is_a_decode_error() {
    let mut cpu = Cpu::new();

    cpu.load_to_memory(vec![0x08], 0x100).unwrap();
    cpu.set_pc(0x100).unwrap();

    assert_eq!(cpu.execute_next(), Err(i8080::CpuError::Decode));
}

#[test]
fn load_and_store_instructions_move_data_through_memory() {
    let mut cpu = Cpu::new();

    // MVI A,0x77; STA 0x2000; LXI H,0x1234; SHLD 0x2002;
    // LDA 0x2002; LHLD 0x2000; HLT
    cpu.load_to_memory(
        vec![
            0x3E, 0x77, 0x32, 0x00, 0x20, 0x21, 0x34, 0x12, 0x22, 0x02, 0x20, 0x3A, 0x02, 0x20,
            0x2A, 0x00, 0x20, 0x76,
        ],
        0x100,
    )
    .unwrap();
    cpu.set_pc(0x100).unwrap();
    while cpu.is_running() {
        cpu.execute_next().unwrap();
    }

    // STA put the accumulator at 0x2000 and SHLD put HL at 0x2002
    assert_eq!(
        cpu.memory
            .read(RegisterValue::from(0x2000u16), MemorySize::Integer8)
            .unwrap(),
        RegisterValue::from(0x77u8)
    );
    assert_eq!(
        cpu.memory
            .read(RegisterValue::from(0x2002u16), MemorySize::Integer16)
            .unwrap(),
        RegisterValue::from(0x1234u16)
    );
    // LDA read back the low byte of HL's stored value, LHLD read 0x77
    // with the byte above it
    assert_eq!(cpu.alu.accumulator(), RegisterValue::from(0x34u8));
    assert_eq!(u16::from(cpu.reg_array.read_reg(Register::HL)), 0x0077);
}

#[test]
fn stax_and_ldax_use_the_pair_as_address() {
    let mut cpu = Cpu::new();

    // MVI A,0x5A; LXI B,0x3000; STAX B; MVI A,0; LDAX B; HLT
    cpu.load_to_memory(
        vec![0x3E, 0x5A, 0x01, 0x00, 0x30, 0x02, 0x3E, 0x00, 0x0A, 0x76],
        0x100,
    )
    .unwrap();
    cpu.set_pc(0x100).unwrap();
    while cpu.is_running() {
        cpu.execute_next().unwrap();
    }

    assert_eq!(
        cpu.memory
            .read(RegisterValue::from(0x3000u16), MemorySize::Integer8)
            .unwrap(),
        RegisterValue::from(0x5Au8)
    );
    assert_eq!(cpu.alu.accumulator(), RegisterValue::from(0x5Au8));
}

#[test]
fn subroutine_interception_skips_the_call() {
    let mut cpu = Cpu::new();
    cpu.add_subroutine_handler(0x1234);
    cpu.add_subroutine_handler(0x1234);
    cpu.reg_array
        .write_reg(Register::SP, RegisterValue::from(0xFF00u16))
        .unwrap();

    // CALL 0x1234; HLT
    cpu.load_to_memory(vec![0xCD, 0x34, 0x12, 0x76], 0x100).unwrap();
    cpu.set_pc(0x100).unwrap();

    let (_cycles, intercepted) = cpu.execute_next().unwrap();
    assert_eq!(intercepted, Some(0x1234));
    // no push and no jump happened: PC is past the CALL, SP untouched
    assert_eq!(u16::from(cpu.reg_array.read_reg(Register::PC)), 0x103);
    assert_eq!(u16::from(cpu.reg_array.read_reg(Register::SP)), 0xFF00);

    // a call to an address without a handler proceeds normally
    let (_cycles, intercepted) = cpu.execute_next().unwrap();
    assert_eq!(intercepted, None);
}
