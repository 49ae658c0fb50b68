use i8080::instruction::Instruction;
use i8080::instruction::InstructionCondition;
use i8080::instruction::InstructionSource;
use i8080::instruction::MemorySource;
use i8080::memory::MemorySize;
use i8080::registers::Register;
use i8080::registers::RegisterValue;
use i8080::CpuError;

#[test]
fn instruction_decode() {}

#[test]
fn decode_covers_all_256_opcodes() {
    // every opcode byte decodes to a defined record or to a decode error
    let mut defined = 0;
    for op in 0..=255u8 {
        match Instruction::decode(RegisterValue::from(op)) {
            Ok(_) => defined += 1,
            Err(e) => assert_eq!(e, CpuError::Decode),
        }
    }
    // the 8080 defines 244 opcodes; the 12 alias bytes are rejected
    assert_eq!(defined, 244);
}

#[test]
fn decode_rejects_the_alias_bytes() {
    for op in [
        0x08u8, 0x10, 0x18, 0x20, 0x28, 0x30, 0x38, 0xCB, 0xD9, 0xDD, 0xED, 0xFD,
    ] {
        assert!(matches!(
            Instruction::decode(RegisterValue::from(op)),
            Err(CpuError::Decode)
        ));
    }
}

#[test]
fn decode_rejects_non_byte_input() {
    assert!(matches!(
        Instruction::decode(RegisterValue::from(0x0100u16)),
        Err(CpuError::Conversion)
    ));
}

#[test]
fn decode_spot_checks() {
    // NOP
    assert!(matches!(
        Instruction::decode(RegisterValue::from(0x00u8)).unwrap(),
        Instruction::Nop
    ));

    // LXI B,d16: a 16-bit immediate into BC
    match Instruction::decode(RegisterValue::from(0x01u8)).unwrap() {
        Instruction::Move(
            InstructionSource::Register(Register::BC),
            InstructionSource::Memory(MemorySource::ProgramCounter, MemorySize::Integer16),
        ) => {}
        other => panic!("unexpected decode: {other:?}"),
    }

    // MOV B,C
    match Instruction::decode(RegisterValue::from(0x41u8)).unwrap() {
        Instruction::Move(
            InstructionSource::Register(Register::B),
            InstructionSource::Register(Register::C),
        ) => {}
        other => panic!("unexpected decode: {other:?}"),
    }

    // MOV B,M goes through memory at HL
    match Instruction::decode(RegisterValue::from(0x46u8)).unwrap() {
        Instruction::Move(
            InstructionSource::Register(Register::B),
            InstructionSource::Memory(MemorySource::Register(Register::HL), MemorySize::Integer8),
        ) => {}
        other => panic!("unexpected decode: {other:?}"),
    }

    // HLT sits inside the MOV block
    assert!(matches!(
        Instruction::decode(RegisterValue::from(0x76u8)).unwrap(),
        Instruction::Halt
    ));

    // ADD B
    match Instruction::decode(RegisterValue::from(0x80u8)).unwrap() {
        Instruction::Add(
            InstructionSource::Accumulator,
            InstructionSource::Register(Register::B),
        ) => {}
        other => panic!("unexpected decode: {other:?}"),
    }

    // CPI d8: compare against an immediate
    match Instruction::decode(RegisterValue::from(0xFEu8)).unwrap() {
        Instruction::Comparison(
            InstructionSource::Accumulator,
            InstructionSource::Memory(MemorySource::ProgramCounter, MemorySize::Integer8),
        ) => {}
        other => panic!("unexpected decode: {other:?}"),
    }

    // DAD SP affects HL and the carry only
    match Instruction::decode(RegisterValue::from(0x39u8)).unwrap() {
        Instruction::DoubleByteAdd(InstructionSource::Register(Register::SP)) => {}
        other => panic!("unexpected decode: {other:?}"),
    }

    // STAX D stores the accumulator at the address in DE
    match Instruction::decode(RegisterValue::from(0x12u8)).unwrap() {
        Instruction::Move(
            InstructionSource::Memory(MemorySource::Register(Register::DE), MemorySize::Integer8),
            InstructionSource::Accumulator,
        ) => {}
        other => panic!("unexpected decode: {other:?}"),
    }

    // PUSH PSW and POP PSW name PSW where other stack ops name SP
    assert!(matches!(
        Instruction::decode(RegisterValue::from(0xF5u8)).unwrap(),
        Instruction::StackPush(InstructionSource::Register(Register::PSW))
    ));
    assert!(matches!(
        Instruction::decode(RegisterValue::from(0x31u8)).unwrap(),
        Instruction::Move(InstructionSource::Register(Register::SP), _)
    ));

    // the four rotation opcodes
    assert!(matches!(
        Instruction::decode(RegisterValue::from(0x07u8)).unwrap(),
        Instruction::RotateLeft(InstructionSource::Accumulator)
    ));
    assert!(matches!(
        Instruction::decode(RegisterValue::from(0x0Fu8)).unwrap(),
        Instruction::RotateRight(InstructionSource::Accumulator)
    ));
    assert!(matches!(
        Instruction::decode(RegisterValue::from(0x17u8)).unwrap(),
        Instruction::RotateLeftThroughCarry(InstructionSource::Accumulator)
    ));
    assert!(matches!(
        Instruction::decode(RegisterValue::from(0x1Fu8)).unwrap(),
        Instruction::RotateRightThroughCarry(InstructionSource::Accumulator)
    ));

    // conditional control flow carries its condition
    assert!(matches!(
        Instruction::decode(RegisterValue::from(0xCAu8)).unwrap(),
        Instruction::JumpConditional(InstructionCondition::Zero)
    ));
    assert!(matches!(
        Instruction::decode(RegisterValue::from(0xC0u8)).unwrap(),
        Instruction::ReturnConditional(InstructionCondition::NotZero)
    ));
    assert!(matches!(
        Instruction::decode(RegisterValue::from(0xFCu8)).unwrap(),
        Instruction::CallConditional(InstructionCondition::Minus)
    ));

    // RST 3 jumps through slot 3
    match Instruction::decode(RegisterValue::from(0xDFu8)).unwrap() {
        Instruction::Reset(InstructionSource::Value(v)) => {
            assert_eq!(v, RegisterValue::from(3u16))
        }
        other => panic!("unexpected decode: {other:?}"),
    }
}

#[test]
fn instruction_source_ids() {
    assert!(matches!(
        InstructionSource::from_id(0).unwrap(),
        InstructionSource::Register(Register::B)
    ));
    assert!(matches!(
        InstructionSource::from_id(6).unwrap(),
        InstructionSource::Memory(MemorySource::Register(Register::HL), MemorySize::Integer8)
    ));
    assert!(matches!(
        InstructionSource::from_id(7).unwrap(),
        InstructionSource::Accumulator
    ));
    assert!(matches!(
        InstructionSource::from_id(8),
        Err(CpuError::Decode)
    ));
}

#[test]
fn instruction_source_widths() {
    assert_eq!(InstructionSource::Accumulator.n_bytes(), Ok(1));
    assert_eq!(
        InstructionSource::Register(Register::HL).n_bytes(),
        Ok(2)
    );
    assert_eq!(
        InstructionSource::Memory(MemorySource::ProgramCounter, MemorySize::Integer16).n_bytes(),
        Ok(2)
    );
    assert_eq!(
        InstructionSource::Value(RegisterValue::from(1u8)).n_bytes(),
        Err(CpuError::Operand)
    );
}

#[test]
fn instruction_condition_ids() {
    assert_eq!(
        InstructionCondition::from_id(0),
        Ok(InstructionCondition::NotZero)
    );
    assert_eq!(
        InstructionCondition::from_id(7),
        Ok(InstructionCondition::Minus)
    );
    assert_eq!(InstructionCondition::from_id(8), Err(CpuError::Decode));
}
