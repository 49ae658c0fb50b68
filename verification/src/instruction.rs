//! The instruction model and the decoder: typed records describing what an
//! instruction does, the operand forms they draw their data from, and the
//! total function from opcode bytes to records.

use crate::memory::MemorySize;
use crate::registers::Register;
use crate::registers::RegisterValue;
use crate::CpuError;
use vstd::prelude::*;

verus! {

/// Where in memory an operand lives: at an explicit address, at the address
/// held in a register, or in the instruction stream at the program counter.
#[derive(Debug, Clone, Copy)]
pub enum MemorySource {
    Address(RegisterValue),
    Register(Register),
    ProgramCounter,
}

/// The source or destination of an instruction's data; evaluated to a
/// [`RegisterValue`] during execution.
#[derive(Debug)]
pub enum InstructionSource {
    /// A value in memory of the given size.
    Memory(MemorySource, MemorySize),
    /// A value in a register of the register array.
    Register(Register),
    /// The accumulator, which lives in the ALU rather than the register
    /// array.
    Accumulator,
    /// The sum of two operands, as in `HL + rp`.
    Sum(Box<InstructionSource>, Box<InstructionSource>),
    /// A constant value.
    Value(RegisterValue),
}

impl InstructionSource {
    /// What [`InstructionSource::from_id`] returns for each 3-bit operand
    /// id.
    pub open spec fn spec_from_id(id: u8) -> Result<InstructionSource, CpuError> {
        if id <= 5 {
            match Register::spec_from_reg_id(id) {
                Ok(reg) => Ok(InstructionSource::Register(reg)),
                Err(e) => Err(e),
            }
        } else if id == 6 {
            Ok(
                InstructionSource::Memory(
                    MemorySource::Register(Register::HL),
                    MemorySize::Integer8,
                ),
            )
        } else if id == 7 {
            Ok(InstructionSource::Accumulator)
        } else {
            Err(CpuError::Decode)
        }
    }

    /// Maps a 3-bit operand id from an opcode: 0 to 5 name the registers B,
    /// C, D, E, H and L, 6 names memory through HL, and 7 names the
    /// accumulator.
    pub fn from_id(id: u8) -> (r: Result<Self, CpuError>)
        ensures
            r == Self::spec_from_id(id),
    {
        if id <= 5 {
            match Register::from_reg_id(id) {
                Ok(reg) => Ok(InstructionSource::Register(reg)),
                Err(e) => Err(e),
            }
        } else if id == 6 {
            Ok(
                InstructionSource::Memory(
                    MemorySource::Register(Register::HL),
                    MemorySize::Integer8,
                ),
            )
        } else if id == 7 {
            Ok(InstructionSource::Accumulator)
        } else {
            Err(CpuError::Decode)
        }
    }

    /// The width in bytes of this operand, where one is fixed by its form;
    /// a sum or constant has no fixed width.
    pub open spec fn spec_n_bytes(&self) -> Result<int, CpuError> {
        match self {
            InstructionSource::Memory(_, size) => Ok(size.spec_width()),
            InstructionSource::Register(reg) => Ok(reg.spec_width()),
            InstructionSource::Accumulator => Ok(1),
            _ => Err(CpuError::Operand),
        }
    }

    /// Returns the number of bytes taken up by this operand, failing for the
    /// forms whose width is not fixed.
    pub fn n_bytes(&self) -> (r: Result<usize, CpuError>)
        ensures
            match self.spec_n_bytes() {
                Ok(n) => r == Ok::<usize, CpuError>(n as usize),
                Err(e) => r == Err::<usize, CpuError>(e),
            },
    {
        match self {
            InstructionSource::Memory(_, size) => Ok(size.n_bytes()),
            InstructionSource::Register(reg) => Ok(reg.n_bytes()),
            InstructionSource::Accumulator => Ok(1),
            _ => Err(CpuError::Operand),
        }
    }
}

/// A condition over the flags, used by the conditional jump, call and return
/// instructions.
#[derive(Debug, Clone, Copy, PartialEq, Eq, Structural)]
pub enum InstructionCondition {
    NotZero,
    Zero,
    NoCarry,
    Carry,
    /// Parity flag clear.
    ParityOdd,
    /// Parity flag set.
    ParityEven,
    /// Sign flag clear.
    Plus,
    /// Sign flag set.
    Minus,
}

impl InstructionCondition {
    /// What [`InstructionCondition::from_id`] returns for each 3-bit id.
    pub open spec fn spec_from_id(id: u8) -> Result<InstructionCondition, CpuError> {
        if id == 0 {
            Ok(InstructionCondition::NotZero)
        } else if id == 1 {
            Ok(InstructionCondition::Zero)
        } else if id == 2 {
            Ok(InstructionCondition::NoCarry)
        } else if id == 3 {
            Ok(InstructionCondition::Carry)
        } else if id == 4 {
            Ok(InstructionCondition::ParityOdd)
        } else if id == 5 {
            Ok(InstructionCondition::ParityEven)
        } else if id == 6 {
            Ok(InstructionCondition::Plus)
        } else if id == 7 {
            Ok(InstructionCondition::Minus)
        } else {
            Err(CpuError::Decode)
        }
    }

    /// Maps a 3-bit condition id from an opcode to the condition it names.
    pub fn from_id(id: u8) -> (r: Result<Self, CpuError>)
        ensures
            r == Self::spec_from_id(id),
    {
        match id {
            0 => Ok(InstructionCondition::NotZero),
            1 => Ok(InstructionCondition::Zero),
            2 => Ok(InstructionCondition::NoCarry),
            3 => Ok(InstructionCondition::Carry),
            4 => Ok(InstructionCondition::ParityOdd),
            5 => Ok(InstructionCondition::ParityEven),
            6 => Ok(InstructionCondition::Plus),
            7 => Ok(InstructionCondition::Minus),
            _ => Err(CpuError::Decode),
        }
    }
}

/// A single decoded instruction together with the operands it works on.
#[derive(Debug)]
pub enum Instruction {
    Nop,
    /// Loads a value from an immediate address into the operand.
    Load(InstructionSource),
    /// Stores the operand's value at an immediate address.
    Store(InstructionSource),
    Increment(InstructionSource),
    Decrement(InstructionSource),
    /// Copies the second operand into the first.
    Move(InstructionSource, InstructionSource),
    RotateLeft(InstructionSource),
    RotateLeftThroughCarry(InstructionSource),
    RotateRight(InstructionSource),
    RotateRightThroughCarry(InstructionSource),
    DecimalAdjust(InstructionSource),
    Complement(InstructionSource),
    SetCarry,
    ComplementCarry,
    Halt,
    Add(InstructionSource, InstructionSource),
    AddWithCarry(InstructionSource, InstructionSource),
    Subtract(InstructionSource, InstructionSource),
    SubtractWithBorrow(InstructionSource, InstructionSource),
    BitwiseAnd(InstructionSource, InstructionSource),
    BitwiseXor(InstructionSource, InstructionSource),
    BitwiseOr(InstructionSource, InstructionSource),
    Comparison(InstructionSource, InstructionSource),
    /// `HL <- HL + rp`, affecting only the carry flag.
    DoubleByteAdd(InstructionSource),
    ReturnConditional(InstructionCondition),
    StackPop(InstructionSource),
    JumpConditional(InstructionCondition),
    Jump,
    CallConditional(InstructionCondition),
    StackPush(InstructionSource),
    /// `RST n`: pushes the program counter and jumps to `n * 8`.
    Reset(InstructionSource),
    Return,
    Call,
    IoOut,
    IoIn,
    /// Swaps the two operands' values.
    Exchange(InstructionSource, InstructionSource),
    DisableInterrupts,
    EnableInterrupts,
}

/// The register pair named by bits 5 and 4 of an opcode.
pub open spec fn spec_rp_of(op: u8) -> Register {
    if (op >> 4) & 3 == 0 {
        Register::BC
    } else if (op >> 4) & 3 == 1 {
        Register::DE
    } else if (op >> 4) & 3 == 2 {
        Register::HL
    } else {
        Register::SP
    }
}

/// The register pair named by bits 5 and 4 of a stack opcode, where the id
/// that otherwise names SP names PSW instead.
pub open spec fn spec_stack_rp_of(op: u8) -> Register {
    if (op >> 4) & 3 == 3 {
        Register::PSW
    } else {
        spec_rp_of(op)
    }
}

impl Instruction {
    /// What decoding an opcode byte yields: the instruction record for each
    /// of the defined opcodes, and a decode error for every other byte.
    pub open spec fn spec_decode(op: u8) -> Result<Instruction, CpuError> {
        let rp = InstructionSource::Register(spec_rp_of(op));
        let stack_rp = InstructionSource::Register(spec_stack_rp_of(op));
        let ddd = (op >> 3) & 7;
        let sss = op & 7;
        if op == 0x00 {
            Ok(Instruction::Nop)
        } else if op & 0xC0 == 0x00 {
            if op & 0xCF == 0x01 {
                Ok(
                    Instruction::Move(
                        rp,
                        InstructionSource::Memory(
                            MemorySource::ProgramCounter,
                            MemorySize::Integer16,
                        ),
                    ),
                )
            } else if op & 0xCF == 0x09 {
                Ok(Instruction::DoubleByteAdd(rp))
            } else if op == 0x22 {
                Ok(Instruction::Store(InstructionSource::Register(Register::HL)))
            } else if op == 0x32 {
                Ok(Instruction::Store(InstructionSource::Accumulator))
            } else if op & 0xCF == 0x02 {
                Ok(
                    Instruction::Move(
                        InstructionSource::Memory(
                            MemorySource::Register(spec_rp_of(op)),
                            MemorySize::Integer8,
                        ),
                        InstructionSource::Accumulator,
                    ),
                )
            } else if op == 0x2A {
                Ok(Instruction::Load(InstructionSource::Register(Register::HL)))
            } else if op == 0x3A {
                Ok(Instruction::Load(InstructionSource::Accumulator))
            } else if op & 0xCF == 0x0A {
                Ok(
                    Instruction::Move(
                        InstructionSource::Accumulator,
                        InstructionSource::Memory(
                            MemorySource::Register(spec_rp_of(op)),
                            MemorySize::Integer8,
                        ),
                    ),
                )
            } else if op & 0xCF == 0x03 {
                Ok(Instruction::Increment(rp))
            } else if op & 0xCF == 0x0B {
                Ok(Instruction::Decrement(rp))
            } else if op & 0xC7 == 0x04 {
                match InstructionSource::spec_from_id(ddd) {
                    Ok(src) => Ok(Instruction::Increment(src)),
                    Err(e) => Err(e),
                }
            } else if op & 0xC7 == 0x05 {
                match InstructionSource::spec_from_id(ddd) {
                    Ok(src) => Ok(Instruction::Decrement(src)),
                    Err(e) => Err(e),
                }
            } else if op & 0xC7 == 0x06 {
                match InstructionSource::spec_from_id(ddd) {
                    Ok(dest) => Ok(
                        Instruction::Move(
                            dest,
                            InstructionSource::Memory(
                                MemorySource::ProgramCounter,
                                MemorySize::Integer8,
                            ),
                        ),
                    ),
                    Err(e) => Err(e),
                }
            } else if op == 0x07 {
                Ok(Instruction::RotateLeft(InstructionSource::Accumulator))
            } else if op == 0x0F {
                Ok(Instruction::RotateRight(InstructionSource::Accumulator))
            } else if op == 0x17 {
                Ok(Instruction::RotateLeftThroughCarry(InstructionSource::Accumulator))
            } else if op == 0x1F {
                Ok(Instruction::RotateRightThroughCarry(InstructionSource::Accumulator))
            } else if op == 0x27 {
                Ok(Instruction::DecimalAdjust(InstructionSource::Accumulator))
            } else if op == 0x2F {
                Ok(Instruction::Complement(InstructionSource::Accumulator))
            } else if op == 0x37 {
                Ok(Instruction::SetCarry)
            } else if op == 0x3F {
                Ok(Instruction::ComplementCarry)
            } else {
                Err(CpuError::Decode)
            }
        } else if op & 0xC0 == 0x40 {
            if op == 0x76 {
                Ok(Instruction::Halt)
            } else {
                match (InstructionSource::spec_from_id(ddd), InstructionSource::spec_from_id(
                    sss,
                )) {
                    (Ok(dest), Ok(src)) => Ok(Instruction::Move(dest, src)),
                    (Err(e), _) => Err(e),
                    (_, Err(e)) => Err(e),
                }
            }
        } else if op & 0xC0 == 0x80 {
            match InstructionSource::spec_from_id(sss) {
                Ok(src) => Instruction::spec_alu_instr_from_id(
                    ddd,
                    InstructionSource::Accumulator,
                    src,
                ),
                Err(e) => Err(e),
            }
        } else {
            if op & 0xC7 == 0xC0 {
                match InstructionCondition::spec_from_id(ddd) {
                    Ok(cond) => Ok(Instruction::ReturnConditional(cond)),
                    Err(e) => Err(e),
                }
            } else if op & 0xCF == 0xC1 {
                Ok(Instruction::StackPop(stack_rp))
            } else if op & 0xC7 == 0xC2 {
                match InstructionCondition::spec_from_id(ddd) {
                    Ok(cond) => Ok(Instruction::JumpConditional(cond)),
                    Err(e) => Err(e),
                }
            } else if op == 0xC3 {
                Ok(Instruction::Jump)
            } else if op & 0xC7 == 0xC4 {
                match InstructionCondition::spec_from_id(ddd) {
                    Ok(cond) => Ok(Instruction::CallConditional(cond)),
                    Err(e) => Err(e),
                }
            } else if op & 0xCF == 0xC5 {
                Ok(Instruction::StackPush(stack_rp))
            } else if op & 0xC7 == 0xC6 {
                Instruction::spec_alu_instr_from_id(
                    ddd,
                    InstructionSource::Accumulator,
                    InstructionSource::Memory(MemorySource::ProgramCounter, MemorySize::Integer8),
                )
            } else if op & 0xC7 == 0xC7 {
                Ok(
                    Instruction::Reset(
                        InstructionSource::Value(RegisterValue::Integer16(ddd as u16)),
                    ),
                )
            } else if op == 0xC9 {
                Ok(Instruction::Return)
            } else if op == 0xCD {
                Ok(Instruction::Call)
            } else if op == 0xD3 {
                Ok(Instruction::IoOut)
            } else if op == 0xDB {
                Ok(Instruction::IoIn)
            } else if op == 0xE3 {
                Ok(
                    Instruction::Exchange(
                        InstructionSource::Register(Register::HL),
                        InstructionSource::Memory(
                            MemorySource::Register(Register::SP),
                            MemorySize::Integer16,
                        ),
                    ),
                )
            } else if op == 0xE9 {
                Ok(
                    Instruction::Move(
                        InstructionSource::Register(Register::PC),
                        InstructionSource::Register(Register::HL),
                    ),
                )
            } else if op == 0xEB {
                Ok(
                    Instruction::Exchange(
                        InstructionSource::Register(Register::HL),
                        InstructionSource::Register(Register::DE),
                    ),
                )
            } else if op == 0xF3 {
                Ok(Instruction::DisableInterrupts)
            } else if op == 0xF9 {
                Ok(
                    Instruction::Move(
                        InstructionSource::Register(Register::SP),
                        InstructionSource::Register(Register::HL),
                    ),
                )
            } else if op == 0xFB {
                Ok(Instruction::EnableInterrupts)
            } else {
                Err(CpuError::Decode)
            }
        }
    }

    /// What decoding a register value yields: only an 8-bit value can be an
    /// opcode byte.
    pub open spec fn spec_decode_value(instruction: RegisterValue) -> Result<
        Instruction,
        CpuError,
    > {
        match instruction {
            RegisterValue::Integer8(op) => Instruction::spec_decode(op),
            _ => Err(CpuError::Conversion),
        }
    }

    /// What [`Instruction::alu_instr_from_id`] returns for each 3-bit id.
    pub open spec fn spec_alu_instr_from_id(
        alu: u8,
        src_a: InstructionSource,
        src_b: InstructionSource,
    ) -> Result<Instruction, CpuError> {
        if alu == 0 {
            Ok(Instruction::Add(src_a, src_b))
        } else if alu == 1 {
            Ok(Instruction::AddWithCarry(src_a, src_b))
        } else if alu == 2 {
            Ok(Instruction::Subtract(src_a, src_b))
        } else if alu == 3 {
            Ok(Instruction::SubtractWithBorrow(src_a, src_b))
        } else if alu == 4 {
            Ok(Instruction::BitwiseAnd(src_a, src_b))
        } else if alu == 5 {
            Ok(Instruction::BitwiseXor(src_a, src_b))
        } else if alu == 6 {
            Ok(Instruction::BitwiseOr(src_a, src_b))
        } else if alu == 7 {
            Ok(Instruction::Comparison(src_a, src_b))
        } else {
            Err(CpuError::Decode)
        }
    }

    /// Decodes an opcode byte carried in a register value into an
    /// instruction record; every byte decodes to a defined record or to a
    /// decode error, exactly as [`Instruction::spec_decode`] lays out.
    pub fn decode(instruction: RegisterValue) -> (r: Result<Instruction, CpuError>)
        ensures
            r == Instruction::spec_decode_value(instruction),
    {
        let op = match instruction.try_to_u8() {
            Ok(v) => v,
            Err(_) => {
                return Err(CpuError::Conversion);
            },
        };
        let ddd = (op >> 3) & 7;
        let sss = op & 7;
        if op == 0x00 {
            Ok(Instruction::Nop)
        } else if op & 0xC0 == 0x00 {
            if op & 0xCF == 0x01 {
                Ok(
                    Instruction::Move(
                        InstructionSource::Register(Self::rp_of(op)),
                        InstructionSource::Memory(
                            MemorySource::ProgramCounter,
                            MemorySize::Integer16,
                        ),
                    ),
                )
            } else if op & 0xCF == 0x09 {
                Ok(Instruction::DoubleByteAdd(InstructionSource::Register(Self::rp_of(op))))
            } else if op == 0x22 {
                Ok(Instruction::Store(InstructionSource::Register(Register::HL)))
            } else if op == 0x32 {
                Ok(Instruction::Store(InstructionSource::Accumulator))
            } else if op & 0xCF == 0x02 {
                Ok(
                    Instruction::Move(
                        InstructionSource::Memory(
                            MemorySource::Register(Self::rp_of(op)),
                            MemorySize::Integer8,
                        ),
                        InstructionSource::Accumulator,
                    ),
                )
            } else if op == 0x2A {
                Ok(Instruction::Load(InstructionSource::Register(Register::HL)))
            } else if op == 0x3A {
                Ok(Instruction::Load(InstructionSource::Accumulator))
            } else if op & 0xCF == 0x0A {
                Ok(
                    Instruction::Move(
                        InstructionSource::Accumulator,
                        InstructionSource::Memory(
                            MemorySource::Register(Self::rp_of(op)),
                            MemorySize::Integer8,
                        ),
                    ),
                )
            } else if op & 0xCF == 0x03 {
                Ok(Instruction::Increment(InstructionSource::Register(Self::rp_of(op))))
            } else if op & 0xCF == 0x0B {
                Ok(Instruction::Decrement(InstructionSource::Register(Self::rp_of(op))))
            } else if op & 0xC7 == 0x04 {
                match InstructionSource::from_id(ddd) {
                    Ok(src) => Ok(Instruction::Increment(src)),
                    Err(e) => Err(e),
                }
            } else if op & 0xC7 == 0x05 {
                match InstructionSource::from_id(ddd) {
                    Ok(src) => Ok(Instruction::Decrement(src)),
                    Err(e) => Err(e),
                }
            } else if op & 0xC7 == 0x06 {
                match InstructionSource::from_id(ddd) {
                    Ok(dest) => Ok(
                        Instruction::Move(
                            dest,
                            InstructionSource::Memory(
                                MemorySource::ProgramCounter,
                                MemorySize::Integer8,
                            ),
                        ),
                    ),
                    Err(e) => Err(e),
                }
            } else if op == 0x07 {
                Ok(Instruction::RotateLeft(InstructionSource::Accumulator))
            } else if op == 0x0F {
                Ok(Instruction::RotateRight(InstructionSource::Accumulator))
            } else if op == 0x17 {
                Ok(Instruction::RotateLeftThroughCarry(InstructionSource::Accumulator))
            } else if op == 0x1F {
                Ok(Instruction::RotateRightThroughCarry(InstructionSource::Accumulator))
            } else if op == 0x27 {
                Ok(Instruction::DecimalAdjust(InstructionSource::Accumulator))
            } else if op == 0x2F {
                Ok(Instruction::Complement(InstructionSource::Accumulator))
            } else if op == 0x37 {
                Ok(Instruction::SetCarry)
            } else if op == 0x3F {
                Ok(Instruction::ComplementCarry)
            } else {
                Err(CpuError::Decode)
            }
        } else if op & 0xC0 == 0x40 {
            if op == 0x76 {
                Ok(Instruction::Halt)
            } else {
                let dest = match InstructionSource::from_id(ddd) {
                    Ok(dest) => dest,
                    Err(e) => {
                        return Err(e);
                    },
                };
                match InstructionSource::from_id(sss) {
                    Ok(src) => Ok(Instruction::Move(dest, src)),
                    Err(e) => Err(e),
                }
            }
        } else if op & 0xC0 == 0x80 {
            match InstructionSource::from_id(sss) {
                Ok(src) => Self::alu_instr_from_id(ddd, InstructionSource::Accumulator, src),
                Err(e) => Err(e),
            }
        } else {
            if op & 0xC7 == 0xC0 {
                match InstructionCondition::from_id(ddd) {
                    Ok(cond) => Ok(Instruction::ReturnConditional(cond)),
                    Err(e) => Err(e),
                }
            } else if op & 0xCF == 0xC1 {
                Ok(Instruction::StackPop(InstructionSource::Register(Self::stack_rp_of(op))))
            } else if op & 0xC7 == 0xC2 {
                match InstructionCondition::from_id(ddd) {
                    Ok(cond) => Ok(Instruction::JumpConditional(cond)),
                    Err(e) => Err(e),
                }
            } else if op == 0xC3 {
                Ok(Instruction::Jump)
            } else if op & 0xC7 == 0xC4 {
                match InstructionCondition::from_id(ddd) {
                    Ok(cond) => Ok(Instruction::CallConditional(cond)),
                    Err(e) => Err(e),
                }
            } else if op & 0xCF == 0xC5 {
                Ok(Instruction::StackPush(InstructionSource::Register(Self::stack_rp_of(op))))
            } else if op & 0xC7 == 0xC6 {
                Self::alu_instr_from_id(
                    ddd,
                    InstructionSource::Accumulator,
                    InstructionSource::Memory(MemorySource::ProgramCounter, MemorySize::Integer8),
                )
            } else if op & 0xC7 == 0xC7 {
                Ok(
                    Instruction::Reset(
                        InstructionSource::Value(RegisterValue::Integer16(ddd as u16)),
                    ),
                )
            } else if op == 0xC9 {
                Ok(Instruction::Return)
            } else if op == 0xCD {
                Ok(Instruction::Call)
            } else if op == 0xD3 {
                Ok(Instruction::IoOut)
            } else if op == 0xDB {
                Ok(Instruction::IoIn)
            } else if op == 0xE3 {
                Ok(
                    Instruction::Exchange(
                        InstructionSource::Register(Register::HL),
                        InstructionSource::Memory(
                            MemorySource::Register(Register::SP),
                            MemorySize::Integer16,
                        ),
                    ),
                )
            } else if op == 0xE9 {
                Ok(
                    Instruction::Move(
                        InstructionSource::Register(Register::PC),
                        InstructionSource::Register(Register::HL),
                    ),
                )
            } else if op == 0xEB {
                Ok(
                    Instruction::Exchange(
                        InstructionSource::Register(Register::HL),
                        InstructionSource::Register(Register::DE),
                    ),
                )
            } else if op == 0xF3 {
                Ok(Instruction::DisableInterrupts)
            } else if op == 0xF9 {
                Ok(
                    Instruction::Move(
                        InstructionSource::Register(Register::SP),
                        InstructionSource::Register(Register::HL),
                    ),
                )
            } else if op == 0xFB {
                Ok(Instruction::EnableInterrupts)
            } else {
                Err(CpuError::Decode)
            }
        }
    }

    /// Whether an opcode byte is in the defined instruction table: the
    /// branch structure of [`Instruction::spec_decode`] with each defined
    /// arm replaced by true.
    pub open spec fn spec_opcode_defined(op: u8) -> bool {
        if op == 0x00 {
            true
        } else if op & 0xC0 == 0x00 {
            op & 0xCF == 0x01 || op & 0xCF == 0x09 || op & 0xCF == 0x02 || op & 0xCF == 0x0A || op
                & 0xCF == 0x03 || op & 0xCF == 0x0B || op & 0xC7 == 0x04 || op & 0xC7 == 0x05 || op
                & 0xC7 == 0x06 || op & 0xC7 == 0x07
        } else if op & 0xC0 == 0x40 {
            true
        } else if op & 0xC0 == 0x80 {
            true
        } else {
            op & 0xC7 == 0xC0 || op & 0xCF == 0xC1 || op & 0xC7 == 0xC2 || op == 0xC3 || op & 0xC7
                == 0xC4 || op & 0xCF == 0xC5 || op & 0xC7 == 0xC6 || op & 0xC7 == 0xC7 || op
                == 0xC9 || op == 0xCD || op == 0xD3 || op == 0xDB || op == 0xE3 || op == 0xE9 || op
                == 0xEB || op == 0xF3 || op == 0xF9 || op == 0xFB
        }
    }

    /// Law: decoding is total over the opcode byte, and it fails exactly on
    /// the twelve alias bytes the 8080 leaves undefined; the other 244
    /// opcodes all decode to an instruction record.
    pub proof fn lemma_decode_total(op: u8)
        ensures
            Instruction::spec_decode(op) is Err <==> (op == 0x08 || op == 0x10 || op == 0x18
                || op == 0x20 || op == 0x28 || op == 0x30 || op == 0x38 || op == 0xCB || op == 0xD9
                || op == 0xDD || op == 0xED || op == 0xFD),
    {
        assert((op >> 3) & 7 <= 7 && op & 7 <= 7) by (bit_vector);
        assert(Instruction::spec_opcode_defined(op) <==> !(op == 0x08 || op == 0x10 || op == 0x18
            || op == 0x20 || op == 0x28 || op == 0x30 || op == 0x38 || op == 0xCB || op == 0xD9
            || op == 0xDD || op == 0xED || op == 0xFD)) by (bit_vector);
        assert((op == 0x22 ==> op & 0xCF == 0x02) && (op == 0x32 ==> op & 0xCF == 0x02) && (op
            == 0x2A ==> op & 0xCF == 0x0A) && (op == 0x3A ==> op & 0xCF == 0x0A) && ((op == 0x07
            || op == 0x0F || op == 0x17 || op == 0x1F || op == 0x27 || op == 0x2F || op == 0x37
            || op == 0x3F) ==> op & 0xC7 == 0x07) && ((op & 0xC0 == 0x00 && op & 0xC7 == 0x07)
            ==> (op == 0x07 || op == 0x0F || op == 0x17 || op == 0x1F || op == 0x27 || op == 0x2F
            || op == 0x37 || op == 0x3F))) by (bit_vector);
        assert(Instruction::spec_decode(op) is Err <==> !Instruction::spec_opcode_defined(op));
    }

    /// The register pair named by bits 5 and 4 of an opcode.
    fn rp_of(op: u8) -> (r: Register)
        ensures
            r == spec_rp_of(op),
    {
        let rp = (op >> 4) & 3;
        if rp == 0 {
            Register::BC
        } else if rp == 1 {
            Register::DE
        } else if rp == 2 {
            Register::HL
        } else {
            Register::SP
        }
    }

    /// The register pair named by bits 5 and 4 of a stack opcode, with PSW
    /// in place of SP.
    fn stack_rp_of(op: u8) -> (r: Register)
        ensures
            r == spec_stack_rp_of(op),
    {
        let rp = (op >> 4) & 3;
        if rp == 3 {
            Register::PSW
        } else {
            Self::rp_of(op)
        }
    }

    /// Maps a 3-bit ALU operation id to the instruction it names, over the
    /// given operand pair: 0 ADD, 1 ADC, 2 SUB, 3 SBB, 4 ANA, 5 XRA, 6 ORA,
    /// 7 CMP.
    fn alu_instr_from_id(alu: u8, src_a: InstructionSource, src_b: InstructionSource) -> (r: Result<
        Instruction,
        CpuError,
    >)
        ensures
            r == Instruction::spec_alu_instr_from_id(alu, src_a, src_b),
    {
        match alu {
            0 => Ok(Instruction::Add(src_a, src_b)),
            1 => Ok(Instruction::AddWithCarry(src_a, src_b)),
            2 => Ok(Instruction::Subtract(src_a, src_b)),
            3 => Ok(Instruction::SubtractWithBorrow(src_a, src_b)),
            4 => Ok(Instruction::BitwiseAnd(src_a, src_b)),
            5 => Ok(Instruction::BitwiseXor(src_a, src_b)),
            6 => Ok(Instruction::BitwiseOr(src_a, src_b)),
            7 => Ok(Instruction::Comparison(src_a, src_b)),
            _ => Err(CpuError::Decode),
        }
    }
}

} // verus!
