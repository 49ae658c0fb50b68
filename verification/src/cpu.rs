//! The execution engine: the CPU state over all its components, and the
//! fetch-decode-execute step with its exact effect on registers, memory,
//! stack, ports, interrupt latch and cycle counter.
//!
//! The engine performs no I/O of its own. Values written to ports with `OUT`
//! are recorded in a log the host reads back, and an unconditional `CALL` to
//! an address registered with [`Cpu::add_subroutine_handler`] is not
//! performed; it is reported to the host instead, which may mutate the CPU
//! in the subroutine's stead and then resume stepping.

use crate::alu::spec_alu_eval;
use crate::alu::spec_flags_from_f;
use crate::alu::spec_flags_to_f;
use crate::alu::Alu;
use crate::alu::AluFlags;
use crate::alu::AluOperation;
use crate::instruction::Instruction;
use crate::instruction::InstructionCondition;
use crate::instruction::InstructionSource;
use crate::instruction::MemorySource;
use crate::memory::spec_read;
use crate::memory::spec_write;
use crate::memory::Memory;
use crate::memory::MemorySize;
use crate::memory::MEMORY_SIZE;
use crate::registers::Register;
use crate::registers::RegisterArray;
use crate::registers::RegisterValue;
use crate::utils;
use crate::CpuError;
use vstd::pervasive::VecAdditionalExecFns;
use vstd::prelude::*;

verus! {

/// One value written to an I/O port, as recorded in the CPU's output log.
#[derive(Clone, Copy, Debug, PartialEq, Eq, Structural)]
pub struct PortWrite {
    pub port: u8,
    pub value: u8,
}

/// The mathematical state of the CPU: every observable component as a plain
/// value.
pub struct CpuView {
    pub running: bool,
    pub interrupts_enabled: bool,
    pub regs: RegisterArray,
    /// The ALU's accumulator.
    pub acc: RegisterValue,
    /// The ALU's flags.
    pub flags: AluFlags,
    pub mem: Seq<u8>,
    pub ports: Seq<u8>,
    /// The addresses whose `CALL`s are intercepted and reported to the host.
    pub subroutines: Seq<u16>,
    /// Every port write so far, in order.
    pub port_writes: Seq<PortWrite>,
    pub total_cycles: int,
}

impl CpuView {
    /// This state with the program counter replaced.
    pub open spec fn with_pc(self, pc: u16) -> CpuView {
        CpuView { regs: RegisterArray { program_counter: pc, ..self.regs }, ..self }
    }

    /// This state with the stack pointer replaced.
    pub open spec fn with_sp(self, sp: u16) -> CpuView {
        CpuView { regs: RegisterArray { stack_pointer: sp, ..self.regs }, ..self }
    }
}

/// A 16-bit addition that wraps around.
pub open spec fn spec_wrap_add16(x: u16, n: u16) -> u16 {
    if x + n > 0xFFFF {
        (x + n - 0x10000) as u16
    } else {
        (x + n) as u16
    }
}

/// A 16-bit subtraction that wraps around.
pub open spec fn spec_wrap_sub16(x: u16, n: u16) -> u16 {
    if x - n < 0 {
        (x - n + 0x10000) as u16
    } else {
        (x - n) as u16
    }
}

/// What [`Cpu::read_next`] does: a read at the program counter, which then
/// advances by the width read; a failing read leaves the state unchanged.
pub open spec fn spec_read_next(v: CpuView, size: MemorySize) -> (
    Result<RegisterValue, CpuError>,
    CpuView,
) {
    let pc = v.regs.program_counter;
    match spec_read(v.mem, pc, size) {
        Ok(value) => (Ok(value), v.with_pc(spec_wrap_add16(pc, size.spec_width() as u16))),
        Err(e) => (Err(e), v),
    }
}

/// What [`Cpu::decode_next_instruction`] does: fetch one byte at the program
/// counter and decode it; the program counter advances past the byte even
/// when the byte does not decode.
pub open spec fn spec_decode_next(v: CpuView) -> (
    Result<(u8, Instruction), CpuError>,
    CpuView,
) {
    match spec_read_next(v, MemorySize::Integer8) {
        (Ok(value), v1) => match value {
            RegisterValue::Integer8(op) => match Instruction::spec_decode(op) {
                Ok(instruction) => (Ok((op, instruction)), v1),
                Err(e) => (Err(e), v1),
            },
            _ => (Err(CpuError::Conversion), v1),
        },
        (Err(e), v1) => (Err(e), v1),
    }
}

/// What [`Cpu::push_to_stack`] does: the stack pointer moves down by the
/// value's width, then the value is written at the new stack pointer. A
/// failing write leaves the stack pointer moved, as the move happens first.
pub open spec fn spec_push(v: CpuView, value: RegisterValue) -> (Result<(), CpuError>, CpuView) {
    let new_sp = spec_wrap_sub16(v.regs.stack_pointer, value.spec_width() as u16);
    let v1 = v.with_sp(new_sp);
    match spec_write(v1.mem, new_sp, value) {
        Ok(mem) => (Ok(()), CpuView { mem, ..v1 }),
        Err(e) => (Err(e), v1),
    }
}

/// What [`Cpu::pop_from_stack`] does: a read at the stack pointer, which
/// then moves up by the width read; a failing read leaves the state
/// unchanged.
pub open spec fn spec_pop(v: CpuView, size: MemorySize) -> (
    Result<RegisterValue, CpuError>,
    CpuView,
) {
    let sp = v.regs.stack_pointer;
    match spec_read(v.mem, sp, size) {
        Ok(value) => (Ok(value), v.with_sp(spec_wrap_add16(sp, size.spec_width() as u16))),
        Err(e) => (Err(e), v),
    }
}

/// What [`Cpu::write_to_port`] does: both the port id and the value must be
/// 8-bit; the port array is updated and the write is appended to the log.
pub open spec fn spec_port_write(v: CpuView, port: RegisterValue, value: RegisterValue) -> (
    Result<(), CpuError>,
    CpuView,
) {
    if port.spec_width() != 1 || value.spec_width() != 1 {
        (Err(CpuError::Width), v)
    } else {
        let p = port.spec_u16() as u8;
        let val = value.spec_u16() as u8;
        (
            Ok(()),
            CpuView {
                ports: v.ports.update(p as int, val),
                port_writes: v.port_writes.push(PortWrite { port: p, value: val }),
                ..v
            },
        )
    }
}

/// What [`Cpu::evaluate_source`] does: the value an operand evaluates to,
/// and the state afterwards. Reading an operand from the instruction stream
/// advances the program counter; a sum evaluates its two operands in order
/// and adds them as [`RegisterValue::spec_try_add`] lays out.
pub open spec fn spec_eval_source(v: CpuView, source: InstructionSource) -> (
    Result<RegisterValue, CpuError>,
    CpuView,
)
    decreases source,
{
    match source {
        InstructionSource::Memory(memory_source, size) => match memory_source {
            MemorySource::Address(addr) => (spec_read(v.mem, addr.spec_u16(), size), v),
            MemorySource::Register(reg) => (
                spec_read(v.mem, v.regs.spec_read_reg(reg).spec_u16(), size),
                v,
            ),
            MemorySource::ProgramCounter => spec_read_next(v, size),
        },
        InstructionSource::Register(reg) => (Ok(v.regs.spec_read_reg(reg)), v),
        InstructionSource::Accumulator => (Ok(v.acc), v),
        InstructionSource::Sum(source1, source2) => {
            let (r1, v1) = spec_eval_source(v, *source1);
            match r1 {
                Ok(val1) => {
                    let (r2, v2) = spec_eval_source(v1, *source2);
                    match r2 {
                        Ok(val2) => (val1.spec_try_add(val2), v2),
                        Err(e) => (Err(e), v2),
                    }
                },
                Err(e) => (Err(e), v1),
            }
        },
        InstructionSource::Value(value) => (Ok(value), v),
    }
}

/// What [`Cpu::write_to_source`] does: the state after a value is written
/// to an operand. A memory operand takes only a value of its own width; the
/// instruction stream, sums and constants cannot be written to; writing PSW
/// also refreshes the ALU's accumulator and flags from the two bytes.
pub open spec fn spec_write_source(v: CpuView, source: InstructionSource, value: RegisterValue) -> (
    Result<(), CpuError>,
    CpuView,
) {
    match source {
        InstructionSource::Memory(memory_source, size) => {
            if value.spec_width() != size.spec_width() {
                (Err(CpuError::Width), v)
            } else {
                match memory_source {
                    MemorySource::Address(addr) => match spec_write(
                        v.mem,
                        addr.spec_u16(),
                        value,
                    ) {
                        Ok(mem) => (Ok(()), CpuView { mem, ..v }),
                        Err(e) => (Err(e), v),
                    },
                    MemorySource::Register(reg) => match spec_write(
                        v.mem,
                        v.regs.spec_read_reg(reg).spec_u16(),
                        value,
                    ) {
                        Ok(mem) => (Ok(()), CpuView { mem, ..v }),
                        Err(e) => (Err(e), v),
                    },
                    MemorySource::ProgramCounter => (Err(CpuError::Operand), v),
                }
            }
        },
        InstructionSource::Register(reg) => match v.regs.spec_write_reg(reg, value) {
            Ok(regs) => {
                let v1 = CpuView { regs, ..v };
                match reg {
                    Register::PSW => {
                        let val16 = value.spec_u16();
                        (
                            Ok(()),
                            CpuView {
                                acc: RegisterValue::Integer8(utils::spec_high(val16)),
                                flags: spec_flags_from_f(utils::spec_low(val16)),
                                ..v1
                            },
                        )
                    },
                    _ => (Ok(()), v1),
                }
            },
            Err(e) => (Err(e), v),
        },
        InstructionSource::Accumulator => {
            if value.spec_width() == 1 {
                (Ok(()), CpuView { acc: value, ..v })
            } else {
                (Err(CpuError::Width), v)
            }
        },
        _ => (Err(CpuError::Operand), v),
    }
}

/// What [`Cpu::update_status_word`] does: the PSW cells of the register
/// array are refreshed from the ALU's accumulator and flags, the flags byte
/// carrying its fixed bits. An accumulator that is not 8-bit is a conversion
/// error.
pub open spec fn spec_sync_psw(v: CpuView) -> (Result<(), CpuError>, CpuView) {
    match v.acc {
        RegisterValue::Integer8(a) => (
            Ok(()),
            CpuView {
                regs: RegisterArray { reg_a: a, reg_f: spec_flags_to_f(v.flags), ..v.regs },
                ..v
            },
        ),
        _ => (Err(CpuError::Conversion), v),
    }
}

/// Memory after a program image is laid over it at an origin.
pub open spec fn spec_load_image(mem: Seq<u8>, data: Seq<u8>, origin: int) -> Seq<u8> {
    mem.map(
        |i: int, b: u8|
            if origin <= i < origin + data.len() {
                data[i - origin]
            } else {
                b
            },
    )
}

/// The base clock cycles of each opcode. Conditional calls and returns
/// carry their not-taken cost here; the engine adds 6 when the branch is
/// taken.
pub open spec fn spec_base_cycles(op: u8) -> int {
    if op < 0x40 {
        if op & 7 == 0 {
            4
        } else if op & 7 == 1 {
            10
        } else if op & 7 == 2 {
            if op == 0x22 || op == 0x2A {
                16
            } else if op == 0x32 || op == 0x3A {
                13
            } else {
                7
            }
        } else if op & 7 == 3 {
            5
        } else if op & 7 == 4 || op & 7 == 5 {
            if op & 0x38 == 0x30 {
                10
            } else {
                5
            }
        } else if op & 7 == 6 {
            if op & 0x38 == 0x30 {
                10
            } else {
                7
            }
        } else {
            4
        }
    } else if op < 0x80 {
        if op & 7 == 6 || op & 0x38 == 0x30 {
            7
        } else {
            5
        }
    } else if op < 0xC0 {
        if op & 7 == 6 {
            7
        } else {
            4
        }
    } else {
        if op & 7 == 0 {
            5
        } else if op & 7 == 1 {
            if op == 0xE9 || op == 0xF9 {
                5
            } else {
                10
            }
        } else if op & 7 == 2 {
            10
        } else if op & 7 == 3 {
            if op == 0xE3 {
                18
            } else if op == 0xEB || op == 0xF3 || op == 0xFB {
                4
            } else {
                10
            }
        } else if op & 7 == 4 {
            11
        } else if op & 7 == 5 {
            if op & 8 == 0 {
                11
            } else {
                17
            }
        } else if op & 7 == 6 {
            7
        } else {
            11
        }
    }
}

/// Every opcode costs at least 4 and at most 18 base cycles.
pub proof fn lemma_base_cycles_bounds(op: u8)
    ensures
        4 <= spec_base_cycles(op) <= 18,
{
}

/// Looks up the base clock cycles of an opcode.
fn base_cycles(op: u8) -> (c: usize)
    ensures
        c == spec_base_cycles(op),
{
    if op < 0x40 {
        if op & 7 == 0 {
            4
        } else if op & 7 == 1 {
            10
        } else if op & 7 == 2 {
            if op == 0x22 || op == 0x2A {
                16
            } else if op == 0x32 || op == 0x3A {
                13
            } else {
                7
            }
        } else if op & 7 == 3 {
            5
        } else if op & 7 == 4 || op & 7 == 5 {
            if op & 0x38 == 0x30 {
                10
            } else {
                5
            }
        } else if op & 7 == 6 {
            if op & 0x38 == 0x30 {
                10
            } else {
                7
            }
        } else {
            4
        }
    } else if op < 0x80 {
        if op & 7 == 6 || op & 0x38 == 0x30 {
            7
        } else {
            5
        }
    } else if op < 0xC0 {
        if op & 7 == 6 {
            7
        } else {
            4
        }
    } else {
        if op & 7 == 0 {
            5
        } else if op & 7 == 1 {
            if op == 0xE9 || op == 0xF9 {
                5
            } else {
                10
            }
        } else if op & 7 == 2 {
            10
        } else if op & 7 == 3 {
            if op == 0xE3 {
                18
            } else if op == 0xEB || op == 0xF3 || op == 0xFB {
                4
            } else {
                10
            }
        } else if op & 7 == 4 {
            11
        } else if op & 7 == 5 {
            if op & 8 == 0 {
                11
            } else {
                17
            }
        } else if op & 7 == 6 {
            7
        } else {
            11
        }
    }
}

/// The ALU operation a two-operand arithmetic or logic instruction builds
/// over its evaluated operands.
pub open spec fn spec_binary_operation(
    instruction: Instruction,
    va: RegisterValue,
    vb: RegisterValue,
) -> AluOperation {
    match instruction {
        Instruction::Add(_, _) => AluOperation::Add(va, vb),
        Instruction::AddWithCarry(_, _) => AluOperation::AddCarry(va, vb),
        Instruction::Subtract(_, _) => AluOperation::Sub(va, vb),
        Instruction::SubtractWithBorrow(_, _) => AluOperation::SubBorrow(va, vb),
        Instruction::BitwiseAnd(_, _) => AluOperation::BitwiseAnd(va, vb),
        Instruction::BitwiseXor(_, _) => AluOperation::BitwiseXor(va, vb),
        Instruction::BitwiseOr(_, _) => AluOperation::BitwiseOr(va, vb),
        _ => AluOperation::Comparison(va, vb),
    }
}

/// The ALU operation a one-operand instruction builds over its evaluated
/// operand.
pub open spec fn spec_unary_operation(instruction: Instruction, val: RegisterValue) -> AluOperation {
    match instruction {
        Instruction::RotateLeft(_) => AluOperation::RotateLeft(val),
        Instruction::RotateRight(_) => AluOperation::RotateRight(val),
        Instruction::RotateLeftThroughCarry(_) => AluOperation::RotateLeftThroughCarry(val),
        Instruction::RotateRightThroughCarry(_) => AluOperation::RotateRightThroughCarry(val),
        Instruction::DecimalAdjust(_) => AluOperation::DecimalAdjust(val),
        _ => AluOperation::Complement(val),
    }
}

/// The state after the ALU evaluates an operation: its accumulator and
/// flags change as [`spec_alu_eval`] lays out.
pub open spec fn spec_apply_alu(v: CpuView, op: AluOperation) -> (Result<(), CpuError>, CpuView) {
    let (acc, flags, res) = spec_alu_eval(v.acc, v.flags, op);
    let v1 = CpuView { acc, flags, ..v };
    match res {
        Ok(_) => (Ok(()), v1),
        Err(e) => (Err(e), v1),
    }
}

/// A two-operand ALU instruction: both operands evaluated in order, then
/// the operation applied.
pub open spec fn spec_step_alu_two(
    v: CpuView,
    a: InstructionSource,
    b: InstructionSource,
    instruction: Instruction,
) -> (Result<(), CpuError>, CpuView) {
    match spec_eval_source(v, a) {
        (Ok(va), v1) => match spec_eval_source(v1, b) {
            (Ok(vb), v2) => spec_apply_alu(v2, spec_binary_operation(instruction, va, vb)),
            (Err(e), v2) => (Err(e), v2),
        },
        (Err(e), v1) => (Err(e), v1),
    }
}

/// A one-operand ALU instruction: the operand evaluated, then the operation
/// applied.
pub open spec fn spec_step_alu_one(
    v: CpuView,
    a: InstructionSource,
    instruction: Instruction,
) -> (Result<(), CpuError>, CpuView) {
    match spec_eval_source(v, a) {
        (Ok(val), v1) => spec_apply_alu(v1, spec_unary_operation(instruction, val)),
        (Err(e), v1) => (Err(e), v1),
    }
}

/// What the ALU instruction family does to the CPU: operands evaluated,
/// the operation run, and the result left in the accumulator.
pub open spec fn spec_step_alu(v: CpuView, instruction: Instruction) -> (
    Result<(), CpuError>,
    CpuView,
) {
    match instruction {
        Instruction::Add(a, b) => spec_step_alu_two(v, a, b, instruction),
        Instruction::AddWithCarry(a, b) => spec_step_alu_two(v, a, b, instruction),
        Instruction::Subtract(a, b) => spec_step_alu_two(v, a, b, instruction),
        Instruction::SubtractWithBorrow(a, b) => spec_step_alu_two(v, a, b, instruction),
        Instruction::BitwiseAnd(a, b) => spec_step_alu_two(v, a, b, instruction),
        Instruction::BitwiseXor(a, b) => spec_step_alu_two(v, a, b, instruction),
        Instruction::BitwiseOr(a, b) => spec_step_alu_two(v, a, b, instruction),
        Instruction::Comparison(a, b) => spec_step_alu_two(v, a, b, instruction),
        Instruction::RotateLeft(a) => spec_step_alu_one(v, a, instruction),
        Instruction::RotateRight(a) => spec_step_alu_one(v, a, instruction),
        Instruction::RotateLeftThroughCarry(a) => spec_step_alu_one(v, a, instruction),
        Instruction::RotateRightThroughCarry(a) => spec_step_alu_one(v, a, instruction),
        Instruction::DecimalAdjust(a) => spec_step_alu_one(v, a, instruction),
        Instruction::Complement(a) => spec_step_alu_one(v, a, instruction),
        Instruction::SetCarry => spec_apply_alu(v, AluOperation::SetCarry),
        Instruction::ComplementCarry => spec_apply_alu(v, AluOperation::ComplementCarry),
        _ => (Err(CpuError::Operand), v),
    }
}

/// What a load does: a 16-bit address fetched from the instruction stream,
/// the value of the operand's width read there, and written to the operand.
pub open spec fn spec_step_load(v: CpuView, dest: InstructionSource) -> (
    Result<(), CpuError>,
    CpuView,
) {
    match spec_read_next(v, MemorySize::Integer16) {
        (Ok(addr), v1) => match dest.spec_n_bytes() {
            Ok(n) => match MemorySize::spec_from_bytes(n) {
                Ok(size) => match spec_read(v1.mem, addr.spec_u16(), size) {
                    Ok(value) => spec_write_source(v1, dest, value),
                    Err(e) => (Err(e), v1),
                },
                Err(e) => (Err(e), v1),
            },
            Err(e) => (Err(e), v1),
        },
        (Err(e), v1) => (Err(e), v1),
    }
}

/// What a store does: a 16-bit address fetched from the instruction stream,
/// the operand evaluated, and its value written at that address.
pub open spec fn spec_step_store(v: CpuView, source: InstructionSource) -> (
    Result<(), CpuError>,
    CpuView,
) {
    match source.spec_n_bytes() {
        Ok(n) => match MemorySize::spec_from_bytes(n) {
            Ok(size) => match spec_read_next(v, MemorySize::Integer16) {
                (Ok(addr), v1) => match spec_eval_source(v1, source) {
                    (Ok(value), v2) => spec_write_source(
                        v2,
                        InstructionSource::Memory(MemorySource::Address(addr), size),
                        value,
                    ),
                    (Err(e), v2) => (Err(e), v2),
                },
                (Err(e), v1) => (Err(e), v1),
            },
            Err(e) => (Err(e), v),
        },
        Err(e) => (Err(e), v),
    }
}

/// What an increment does: an 8-bit operand goes through the ALU, which
/// updates all flags but the carry; a 16-bit operand is stepped directly
/// and no flags change.
pub open spec fn spec_step_increment(v: CpuView, source: InstructionSource) -> (
    Result<(), CpuError>,
    CpuView,
) {
    match source.spec_n_bytes() {
        Err(e) => (Err(e), v),
        Ok(n) => if n == 1 {
            match spec_eval_source(v, source) {
                (Ok(val), v1) => {
                    let (acc, flags, res) = spec_alu_eval(
                        v1.acc,
                        v1.flags,
                        AluOperation::Increment(val),
                    );
                    let v2 = CpuView { acc, flags, ..v1 };
                    match res {
                        Ok(opt) => match opt {
                            Some(result) => spec_write_source(v2, source, result),
                            None => (Err(CpuError::Conversion), v2),
                        },
                        Err(e) => (Err(e), v2),
                    }
                },
                (Err(e), v1) => (Err(e), v1),
            }
        } else {
            match spec_eval_source(v, source) {
                (Ok(val), v1) => spec_write_source(
                    v1,
                    source,
                    RegisterValue::Integer16(spec_wrap_add16(val.spec_u16(), 1)),
                ),
                (Err(e), v1) => (Err(e), v1),
            }
        },
    }
}

/// What a decrement does, dually to [`spec_step_increment`].
pub open spec fn spec_step_decrement(v: CpuView, source: InstructionSource) -> (
    Result<(), CpuError>,
    CpuView,
) {
    match source.spec_n_bytes() {
        Err(e) => (Err(e), v),
        Ok(n) => if n == 1 {
            match spec_eval_source(v, source) {
                (Ok(val), v1) => {
                    let (acc, flags, res) = spec_alu_eval(
                        v1.acc,
                        v1.flags,
                        AluOperation::Decrement(val),
                    );
                    let v2 = CpuView { acc, flags, ..v1 };
                    match res {
                        Ok(opt) => match opt {
                            Some(result) => spec_write_source(v2, source, result),
                            None => (Err(CpuError::Conversion), v2),
                        },
                        Err(e) => (Err(e), v2),
                    }
                },
                (Err(e), v1) => (Err(e), v1),
            }
        } else {
            match spec_eval_source(v, source) {
                (Ok(val), v1) => spec_write_source(
                    v1,
                    source,
                    RegisterValue::Integer16(spec_wrap_sub16(val.spec_u16(), 1)),
                ),
                (Err(e), v1) => (Err(e), v1),
            }
        },
    }
}

/// What a move does: the source evaluated, then written to the destination.
pub open spec fn spec_step_move(
    v: CpuView,
    dest: InstructionSource,
    source: InstructionSource,
) -> (Result<(), CpuError>, CpuView) {
    match spec_eval_source(v, source) {
        (Ok(value), v1) => spec_write_source(v1, dest, value),
        (Err(e), v1) => (Err(e), v1),
    }
}

/// What the double byte add does: `HL <- HL + rp` wrapping around, with the
/// carry flag set exactly when the 16-bit sum overflows; no other flag
/// changes.
pub open spec fn spec_step_double_add(v: CpuView, rp: InstructionSource) -> (
    Result<(), CpuError>,
    CpuView,
) {
    let hl = v.regs.spec_read_reg(Register::HL).spec_u16();
    match spec_eval_source(v, rp) {
        (Ok(rv), v1) => {
            let rp16 = rv.spec_u16();
            match v1.regs.spec_write_reg(
                Register::HL,
                RegisterValue::Integer16(spec_wrap_add16(hl, rp16)),
            ) {
                Ok(regs) => (
                    Ok(()),
                    CpuView {
                        regs,
                        flags: AluFlags { carry: hl + rp16 > 0xFFFF, ..v1.flags },
                        ..v1
                    },
                ),
                Err(e) => (Err(e), v1),
            }
        },
        (Err(e), v1) => (Err(e), v1),
    }
}

/// What an exchange does: both operands evaluated, then each written with
/// the other's value.
pub open spec fn spec_step_exchange(
    v: CpuView,
    a: InstructionSource,
    b: InstructionSource,
) -> (Result<(), CpuError>, CpuView) {
    match spec_eval_source(v, a) {
        (Ok(va), v1) => match spec_eval_source(v1, b) {
            (Ok(vb), v2) => match spec_write_source(v2, a, vb) {
                (Ok(_), v3) => spec_write_source(v3, b, va),
                (Err(e), v3) => (Err(e), v3),
            },
            (Err(e), v2) => (Err(e), v2),
        },
        (Err(e), v1) => (Err(e), v1),
    }
}

/// Lifts a plain step result to one carrying cycle and interception
/// information: no extra cycles, no intercepted call.
pub open spec fn spec_no_extra(step: (Result<(), CpuError>, CpuView)) -> (
    Result<(usize, Option<u16>), CpuError>,
    CpuView,
) {
    match step {
        (Ok(_), v) => (Ok((0usize, Option::<u16>::None)), v),
        (Err(e), v) => (Err(e), v),
    }
}

/// The effect of one instruction on the CPU, between the two status-word
/// refreshes of a step: the state afterwards, the extra cycles of a taken
/// conditional call or return, and the address of an intercepted call, if
/// any.
pub open spec fn spec_step_body(v: CpuView, instruction: Instruction) -> (
    Result<(usize, Option<u16>), CpuError>,
    CpuView,
) {
    match instruction {
        Instruction::Nop => (Ok((0usize, Option::<u16>::None)), v),
        Instruction::Load(dest) => spec_no_extra(spec_step_load(v, dest)),
        Instruction::Store(source) => spec_no_extra(spec_step_store(v, source)),
        Instruction::Increment(source) => spec_no_extra(spec_step_increment(v, source)),
        Instruction::Decrement(source) => spec_no_extra(spec_step_decrement(v, source)),
        Instruction::Move(dest, source) => spec_no_extra(spec_step_move(v, dest, source)),
        Instruction::RotateLeft(_) => spec_no_extra(spec_step_alu(v, instruction)),
        Instruction::RotateRight(_) => spec_no_extra(spec_step_alu(v, instruction)),
        Instruction::RotateLeftThroughCarry(_) => spec_no_extra(spec_step_alu(v, instruction)),
        Instruction::RotateRightThroughCarry(_) => spec_no_extra(spec_step_alu(v, instruction)),
        Instruction::DecimalAdjust(_) => spec_no_extra(spec_step_alu(v, instruction)),
        Instruction::Complement(_) => spec_no_extra(spec_step_alu(v, instruction)),
        Instruction::SetCarry => spec_no_extra(spec_step_alu(v, instruction)),
        Instruction::ComplementCarry => spec_no_extra(spec_step_alu(v, instruction)),
        Instruction::Halt => (
            Ok((0usize, Option::<u16>::None)),
            CpuView { running: false, ..v },
        ),
        Instruction::Add(_, _) => spec_no_extra(spec_step_alu(v, instruction)),
        Instruction::AddWithCarry(_, _) => spec_no_extra(spec_step_alu(v, instruction)),
        Instruction::Subtract(_, _) => spec_no_extra(spec_step_alu(v, instruction)),
        Instruction::SubtractWithBorrow(_, _) => spec_no_extra(spec_step_alu(v, instruction)),
        Instruction::BitwiseAnd(_, _) => spec_no_extra(spec_step_alu(v, instruction)),
        Instruction::BitwiseXor(_, _) => spec_no_extra(spec_step_alu(v, instruction)),
        Instruction::BitwiseOr(_, _) => spec_no_extra(spec_step_alu(v, instruction)),
        Instruction::Comparison(_, _) => spec_no_extra(spec_step_alu(v, instruction)),
        Instruction::DoubleByteAdd(rp) => spec_no_extra(spec_step_double_add(v, rp)),
        Instruction::ReturnConditional(cond) => if v.flags.spec_condition(cond) {
            match spec_pop(v, MemorySize::Integer16) {
                (Ok(val), v1) => (
                    Ok((6usize, Option::<u16>::None)),
                    v1.with_pc(val.spec_u16()),
                ),
                (Err(e), v1) => (Err(e), v1),
            }
        } else {
            (Ok((0usize, Option::<u16>::None)), v)
        },
        Instruction::StackPop(dest) => match dest.spec_n_bytes() {
            Ok(n) => match MemorySize::spec_from_bytes(n) {
                Ok(size) => match spec_pop(v, size) {
                    (Ok(val), v1) => spec_no_extra(spec_write_source(v1, dest, val)),
                    (Err(e), v1) => (Err(e), v1),
                },
                Err(e) => (Err(e), v),
            },
            Err(e) => (Err(e), v),
        },
        Instruction::JumpConditional(cond) => match spec_read_next(v, MemorySize::Integer16) {
            (Ok(addr), v1) => if v1.flags.spec_condition(cond) {
                (Ok((0usize, Option::<u16>::None)), v1.with_pc(addr.spec_u16()))
            } else {
                (Ok((0usize, Option::<u16>::None)), v1)
            },
            (Err(e), v1) => (Err(e), v1),
        },
        Instruction::Jump => match spec_read_next(v, MemorySize::Integer16) {
            (Ok(addr), v1) => if addr.spec_u16() == 0 {
                (Ok((0usize, Option::<u16>::None)), CpuView { running: false, ..v1 })
            } else {
                (Ok((0usize, Option::<u16>::None)), v1.with_pc(addr.spec_u16()))
            },
            (Err(e), v1) => (Err(e), v1),
        },
        Instruction::CallConditional(cond) => match spec_read_next(v, MemorySize::Integer16) {
            (Ok(addr), v1) => if v1.flags.spec_condition(cond) {
                match spec_push(v1, RegisterValue::Integer16(v1.regs.program_counter)) {
                    (Ok(_), v2) => (
                        Ok((6usize, Option::<u16>::None)),
                        v2.with_pc(addr.spec_u16()),
                    ),
                    (Err(e), v2) => (Err(e), v2),
                }
            } else {
                (Ok((0usize, Option::<u16>::None)), v1)
            },
            (Err(e), v1) => (Err(e), v1),
        },
        Instruction::StackPush(source) => match spec_eval_source(v, source) {
            (Ok(value), v1) => spec_no_extra(spec_push(v1, value)),
            (Err(e), v1) => (Err(e), v1),
        },
        Instruction::Reset(n_source) => match spec_eval_source(v, n_source) {
            (Ok(nv), v1) => match spec_push(
                v1,
                RegisterValue::Integer16(v1.regs.program_counter),
            ) {
                (Ok(_), v2) => (
                    Ok((0usize, Option::<u16>::None)),
                    v2.with_pc(((nv.spec_u16() * 8) % 0x10000) as u16),
                ),
                (Err(e), v2) => (Err(e), v2),
            },
            (Err(e), v1) => (Err(e), v1),
        },
        Instruction::Return => match spec_pop(v, MemorySize::Integer16) {
            (Ok(val), v1) => (Ok((0usize, Option::<u16>::None)), v1.with_pc(val.spec_u16())),
            (Err(e), v1) => (Err(e), v1),
        },
        Instruction::Call => match spec_read_next(v, MemorySize::Integer16) {
            (Ok(addr), v1) => if v1.subroutines.contains(addr.spec_u16()) {
                (Ok((0usize, Some(addr.spec_u16()))), v1)
            } else {
                match spec_push(v1, RegisterValue::Integer16(v1.regs.program_counter)) {
                    (Ok(_), v2) => (
                        Ok((0usize, Option::<u16>::None)),
                        v2.with_pc(addr.spec_u16()),
                    ),
                    (Err(e), v2) => (Err(e), v2),
                }
            },
            (Err(e), v1) => (Err(e), v1),
        },
        Instruction::IoOut => match spec_read_next(v, MemorySize::Integer8) {
            (Ok(port), v1) => spec_no_extra(spec_port_write(v1, port, v1.acc)),
            (Err(e), v1) => (Err(e), v1),
        },
        Instruction::IoIn => match spec_read_next(v, MemorySize::Integer8) {
            (Ok(port), v1) => if port.spec_width() == 1 {
                (
                    Ok((0usize, Option::<u16>::None)),
                    CpuView {
                        acc: RegisterValue::Integer8(v1.ports[port.spec_u16() as u8 as int]),
                        ..v1
                    },
                )
            } else {
                (Err(CpuError::Width), v1)
            },
            (Err(e), v1) => (Err(e), v1),
        },
        Instruction::Exchange(a, b) => spec_no_extra(spec_step_exchange(v, a, b)),
        Instruction::DisableInterrupts => (
            Ok((0usize, Option::<u16>::None)),
            CpuView { interrupts_enabled: false, ..v },
        ),
        Instruction::EnableInterrupts => (
            Ok((0usize, Option::<u16>::None)),
            CpuView { interrupts_enabled: true, ..v },
        ),
    }
}

/// What [`Cpu::execute`] does: the status word is refreshed, the
/// instruction's effect applied, the status word refreshed again, and the
/// instruction's cycles added to the total.
pub open spec fn spec_execute(v: CpuView, opcode: u8, instruction: Instruction) -> (
    Result<(usize, Option<u16>), CpuError>,
    CpuView,
) {
    match spec_sync_psw(v) {
        (Ok(_), v0) => match spec_step_body(v0, instruction) {
            (Ok((extra, intercepted)), v1) => match spec_sync_psw(v1) {
                (Ok(_), v2) => {
                    let cycles = spec_base_cycles(opcode) + extra;
                    (
                        Ok(((spec_base_cycles(opcode) + extra) as usize, intercepted)),
                        CpuView { total_cycles: v2.total_cycles + cycles, ..v2 },
                    )
                },
                (Err(e), v2) => (Err(e), v2),
            },
            (Err(e), v1) => (Err(e), v1),
        },
        (Err(e), v0) => (Err(e), v0),
    }
}

/// What [`Cpu::execute_next`] does: nothing on a halted CPU; otherwise one
/// instruction is fetched, decoded and executed. Kept opaque so that
/// reasoning about repeated steps need not expand a whole step.
#[verifier::opaque]
pub open spec fn spec_execute_next(v: CpuView) -> (
    Result<(usize, Option<u16>), CpuError>,
    CpuView,
) {
    if !v.running {
        (Ok((0usize, Option::<u16>::None)), v)
    } else {
        match spec_decode_next(v) {
            (Ok((opcode, instruction)), v1) => spec_execute(v1, opcode, instruction),
            (Err(e), v1) => (Err(e), v1),
        }
    }
}

/// How far a run still has to go: 0 once the cycle total has passed the
/// target, else the cycles missing plus one.
pub open spec fn spec_run_measure(v: CpuView, target: int) -> int {
    if v.total_cycles > target {
        0
    } else {
        target + 1 - v.total_cycles
    }
}

/// What [`Cpu::execute_cycles`] does: the CPU steps as long as it is
/// running and the cycle total has not passed the target; the run ends at
/// the first failing step, carrying its error.
pub open spec fn spec_run_to_target(v: CpuView, target: int) -> (Result<(), CpuError>, CpuView)
    decreases spec_run_measure(v, target),
        via spec_run_to_target_decreases
{
    if !v.running || v.total_cycles > target {
        (Ok(()), v)
    } else {
        match spec_execute_next(v) {
            (Ok(_), v1) => spec_run_to_target(v1, target),
            (Err(e), v1) => (Err(e), v1),
        }
    }
}

#[via_fn]
proof fn spec_run_to_target_decreases(v: CpuView, target: int) {
    lemma_execute_next_cycle_growth(v);
}

/// The CPU: all components of the machine, stepped by
/// [`Cpu::execute_next`].
pub struct Cpu {
    pub running: bool,
    pub interrupts_enabled: bool,
    pub reg_array: RegisterArray,
    pub alu: Alu,
    pub memory: Memory,
    /// The 256 I/O ports, holding the last value written to each.
    pub ports: Vec<u8>,
    /// The addresses whose `CALL`s are intercepted and reported to the host.
    pub subroutines: Vec<u16>,
    /// Every port write so far, in order; hosts read it to observe output.
    pub port_log: Vec<PortWrite>,
    pub total_cycles: usize,
}

impl View for Cpu {
    type V = CpuView;

    open spec fn view(&self) -> CpuView {
        CpuView {
            running: self.running,
            interrupts_enabled: self.interrupts_enabled,
            regs: self.reg_array,
            acc: self.alu.accumulator,
            flags: self.alu.flags,
            mem: self.memory@,
            ports: self.ports@,
            subroutines: self.subroutines@,
            port_writes: self.port_log@,
            total_cycles: self.total_cycles as int,
        }
    }
}

impl Cpu {
    /// A CPU value is well formed when its memory spans the address space
    /// and it has exactly 256 ports.
    pub open spec fn wf(&self) -> bool {
        &&& self.memory.wf()
        &&& self.ports@.len() == 256
    }

    /// Creates a new CPU: running, interrupts enabled, and every register,
    /// memory byte, port and counter zero.
    pub fn new() -> (cpu: Self)
        ensures
            cpu.wf(),
            cpu@.running,
            cpu@.interrupts_enabled,
            cpu@.regs == (RegisterArray {
                program_counter: 0u16,
                stack_pointer: 0u16,
                reg_a: 0u8,
                reg_f: 0u8,
                reg_b: 0u8,
                reg_c: 0u8,
                reg_d: 0u8,
                reg_e: 0u8,
                reg_h: 0u8,
                reg_l: 0u8,
                reg_w: 0u8,
                reg_z: 0u8,
            }),
            cpu@.acc == RegisterValue::Integer8(0u8),
            cpu@.flags == (AluFlags {
                zero: false,
                sign: false,
                parity: false,
                carry: false,
                aux_carry: false,
            }),
            forall|i: int| 0 <= i < MEMORY_SIZE ==> cpu@.mem[i] == 0u8,
            forall|i: int| 0 <= i < 256 ==> cpu@.ports[i] == 0u8,
            cpu@.subroutines == Seq::<u16>::empty(),
            cpu@.port_writes == Seq::<PortWrite>::empty(),
            cpu@.total_cycles == 0,
    {
        let mut ports: Vec<u8> = Vec::new();
        while ports.len() < 256
            invariant
                ports.len() <= 256,
                forall|i: int| 0 <= i < ports.len() ==> ports@[i] == 0u8,
            decreases 256 - ports.len(),
        {
            ports.push(0);
        }
        Self {
            running: true,
            interrupts_enabled: true,
            reg_array: RegisterArray::new(),
            alu: Alu::new(),
            memory: Memory::new(),
            ports,
            subroutines: Vec::new(),
            port_log: Vec::new(),
            total_cycles: 0,
        }
    }

    /// Returns whether the CPU is running.
    pub fn is_running(&self) -> (r: bool)
        ensures
            r == self@.running,
    {
        self.running
    }

    /// Returns the total number of cycles executed so far.
    pub fn get_total_cycles(&self) -> (r: usize)
        ensures
            r == self@.total_cycles,
    {
        self.total_cycles
    }

    /// Sets the program counter.
    pub fn set_pc(&mut self, new_pc: u16) -> (r: Result<(), CpuError>)
        ensures
            r is Ok,
            final(self)@ == old(self)@.with_pc(new_pc),
    {
        self.reg_array.write_reg(Register::PC, RegisterValue::Integer16(new_pc))
    }

    /// Whether an address has an interception handler registered.
    pub fn has_subroutine(&self, addr: u16) -> (r: bool)
        ensures
            r == self@.subroutines.contains(addr),
    {
        let mut i: usize = 0;
        while i < self.subroutines.len()
            invariant
                i <= self.subroutines.len(),
                forall|j: int| 0 <= j < i ==> self.subroutines@[j] != addr,
            decreases self.subroutines.len() - i,
        {
            if self.subroutines[i] == addr {
                assert(self@.subroutines[i as int] == addr);
                return true;
            }
            i += 1;
        }
        false
    }

    /// Registers an address for subroutine interception: an unconditional
    /// `CALL` to it is reported to the host instead of being performed. At
    /// most one registration per address is kept.
    pub fn add_subroutine_handler(&mut self, subroutine_addr: u16)
        ensures
            old(self)@.subroutines.contains(subroutine_addr) ==> *final(self) == *old(self),
            !old(self)@.subroutines.contains(subroutine_addr) ==> final(self)@ == (CpuView {
                subroutines: old(self)@.subroutines.push(subroutine_addr),
                ..old(self)@
            }),
    {
        if !self.has_subroutine(subroutine_addr) {
            self.subroutines.push(subroutine_addr);
        }
    }

    /// The number of port writes recorded so far.
    pub fn port_write_count(&self) -> (n: usize)
        ensures
            n == self@.port_writes.len(),
    {
        self.port_log.len()
    }

    /// The port write at the given position of the log, oldest first.
    pub fn port_write_at(&self, i: usize) -> (w: PortWrite)
        requires
            i < self@.port_writes.len(),
        ensures
            w == self@.port_writes[i as int],
    {
        self.port_log[i]
    }

    /// Reads a value at the current program counter and advances the
    /// program counter by the width read.
    pub fn read_next(&mut self, size: MemorySize) -> (r: Result<RegisterValue, CpuError>)
        requires
            old(self).wf(),
        ensures
            final(self).wf(),
            final(self)@.total_cycles == old(self)@.total_cycles,
            ({
                let (res, v) = spec_read_next(old(self)@, size);
                r == res && final(self)@ == v
            }),
    {
        let pc_val = self.reg_array.read_reg(Register::PC);
        let value = match self.memory.read(pc_val, size) {
            Ok(v) => v,
            Err(e) => {
                return Err(e);
            },
        };
        let pc_inc = size.n_bytes() as u16;
        let new_pc = pc_val.to_u16().wrapping_add(pc_inc);
        match self.reg_array.write_reg(Register::PC, RegisterValue::Integer16(new_pc)) {
            Ok(_) => {},
            Err(e) => {
                return Err(e);
            },
        }
        Ok(value)
    }

    /// Fetches and decodes the instruction at the current program counter,
    /// returning the opcode byte alongside the decoded record.
    pub fn decode_next_instruction(&mut self) -> (r: Result<(u8, Instruction), CpuError>)
        requires
            old(self).wf(),
        ensures
            final(self).wf(),
            final(self)@.total_cycles == old(self)@.total_cycles,
            ({
                let (res, v) = spec_decode_next(old(self)@);
                r == res && final(self)@ == v
            }),
    {
        let value = match self.read_next(MemorySize::Integer8) {
            Ok(v) => v,
            Err(e) => {
                return Err(e);
            },
        };
        let op = match value.try_to_u8() {
            Ok(op) => op,
            Err(e) => {
                return Err(e);
            },
        };
        match Instruction::decode(value) {
            Ok(instruction) => Ok((op, instruction)),
            Err(e) => Err(e),
        }
    }

    /// Pushes a value onto the stack: the stack pointer moves down by the
    /// value's width and the value is written there, little-endian for a
    /// 16-bit value.
    pub fn push_to_stack(&mut self, value: RegisterValue) -> (r: Result<(), CpuError>)
        requires
            old(self).wf(),
        ensures
            final(self).wf(),
            final(self)@.total_cycles == old(self)@.total_cycles,
            ({
                let (res, v) = spec_push(old(self)@, value);
                r == res && final(self)@ == v
            }),
    {
        let value_size = value.n_bytes() as u16;
        let sp_val = self.reg_array.read_reg(Register::SP);
        let new_sp = sp_val.to_u16().wrapping_sub(value_size);
        match self.reg_array.write_reg(Register::SP, RegisterValue::Integer16(new_sp)) {
            Ok(_) => {},
            Err(e) => {
                return Err(e);
            },
        }
        match self.memory.write(RegisterValue::Integer16(new_sp), value) {
            Ok(_) => Ok(()),
            Err(e) => Err(e),
        }
    }

    /// Pops a value of the given size off the stack: the value at the stack
    /// pointer is read and the stack pointer moves up by its width.
    pub fn pop_from_stack(&mut self, size: MemorySize) -> (r: Result<RegisterValue, CpuError>)
        requires
            old(self).wf(),
        ensures
            final(self).wf(),
            final(self)@.total_cycles == old(self)@.total_cycles,
            ({
                let (res, v) = spec_pop(old(self)@, size);
                r == res && final(self)@ == v
            }),
    {
        let sp_val = self.reg_array.read_reg(Register::SP);
        let value = match self.memory.read(sp_val, size) {
            Ok(v) => v,
            Err(e) => {
                return Err(e);
            },
        };
        let size_inc = size.n_bytes() as u16;
        let new_sp = sp_val.to_u16().wrapping_add(size_inc);
        match self.reg_array.write_reg(Register::SP, RegisterValue::Integer16(new_sp)) {
            Ok(_) => {},
            Err(e) => {
                return Err(e);
            },
        }
        Ok(value)
    }

    /// Writes a value to a port, recording the write in the log; port ids
    /// and port values are 8-bit.
    pub fn write_to_port(&mut self, port: RegisterValue, value: RegisterValue) -> (r: Result<
        (),
        CpuError,
    >)
        requires
            old(self).wf(),
        ensures
            final(self).wf(),
            final(self)@.total_cycles == old(self)@.total_cycles,
            ({
                let (res, v) = spec_port_write(old(self)@, port, value);
                r == res && final(self)@ == v
            }),
    {
        if port.n_bytes() != 1 || value.n_bytes() != 1 {
            return Err(CpuError::Width);
        }
        let port_id = match port.try_to_u8() {
            Ok(p) => p,
            Err(e) => {
                return Err(e);
            },
        };
        let val = match value.try_to_u8() {
            Ok(p) => p,
            Err(e) => {
                return Err(e);
            },
        };
        self.ports.set(port_id as usize, val);
        self.port_log.push(PortWrite { port: port_id, value: val });
        Ok(())
    }

    /// Reads the last value written to a port; port ids are 8-bit.
    pub fn read_port(&self, port: RegisterValue) -> (r: Result<RegisterValue, CpuError>)
        requires
            self.wf(),
        ensures
            port.spec_width() == 1 ==> r == Ok::<RegisterValue, CpuError>(
                RegisterValue::Integer8(self@.ports[port.spec_u16() as u8 as int]),
            ),
            port.spec_width() != 1 ==> r == Err::<RegisterValue, CpuError>(CpuError::Width),
    {
        if port.n_bytes() != 1 {
            return Err(CpuError::Width);
        }
        let port_id = match port.try_to_u8() {
            Ok(p) => p,
            Err(e) => {
                return Err(e);
            },
        };
        Ok(RegisterValue::Integer8(self.ports[port_id as usize]))
    }

    /// Evaluates an operand to the value it names, advancing the program
    /// counter when the operand lives in the instruction stream.
    pub fn evaluate_source(&mut self, source: &InstructionSource) -> (r: Result<
        RegisterValue,
        CpuError,
    >)
        requires
            old(self).wf(),
        ensures
            final(self).wf(),
            final(self)@.total_cycles == old(self)@.total_cycles,
            ({
                let (res, v) = spec_eval_source(old(self)@, *source);
                r == res && final(self)@ == v
            }),
        decreases *source,
    {
        match source {
            InstructionSource::Memory(memory_source, size) => match memory_source {
                MemorySource::Address(addr) => self.memory.read(*addr, *size),
                MemorySource::Register(reg) => {
                    let addr = self.reg_array.read_reg(*reg);
                    self.memory.read(addr, *size)
                },
                MemorySource::ProgramCounter => self.read_next(*size),
            },
            InstructionSource::Register(reg) => Ok(self.reg_array.read_reg(*reg)),
            InstructionSource::Accumulator => Ok(self.alu.accumulator()),
            InstructionSource::Sum(source1, source2) => {
                let val1 = match self.evaluate_source(&**source1) {
                    Ok(v) => v,
                    Err(e) => {
                        return Err(e);
                    },
                };
                let val2 = match self.evaluate_source(&**source2) {
                    Ok(v) => v,
                    Err(e) => {
                        return Err(e);
                    },
                };
                val1.try_add(val2)
            },
            InstructionSource::Value(value) => Ok(*value),
        }
    }

    /// Writes a value to the operand it names, as [`spec_write_source`]
    /// lays out.
    pub fn write_to_source(&mut self, source: &InstructionSource, value: RegisterValue) -> (r:
        Result<(), CpuError>)
        requires
            old(self).wf(),
        ensures
            final(self).wf(),
            final(self)@.total_cycles == old(self)@.total_cycles,
            ({
                let (res, v) = spec_write_source(old(self)@, *source, value);
                r == res && final(self)@ == v
            }),
    {
        match source {
            InstructionSource::Memory(memory_source, size) => {
                if value.n_bytes() != size.n_bytes() {
                    return Err(CpuError::Width);
                }
                let addr = match memory_source {
                    MemorySource::Address(addr) => *addr,
                    MemorySource::Register(reg) => self.reg_array.read_reg(*reg),
                    MemorySource::ProgramCounter => {
                        return Err(CpuError::Operand);
                    },
                };
                match self.memory.write(addr, value) {
                    Ok(_) => Ok(()),
                    Err(e) => Err(e),
                }
            },
            InstructionSource::Register(reg) => {
                match self.reg_array.write_reg(*reg, value) {
                    Ok(_) => {},
                    Err(e) => {
                        return Err(e);
                    },
                }
                if matches!(reg, Register::PSW) {
                    let val16 = value.to_u16();
                    let (a, f) = utils::separate_values(val16);
                    match self.alu.write_accumulator(RegisterValue::Integer8(a)) {
                        Ok(_) => {},
                        Err(e) => {
                            return Err(e);
                        },
                    }
                    self.alu.write_flags(AluFlags::from_f(f));
                }
                Ok(())
            },
            InstructionSource::Accumulator => {
                match self.alu.write_accumulator(value) {
                    Ok(_) => Ok(()),
                    Err(_) => Err(CpuError::Width),
                }
            },
            _ => Err(CpuError::Operand),
        }
    }

    /// Refreshes the PSW cells of the register array from the ALU's
    /// accumulator and flags, so that observers and stack pushes of PSW see
    /// a consistent byte with the fixed flag bits honoured.
    pub fn update_status_word(&mut self) -> (r: Result<(), CpuError>)
        requires
            old(self).wf(),
        ensures
            final(self).wf(),
            final(self)@.total_cycles == old(self)@.total_cycles,
            ({
                let (res, v) = spec_sync_psw(old(self)@);
                r == res && final(self)@ == v
            }),
    {
        let a = match self.alu.accumulator().try_to_u8() {
            Ok(a) => a,
            Err(e) => {
                return Err(e);
            },
        };
        let flags = self.alu.flags();
        let f_bits: [u8; 8] = [
            if flags.sign {
                1
            } else {
                0
            },
            if flags.zero {
                1
            } else {
                0
            },
            0,
            if flags.aux_carry {
                1
            } else {
                0
            },
            0,
            if flags.parity {
                1
            } else {
                0
            },
            1,
            if flags.carry {
                1
            } else {
                0
            },
        ];
        let f = utils::from_bits(f_bits);
        let psw = utils::combine_values(a, f);
        proof {
            utils::lemma_combine_separate(a, f, psw);
        }
        match self.reg_array.write_reg(Register::PSW, RegisterValue::Integer16(psw)) {
            Ok(_) => Ok(()),
            Err(e) => Err(e),
        }
    }

    /// Runs one ALU-family instruction: evaluates its operands, applies the
    /// operation, and leaves any result in the accumulator.
    fn step_alu(&mut self, instruction: &Instruction) -> (r: Result<(), CpuError>)
        requires
            old(self).wf(),
        ensures
            final(self).wf(),
            final(self)@.total_cycles == old(self)@.total_cycles,
            ({
                let (res, v) = spec_step_alu(old(self)@, *instruction);
                r == res && final(self)@ == v
            }),
    {
        match instruction {
            Instruction::Add(a, b) => self.step_alu_two(a, b, instruction),
            Instruction::AddWithCarry(a, b) => self.step_alu_two(a, b, instruction),
            Instruction::Subtract(a, b) => self.step_alu_two(a, b, instruction),
            Instruction::SubtractWithBorrow(a, b) => self.step_alu_two(a, b, instruction),
            Instruction::BitwiseAnd(a, b) => self.step_alu_two(a, b, instruction),
            Instruction::BitwiseXor(a, b) => self.step_alu_two(a, b, instruction),
            Instruction::BitwiseOr(a, b) => self.step_alu_two(a, b, instruction),
            Instruction::Comparison(a, b) => self.step_alu_two(a, b, instruction),
            Instruction::RotateLeft(a) => self.step_alu_one(a, instruction),
            Instruction::RotateRight(a) => self.step_alu_one(a, instruction),
            Instruction::RotateLeftThroughCarry(a) => self.step_alu_one(a, instruction),
            Instruction::RotateRightThroughCarry(a) => self.step_alu_one(a, instruction),
            Instruction::DecimalAdjust(a) => self.step_alu_one(a, instruction),
            Instruction::Complement(a) => self.step_alu_one(a, instruction),
            Instruction::SetCarry => self.apply_alu(AluOperation::SetCarry),
            Instruction::ComplementCarry => self.apply_alu(AluOperation::ComplementCarry),
            _ => Err(CpuError::Operand),
        }
    }

    /// Runs a two-operand ALU instruction over its evaluated operands.
    fn step_alu_two(
        &mut self,
        a: &InstructionSource,
        b: &InstructionSource,
        instruction: &Instruction,
    ) -> (r: Result<(), CpuError>)
        requires
            old(self).wf(),
        ensures
            final(self).wf(),
            final(self)@.total_cycles == old(self)@.total_cycles,
            ({
                let (res, v) = spec_step_alu_two(old(self)@, *a, *b, *instruction);
                r == res && final(self)@ == v
            }),
    {
        let va = match self.evaluate_source(a) {
            Ok(v) => v,
            Err(e) => {
                return Err(e);
            },
        };
        let vb = match self.evaluate_source(b) {
            Ok(v) => v,
            Err(e) => {
                return Err(e);
            },
        };
        let op = match instruction {
            Instruction::Add(_, _) => AluOperation::Add(va, vb),
            Instruction::AddWithCarry(_, _) => AluOperation::AddCarry(va, vb),
            Instruction::Subtract(_, _) => AluOperation::Sub(va, vb),
            Instruction::SubtractWithBorrow(_, _) => AluOperation::SubBorrow(va, vb),
            Instruction::BitwiseAnd(_, _) => AluOperation::BitwiseAnd(va, vb),
            Instruction::BitwiseXor(_, _) => AluOperation::BitwiseXor(va, vb),
            Instruction::BitwiseOr(_, _) => AluOperation::BitwiseOr(va, vb),
            _ => AluOperation::Comparison(va, vb),
        };
        self.apply_alu(op)
    }

    /// Runs a one-operand ALU instruction over its evaluated operand.
    fn step_alu_one(&mut self, a: &InstructionSource, instruction: &Instruction) -> (r: Result<
        (),
        CpuError,
    >)
        requires
            old(self).wf(),
        ensures
            final(self).wf(),
            final(self)@.total_cycles == old(self)@.total_cycles,
            ({
                let (res, v) = spec_step_alu_one(old(self)@, *a, *instruction);
                r == res && final(self)@ == v
            }),
    {
        let val = match self.evaluate_source(a) {
            Ok(v) => v,
            Err(e) => {
                return Err(e);
            },
        };
        let op = match instruction {
            Instruction::RotateLeft(_) => AluOperation::RotateLeft(val),
            Instruction::RotateRight(_) => AluOperation::RotateRight(val),
            Instruction::RotateLeftThroughCarry(_) => AluOperation::RotateLeftThroughCarry(val),
            Instruction::RotateRightThroughCarry(_) => AluOperation::RotateRightThroughCarry(val),
            Instruction::DecimalAdjust(_) => AluOperation::DecimalAdjust(val),
            _ => AluOperation::Complement(val),
        };
        self.apply_alu(op)
    }

    /// Evaluates one ALU operation over the current accumulator and flags.
    fn apply_alu(&mut self, op: AluOperation) -> (r: Result<(), CpuError>)
        requires
            old(self).wf(),
        ensures
            final(self).wf(),
            final(self)@.total_cycles == old(self)@.total_cycles,
            ({
                let (res, v) = spec_apply_alu(old(self)@, op);
                r == res && final(self)@ == v
            }),
    {
        match self.alu.evaluate(op) {
            Ok(_) => Ok(()),
            Err(e) => Err(e),
        }
    }

    /// Runs a load: fetches a 16-bit address from the instruction stream,
    /// reads a value of the destination's width there, and writes it to the
    /// destination.
    fn step_load(&mut self, dest: &InstructionSource) -> (r: Result<(), CpuError>)
        requires
            old(self).wf(),
        ensures
            final(self).wf(),
            final(self)@.total_cycles == old(self)@.total_cycles,
            ({
                let (res, v) = spec_step_load(old(self)@, *dest);
                r == res && final(self)@ == v
            }),
    {
        let addr = match self.read_next(MemorySize::Integer16) {
            Ok(v) => v,
            Err(e) => {
                return Err(e);
            },
        };
        let n = match dest.n_bytes() {
            Ok(n) => n,
            Err(e) => {
                return Err(e);
            },
        };
        let imm_size = match MemorySize::from_bytes(n) {
            Ok(s) => s,
            Err(e) => {
                return Err(e);
            },
        };
        let imm_val = match self.memory.read(addr, imm_size) {
            Ok(v) => v,
            Err(e) => {
                return Err(e);
            },
        };
        self.write_to_source(dest, imm_val)
    }

    /// Runs a store: fetches a 16-bit address from the instruction stream,
    /// evaluates the operand, and writes its value at that address.
    fn step_store(&mut self, source: &InstructionSource) -> (r: Result<(), CpuError>)
        requires
            old(self).wf(),
        ensures
            final(self).wf(),
            final(self)@.total_cycles == old(self)@.total_cycles,
            ({
                let (res, v) = spec_step_store(old(self)@, *source);
                r == res && final(self)@ == v
            }),
    {
        let n = match source.n_bytes() {
            Ok(n) => n,
            Err(e) => {
                return Err(e);
            },
        };
        let src_size = match MemorySize::from_bytes(n) {
            Ok(s) => s,
            Err(e) => {
                return Err(e);
            },
        };
        let addr = match self.read_next(MemorySize::Integer16) {
            Ok(v) => v,
            Err(e) => {
                return Err(e);
            },
        };
        let value = match self.evaluate_source(source) {
            Ok(v) => v,
            Err(e) => {
                return Err(e);
            },
        };
        let dest = InstructionSource::Memory(MemorySource::Address(addr), src_size);
        self.write_to_source(&dest, value)
    }

    /// Runs an increment: an 8-bit operand goes through the ALU, keeping
    /// the carry flag; a 16-bit operand is stepped directly with no flag
    /// change.
    fn step_increment(&mut self, source: &InstructionSource) -> (r: Result<(), CpuError>)
        requires
            old(self).wf(),
        ensures
            final(self).wf(),
            final(self)@.total_cycles == old(self)@.total_cycles,
            ({
                let (res, v) = spec_step_increment(old(self)@, *source);
                r == res && final(self)@ == v
            }),
    {
        let n = match source.n_bytes() {
            Ok(n) => n,
            Err(e) => {
                return Err(e);
            },
        };
        if n == 1 {
            let val = match self.evaluate_source(source) {
                Ok(v) => v,
                Err(e) => {
                    return Err(e);
                },
            };
            let result = match self.alu.evaluate(AluOperation::Increment(val)) {
                Ok(Some(r)) => r,
                Ok(None) => {
                    return Err(CpuError::Conversion);
                },
                Err(e) => {
                    return Err(e);
                },
            };
            self.write_to_source(source, result)
        } else {
            let val = match self.evaluate_source(source) {
                Ok(v) => v,
                Err(e) => {
                    return Err(e);
                },
            };
            let result = RegisterValue::Integer16(val.to_u16().wrapping_add(1));
            self.write_to_source(source, result)
        }
    }

    /// Runs a decrement, dually to [`Cpu::step_increment`].
    fn step_decrement(&mut self, source: &InstructionSource) -> (r: Result<(), CpuError>)
        requires
            old(self).wf(),
        ensures
            final(self).wf(),
            final(self)@.total_cycles == old(self)@.total_cycles,
            ({
                let (res, v) = spec_step_decrement(old(self)@, *source);
                r == res && final(self)@ == v
            }),
    {
        let n = match source.n_bytes() {
            Ok(n) => n,
            Err(e) => {
                return Err(e);
            },
        };
        if n == 1 {
            let val = match self.evaluate_source(source) {
                Ok(v) => v,
                Err(e) => {
                    return Err(e);
                },
            };
            let result = match self.alu.evaluate(AluOperation::Decrement(val)) {
                Ok(Some(r)) => r,
                Ok(None) => {
                    return Err(CpuError::Conversion);
                },
                Err(e) => {
                    return Err(e);
                },
            };
            self.write_to_source(source, result)
        } else {
            let val = match self.evaluate_source(source) {
                Ok(v) => v,
                Err(e) => {
                    return Err(e);
                },
            };
            let result = RegisterValue::Integer16(val.to_u16().wrapping_sub(1));
            self.write_to_source(source, result)
        }
    }

    /// Runs a move: evaluates the source and writes its value to the
    /// destination.
    fn step_move(&mut self, dest: &InstructionSource, source: &InstructionSource) -> (r: Result<
        (),
        CpuError,
    >)
        requires
            old(self).wf(),
        ensures
            final(self).wf(),
            final(self)@.total_cycles == old(self)@.total_cycles,
            ({
                let (res, v) = spec_step_move(old(self)@, *dest, *source);
                r == res && final(self)@ == v
            }),
    {
        let value = match self.evaluate_source(source) {
            Ok(v) => v,
            Err(e) => {
                return Err(e);
            },
        };
        self.write_to_source(dest, value)
    }

    /// Runs a double byte add: `HL <- HL + rp`, the carry flag set exactly
    /// on 16-bit overflow and no other flag touched.
    fn step_double_add(&mut self, rp: &InstructionSource) -> (r: Result<(), CpuError>)
        requires
            old(self).wf(),
        ensures
            final(self).wf(),
            final(self)@.total_cycles == old(self)@.total_cycles,
            ({
                let (res, v) = spec_step_double_add(old(self)@, *rp);
                r == res && final(self)@ == v
            }),
    {
        let hl = self.reg_array.read_reg(Register::HL).to_u16();
        let rv = match self.evaluate_source(rp) {
            Ok(v) => v,
            Err(e) => {
                return Err(e);
            },
        };
        let rp16 = rv.to_u16();
        let sum = hl.wrapping_add(rp16);
        match self.reg_array.write_reg(Register::HL, RegisterValue::Integer16(sum)) {
            Ok(_) => {},
            Err(e) => {
                return Err(e);
            },
        }
        let mut flags = self.alu.flags();
        flags.carry = hl as u32 + rp16 as u32 > 0xFFFF;
        self.alu.write_flags(flags);
        Ok(())
    }

    /// Runs an exchange: evaluates both operands and writes each with the
    /// other's value.
    fn step_exchange(&mut self, a: &InstructionSource, b: &InstructionSource) -> (r: Result<
        (),
        CpuError,
    >)
        requires
            old(self).wf(),
        ensures
            final(self).wf(),
            final(self)@.total_cycles == old(self)@.total_cycles,
            ({
                let (res, v) = spec_step_exchange(old(self)@, *a, *b);
                r == res && final(self)@ == v
            }),
    {
        let val_a = match self.evaluate_source(a) {
            Ok(v) => v,
            Err(e) => {
                return Err(e);
            },
        };
        let val_b = match self.evaluate_source(b) {
            Ok(v) => v,
            Err(e) => {
                return Err(e);
            },
        };
        match self.write_to_source(a, val_b) {
            Ok(_) => {},
            Err(e) => {
                return Err(e);
            },
        }
        self.write_to_source(b, val_a)
    }

    /// Loads a byte image into memory starting at the given address; the
    /// image must fit below the end of memory, else nothing is written and
    /// an address error is returned.
    pub fn load_to_memory(&mut self, data: Vec<u8>, start_addr: u16) -> (r: Result<(), CpuError>)
        requires
            old(self).wf(),
        ensures
            final(self).wf(),
            start_addr + data@.len() <= 0x10000 ==> r is Ok && final(self)@ == (CpuView {
                mem: spec_load_image(old(self)@.mem, data@, start_addr as int),
                ..old(self)@
            }),
            start_addr + data@.len() > 0x10000 ==> r == Err::<(), CpuError>(CpuError::Address)
                && *final(self) == *old(self),
    {
        if data.len() > 0x10000 - start_addr as usize {
            return Err(CpuError::Address);
        }
        let ghost mem0 = self@.mem;
        let mut i: usize = 0;
        while i < data.len()
            invariant
                self.wf(),
                i <= data@.len(),
                start_addr + data@.len() <= 0x10000,
                self.running == old(self).running,
                self.interrupts_enabled == old(self).interrupts_enabled,
                self.reg_array == old(self).reg_array,
                self.alu.accumulator == old(self).alu.accumulator,
                self.alu.flags == old(self).alu.flags,
                self.ports@ == old(self).ports@,
                self.subroutines@ == old(self).subroutines@,
                self.port_log@ == old(self).port_log@,
                self.total_cycles == old(self).total_cycles,
                mem0 == old(self)@.mem,
                self@.mem.len() == mem0.len(),
                forall|k: int|
                    0 <= k < MEMORY_SIZE && !(start_addr <= k < start_addr + i) ==> self@.mem[k]
                        == mem0[k],
                forall|k: int|
                    start_addr <= k < start_addr + i ==> self@.mem[k] == data@[k - start_addr],
            decreases data@.len() - i,
        {
            let addr = start_addr.wrapping_add(i as u16);
            proof {
                assert(addr == start_addr + i);
            }
            match self.memory.write(
                RegisterValue::Integer16(addr),
                RegisterValue::Integer8(data[i]),
            ) {
                Ok(_) => {},
                Err(e) => {
                    return Err(e);
                },
            }
            i += 1;
        }
        proof {
            assert(self@.mem =~= spec_load_image(old(self)@.mem, data@, start_addr as int));
        }
        Ok(())
    }

    /// Runs a conditional return: when the condition holds over the flags,
    /// pops the return address into the program counter at a cost of 6
    /// extra cycles.
    fn step_return_conditional(&mut self, cond: InstructionCondition) -> (r: Result<
        (usize, Option<u16>),
        CpuError,
    >)
        requires
            old(self).wf(),
        ensures
            final(self).wf(),
            final(self)@.total_cycles == old(self)@.total_cycles,
            r is Ok ==> (r.unwrap().0 == 0 || r.unwrap().0 == 6),
            ({
                let (res, v) = spec_step_body(old(self)@, Instruction::ReturnConditional(cond));
                r == res && final(self)@ == v
            }),
    {
        if self.alu.flags().evaluate_condition(cond) {
            let new_pc = match self.pop_from_stack(MemorySize::Integer16) {
                Ok(v) => v,
                Err(e) => {
                    return Err(e);
                },
            };
            match self.reg_array.write_reg(Register::PC, new_pc) {
                Ok(_) => Ok((6, None)),
                Err(e) => Err(e),
            }
        } else {
            Ok((0, None))
        }
    }

    /// Runs a stack pop into the destination operand.
    fn step_stack_pop(&mut self, dest: &InstructionSource) -> (r: Result<
        (usize, Option<u16>),
        CpuError,
    >)
        requires
            old(self).wf(),
        ensures
            final(self).wf(),
            final(self)@.total_cycles == old(self)@.total_cycles,
            r is Ok ==> (r.unwrap().0 == 0 || r.unwrap().0 == 6),
            ({
                let (res, v) = spec_step_body(old(self)@, Instruction::StackPop(*dest));
                r == res && final(self)@ == v
            }),
    {
        let n = match dest.n_bytes() {
            Ok(n) => n,
            Err(e) => {
                return Err(e);
            },
        };
        let pop_size = match MemorySize::from_bytes(n) {
            Ok(s) => s,
            Err(e) => {
                return Err(e);
            },
        };
        let stack_val = match self.pop_from_stack(pop_size) {
            Ok(v) => v,
            Err(e) => {
                return Err(e);
            },
        };
        match self.write_to_source(dest, stack_val) {
            Ok(_) => Ok((0, None)),
            Err(e) => Err(e),
        }
    }

    /// Runs a conditional jump: the target address is always consumed, and
    /// the program counter moves only when the condition holds.
    fn step_jump_conditional(&mut self, cond: InstructionCondition) -> (r: Result<
        (usize, Option<u16>),
        CpuError,
    >)
        requires
            old(self).wf(),
        ensures
            final(self).wf(),
            final(self)@.total_cycles == old(self)@.total_cycles,
            r is Ok ==> (r.unwrap().0 == 0 || r.unwrap().0 == 6),
            ({
                let (res, v) = spec_step_body(old(self)@, Instruction::JumpConditional(cond));
                r == res && final(self)@ == v
            }),
    {
        let addr = match self.read_next(MemorySize::Integer16) {
            Ok(v) => v,
            Err(e) => {
                return Err(e);
            },
        };
        if self.alu.flags().evaluate_condition(cond) {
            match self.reg_array.write_reg(Register::PC, addr) {
                Ok(_) => Ok((0, None)),
                Err(e) => Err(e),
            }
        } else {
            Ok((0, None))
        }
    }

    /// Runs an unconditional jump; a jump to address 0 stops the CPU, as
    /// programs in the CP/M convention exit that way.
    fn step_jump(&mut self) -> (r: Result<(usize, Option<u16>), CpuError>)
        requires
            old(self).wf(),
        ensures
            final(self).wf(),
            final(self)@.total_cycles == old(self)@.total_cycles,
            r is Ok ==> (r.unwrap().0 == 0 || r.unwrap().0 == 6),
            ({
                let (res, v) = spec_step_body(old(self)@, Instruction::Jump);
                r == res && final(self)@ == v
            }),
    {
        let addr = match self.read_next(MemorySize::Integer16) {
            Ok(v) => v,
            Err(e) => {
                return Err(e);
            },
        };
        if addr.to_u16() == 0 {
            self.running = false;
            Ok((0, None))
        } else {
            match self.reg_array.write_reg(Register::PC, addr) {
                Ok(_) => Ok((0, None)),
                Err(e) => Err(e),
            }
        }
    }

    /// Runs a conditional call: the target address is always consumed; when
    /// the condition holds the return address is pushed and the program
    /// counter moves, at a cost of 6 extra cycles.
    fn step_call_conditional(&mut self, cond: InstructionCondition) -> (r: Result<
        (usize, Option<u16>),
        CpuError,
    >)
        requires
            old(self).wf(),
        ensures
            final(self).wf(),
            final(self)@.total_cycles == old(self)@.total_cycles,
            r is Ok ==> (r.unwrap().0 == 0 || r.unwrap().0 == 6),
            ({
                let (res, v) = spec_step_body(old(self)@, Instruction::CallConditional(cond));
                r == res && final(self)@ == v
            }),
    {
        let addr = match self.read_next(MemorySize::Integer16) {
            Ok(v) => v,
            Err(e) => {
                return Err(e);
            },
        };
        if self.alu.flags().evaluate_condition(cond) {
            let pc_val = self.reg_array.read_reg(Register::PC);
            match self.push_to_stack(pc_val) {
                Ok(_) => {},
                Err(e) => {
                    return Err(e);
                },
            }
            match self.reg_array.write_reg(Register::PC, addr) {
                Ok(_) => Ok((6, None)),
                Err(e) => Err(e),
            }
        } else {
            Ok((0, None))
        }
    }

    /// Runs a stack push of the operand's value.
    fn step_stack_push(&mut self, source: &InstructionSource) -> (r: Result<
        (usize, Option<u16>),
        CpuError,
    >)
        requires
            old(self).wf(),
        ensures
            final(self).wf(),
            final(self)@.total_cycles == old(self)@.total_cycles,
            r is Ok ==> (r.unwrap().0 == 0 || r.unwrap().0 == 6),
            ({
                let (res, v) = spec_step_body(old(self)@, Instruction::StackPush(*source));
                r == res && final(self)@ == v
            }),
    {
        let value = match self.evaluate_source(source) {
            Ok(v) => v,
            Err(e) => {
                return Err(e);
            },
        };
        match self.push_to_stack(value) {
            Ok(_) => Ok((0, None)),
            Err(e) => Err(e),
        }
    }

    /// Runs a restart: pushes the program counter and jumps to eight times
    /// the operand's value.
    fn step_reset(&mut self, n_source: &InstructionSource) -> (r: Result<
        (usize, Option<u16>),
        CpuError,
    >)
        requires
            old(self).wf(),
        ensures
            final(self).wf(),
            final(self)@.total_cycles == old(self)@.total_cycles,
            r is Ok ==> (r.unwrap().0 == 0 || r.unwrap().0 == 6),
            ({
                let (res, v) = spec_step_body(old(self)@, Instruction::Reset(*n_source));
                r == res && final(self)@ == v
            }),
    {
        let nv = match self.evaluate_source(n_source) {
            Ok(v) => v,
            Err(e) => {
                return Err(e);
            },
        };
        let pc_val = self.reg_array.read_reg(Register::PC);
        match self.push_to_stack(pc_val) {
            Ok(_) => {},
            Err(e) => {
                return Err(e);
            },
        }
        let target = ((nv.to_u16() as u32 * 8) % 0x10000) as u16;
        match self.reg_array.write_reg(Register::PC, RegisterValue::Integer16(target)) {
            Ok(_) => Ok((0, None)),
            Err(e) => Err(e),
        }
    }

    /// Runs an unconditional return: pops the return address into the
    /// program counter.
    fn step_return(&mut self) -> (r: Result<(usize, Option<u16>), CpuError>)
        requires
            old(self).wf(),
        ensures
            final(self).wf(),
            final(self)@.total_cycles == old(self)@.total_cycles,
            r is Ok ==> (r.unwrap().0 == 0 || r.unwrap().0 == 6),
            ({
                let (res, v) = spec_step_body(old(self)@, Instruction::Return);
                r == res && final(self)@ == v
            }),
    {
        let new_pc = match self.pop_from_stack(MemorySize::Integer16) {
            Ok(v) => v,
            Err(e) => {
                return Err(e);
            },
        };
        match self.reg_array.write_reg(Register::PC, new_pc) {
            Ok(_) => Ok((0, None)),
            Err(e) => Err(e),
        }
    }

    /// Runs an unconditional call. A call to a registered interception
    /// address is not performed: no push, no jump; the address is returned
    /// so the host can run its handler in the subroutine's stead.
    fn step_call(&mut self) -> (r: Result<(usize, Option<u16>), CpuError>)
        requires
            old(self).wf(),
        ensures
            final(self).wf(),
            final(self)@.total_cycles == old(self)@.total_cycles,
            r is Ok ==> (r.unwrap().0 == 0 || r.unwrap().0 == 6),
            ({
                let (res, v) = spec_step_body(old(self)@, Instruction::Call);
                r == res && final(self)@ == v
            }),
    {
        let addr = match self.read_next(MemorySize::Integer16) {
            Ok(v) => v,
            Err(e) => {
                return Err(e);
            },
        };
        let addr16 = addr.to_u16();
        if self.has_subroutine(addr16) {
            Ok((0, Some(addr16)))
        } else {
            let pc_val = self.reg_array.read_reg(Register::PC);
            match self.push_to_stack(pc_val) {
                Ok(_) => {},
                Err(e) => {
                    return Err(e);
                },
            }
            match self.reg_array.write_reg(Register::PC, addr) {
                Ok(_) => Ok((0, None)),
                Err(e) => Err(e),
            }
        }
    }

    /// Runs an `OUT`: writes the accumulator to the port named by the next
    /// instruction byte, recording the write in the log.
    fn step_io_out(&mut self) -> (r: Result<(usize, Option<u16>), CpuError>)
        requires
            old(self).wf(),
        ensures
            final(self).wf(),
            final(self)@.total_cycles == old(self)@.total_cycles,
            r is Ok ==> (r.unwrap().0 == 0 || r.unwrap().0 == 6),
            ({
                let (res, v) = spec_step_body(old(self)@, Instruction::IoOut);
                r == res && final(self)@ == v
            }),
    {
        let port = match self.read_next(MemorySize::Integer8) {
            Ok(v) => v,
            Err(e) => {
                return Err(e);
            },
        };
        let a_val = self.alu.accumulator();
        match self.write_to_port(port, a_val) {
            Ok(_) => Ok((0, None)),
            Err(e) => Err(e),
        }
    }

    /// Runs an `IN`: reads the port named by the next instruction byte into
    /// the accumulator.
    fn step_io_in(&mut self) -> (r: Result<(usize, Option<u16>), CpuError>)
        requires
            old(self).wf(),
        ensures
            final(self).wf(),
            final(self)@.total_cycles == old(self)@.total_cycles,
            r is Ok ==> (r.unwrap().0 == 0 || r.unwrap().0 == 6),
            ({
                let (res, v) = spec_step_body(old(self)@, Instruction::IoIn);
                r == res && final(self)@ == v
            }),
    {
        let port = match self.read_next(MemorySize::Integer8) {
            Ok(v) => v,
            Err(e) => {
                return Err(e);
            },
        };
        let port_val = match self.read_port(port) {
            Ok(v) => v,
            Err(e) => {
                return Err(e);
            },
        };
        match self.alu.write_accumulator(port_val) {
            Ok(_) => Ok((0, None)),
            Err(e) => Err(e),
        }
    }

    /// Applies one instruction's effect, between the step's two status-word
    /// refreshes.
    #[verifier::rlimit(100)]
    #[verifier::spinoff_prover]
    fn execute_body(&mut self, instruction: &Instruction) -> (r: Result<
        (usize, Option<u16>),
        CpuError,
    >)
        requires
            old(self).wf(),
        ensures
            final(self).wf(),
            final(self)@.total_cycles == old(self)@.total_cycles,
            r is Ok ==> (r.unwrap().0 == 0 || r.unwrap().0 == 6),
            ({
                let (res, v) = spec_step_body(old(self)@, *instruction);
                r == res && final(self)@ == v
            }),
    {
        match instruction {
            Instruction::Nop => Ok((0, None)),
            Instruction::Load(dest) => match self.step_load(dest) {
                Ok(_) => Ok((0, None)),
                Err(e) => Err(e),
            },
            Instruction::Store(source) => match self.step_store(source) {
                Ok(_) => Ok((0, None)),
                Err(e) => Err(e),
            },
            Instruction::Increment(source) => match self.step_increment(source) {
                Ok(_) => Ok((0, None)),
                Err(e) => Err(e),
            },
            Instruction::Decrement(source) => match self.step_decrement(source) {
                Ok(_) => Ok((0, None)),
                Err(e) => Err(e),
            },
            Instruction::Move(dest, source) => match self.step_move(dest, source) {
                Ok(_) => Ok((0, None)),
                Err(e) => Err(e),
            },
            Instruction::RotateLeft(_) | Instruction::RotateRight(_)
                | Instruction::RotateLeftThroughCarry(_)
                | Instruction::RotateRightThroughCarry(_) | Instruction::DecimalAdjust(_)
                | Instruction::Complement(_) | Instruction::SetCarry
                | Instruction::ComplementCarry | Instruction::Add(_, _)
                | Instruction::AddWithCarry(_, _) | Instruction::Subtract(_, _)
                | Instruction::SubtractWithBorrow(_, _) | Instruction::BitwiseAnd(_, _)
                | Instruction::BitwiseXor(_, _) | Instruction::BitwiseOr(_, _)
                | Instruction::Comparison(_, _) => match self.step_alu(instruction) {
                Ok(_) => Ok((0, None)),
                Err(e) => Err(e),
            },
            Instruction::Halt => {
                self.running = false;
                Ok((0, None))
            },
            Instruction::DoubleByteAdd(rp) => match self.step_double_add(rp) {
                Ok(_) => Ok((0, None)),
                Err(e) => Err(e),
            },
            Instruction::ReturnConditional(cond) => self.step_return_conditional(*cond),
            Instruction::StackPop(dest) => self.step_stack_pop(dest),
            Instruction::JumpConditional(cond) => self.step_jump_conditional(*cond),
            Instruction::Jump => self.step_jump(),
            Instruction::CallConditional(cond) => self.step_call_conditional(*cond),
            Instruction::StackPush(source) => self.step_stack_push(source),
            Instruction::Reset(n_source) => self.step_reset(n_source),
            Instruction::Return => self.step_return(),
            Instruction::Call => self.step_call(),
            Instruction::IoOut => self.step_io_out(),
            Instruction::IoIn => self.step_io_in(),
            Instruction::Exchange(a, b) => match self.step_exchange(a, b) {
                Ok(_) => Ok((0, None)),
                Err(e) => Err(e),
            },
            Instruction::DisableInterrupts => {
                self.interrupts_enabled = false;
                Ok((0, None))
            },
            Instruction::EnableInterrupts => {
                self.interrupts_enabled = true;
                Ok((0, None))
            },
        }
    }

    /// Executes one decoded instruction: refreshes the status word, applies
    /// the instruction as [`spec_step_body`] lays out, refreshes the status
    /// word again, and adds the instruction's cycles to the total. Returns
    /// the cycles taken, 6 more than the base cost for a taken conditional
    /// call or return, and the address of an intercepted call, if any.
    pub fn execute(&mut self, opcode: u8, instruction: Instruction) -> (r: Result<
        (usize, Option<u16>),
        CpuError,
    >)
        requires
            old(self).wf(),
            old(self)@.total_cycles + 24 <= usize::MAX,
        ensures
            final(self).wf(),
            ({
                let (res, v) = spec_execute(old(self)@, opcode, instruction);
                r == res && final(self)@ == v
            }),
            r is Ok ==> 4 <= r.unwrap().0 <= 24 && final(self)@.total_cycles == old(self)@.total_cycles + r.unwrap().0,
            r is Err ==> final(self)@.total_cycles == old(self)@.total_cycles,
    {
        let base = base_cycles(opcode);
        proof {
            lemma_base_cycles_bounds(opcode);
        }
        match self.update_status_word() {
            Ok(_) => {},
            Err(e) => {
                return Err(e);
            },
        }
        let (extra, intercepted) = match self.execute_body(&instruction) {
            Ok(p) => p,
            Err(e) => {
                return Err(e);
            },
        };
        match self.update_status_word() {
            Ok(_) => {},
            Err(e) => {
                return Err(e);
            },
        }
        let cycles = base + extra;
        self.total_cycles = self.total_cycles + cycles;
        Ok((cycles, intercepted))
    }

    /// Executes the next instruction in memory; on a halted CPU this does
    /// nothing and takes no cycles.
    pub fn execute_next(&mut self) -> (r: Result<(usize, Option<u16>), CpuError>)
        requires
            old(self).wf(),
            old(self)@.total_cycles + 24 <= usize::MAX,
        ensures
            final(self).wf(),
            ({
                let (res, v) = spec_execute_next(old(self)@);
                r == res && final(self)@ == v
            }),
            r is Ok ==> final(self)@.total_cycles <= old(self)@.total_cycles + 24,
            r is Err ==> final(self)@.total_cycles == old(self)@.total_cycles,
            final(self)@.total_cycles >= old(self)@.total_cycles,
            old(self)@.running && r is Ok ==> final(self)@.total_cycles - old(self)@.total_cycles
                >= 4,
    {
        proof {
            reveal(spec_execute_next);
        }
        if self.running {
            let (opcode, instruction) = match self.decode_next_instruction() {
                Ok(p) => p,
                Err(e) => {
                    return Err(e);
                },
            };
            self.execute(opcode, instruction)
        } else {
            Ok((0, None))
        }
    }

    /// Executes instructions until the cycle total has passed the current
    /// total plus the given budget, and returns by how many cycles the last
    /// instruction overshot the budget. When the CPU halts before the budget
    /// is spent, no further instruction can consume cycles, and the call
    /// returns an overshoot of 0.
    pub fn execute_cycles(&mut self, cycles: usize) -> (r: Result<usize, CpuError>)
        requires
            old(self).wf(),
            old(self)@.total_cycles + cycles + 24 <= usize::MAX,
        ensures
            final(self).wf(),
            ({
                let (res, vr) = spec_run_to_target(old(self)@, old(self)@.total_cycles + cycles);
                &&& final(self)@ == vr
                &&& (res is Ok <==> r is Ok)
                &&& (res matches Err(e) ==> r == Err::<usize, CpuError>(e))
            }),
            r is Ok && final(self)@.total_cycles > old(self)@.total_cycles + cycles ==> r.unwrap()
                == final(self)@.total_cycles - (old(self)@.total_cycles + cycles) && r.unwrap()
                <= 24,
            r is Ok && final(self)@.total_cycles <= old(self)@.total_cycles + cycles ==> r.unwrap()
                == 0 && !final(self)@.running,
    {
        let target = self.total_cycles + cycles;
        while self.running && self.total_cycles <= target
            invariant
                self.wf(),
                target == old(self)@.total_cycles + cycles,
                target + 24 <= usize::MAX,
                self.total_cycles <= target + 24,
                spec_run_to_target(old(self)@, target as int) == spec_run_to_target(
                    self@,
                    target as int,
                ),
            decreases target + 25 - self.total_cycles,
        {
            match self.execute_next() {
                Ok(_) => {},
                Err(e) => {
                    return Err(e);
                },
            }
        }
        if self.total_cycles > target {
            Ok(self.total_cycles - target)
        } else {
            Ok(0)
        }
    }
}

/// Evaluating an operand never touches the cycle total.
pub proof fn lemma_eval_source_keeps_cycles(v: CpuView, source: InstructionSource)
    ensures
        spec_eval_source(v, source).1.total_cycles == v.total_cycles,
    decreases source,
{
    match source {
        InstructionSource::Sum(source1, source2) => {
            lemma_eval_source_keeps_cycles(v, *source1);
            let (r1, v1) = spec_eval_source(v, *source1);
            lemma_eval_source_keeps_cycles(v1, *source2);
        },
        _ => {},
    }
}

/// An instruction's effect never touches the cycle total itself, and the
/// extra cycles it reports are 0, or 6 for a taken conditional call or
/// return.
#[verifier::rlimit(100)]
#[verifier::spinoff_prover]
pub proof fn lemma_step_body_keeps_cycles(v: CpuView, instruction: Instruction)
    ensures
        spec_step_body(v, instruction).1.total_cycles == v.total_cycles,
        spec_step_body(v, instruction).0 matches Ok(p) ==> p.0 <= 6,
{
    match instruction {
        Instruction::Store(source) => {
            let (r1, v1) = spec_read_next(v, MemorySize::Integer16);
            lemma_eval_source_keeps_cycles(v1, source);
        },
        Instruction::Increment(source) => {
            lemma_eval_source_keeps_cycles(v, source);
        },
        Instruction::Decrement(source) => {
            lemma_eval_source_keeps_cycles(v, source);
        },
        Instruction::Move(dest, source) => {
            lemma_eval_source_keeps_cycles(v, source);
        },
        Instruction::DoubleByteAdd(rp) => {
            lemma_eval_source_keeps_cycles(v, rp);
        },
        Instruction::StackPush(source) => {
            lemma_eval_source_keeps_cycles(v, source);
        },
        Instruction::Reset(n_source) => {
            lemma_eval_source_keeps_cycles(v, n_source);
        },
        Instruction::Exchange(a, b) => {
            lemma_eval_source_keeps_cycles(v, a);
            let (r1, v1) = spec_eval_source(v, a);
            lemma_eval_source_keeps_cycles(v1, b);
        },
        Instruction::Add(a, b) => {
            lemma_eval_source_keeps_cycles(v, a);
            let (r1, v1) = spec_eval_source(v, a);
            lemma_eval_source_keeps_cycles(v1, b);
        },
        Instruction::AddWithCarry(a, b) => {
            lemma_eval_source_keeps_cycles(v, a);
            let (r1, v1) = spec_eval_source(v, a);
            lemma_eval_source_keeps_cycles(v1, b);
        },
        Instruction::Subtract(a, b) => {
            lemma_eval_source_keeps_cycles(v, a);
            let (r1, v1) = spec_eval_source(v, a);
            lemma_eval_source_keeps_cycles(v1, b);
        },
        Instruction::SubtractWithBorrow(a, b) => {
            lemma_eval_source_keeps_cycles(v, a);
            let (r1, v1) = spec_eval_source(v, a);
            lemma_eval_source_keeps_cycles(v1, b);
        },
        Instruction::BitwiseAnd(a, b) => {
            lemma_eval_source_keeps_cycles(v, a);
            let (r1, v1) = spec_eval_source(v, a);
            lemma_eval_source_keeps_cycles(v1, b);
        },
        Instruction::BitwiseXor(a, b) => {
            lemma_eval_source_keeps_cycles(v, a);
            let (r1, v1) = spec_eval_source(v, a);
            lemma_eval_source_keeps_cycles(v1, b);
        },
        Instruction::BitwiseOr(a, b) => {
            lemma_eval_source_keeps_cycles(v, a);
            let (r1, v1) = spec_eval_source(v, a);
            lemma_eval_source_keeps_cycles(v1, b);
        },
        Instruction::Comparison(a, b) => {
            lemma_eval_source_keeps_cycles(v, a);
            let (r1, v1) = spec_eval_source(v, a);
            lemma_eval_source_keeps_cycles(v1, b);
        },
        Instruction::RotateLeft(a) => {
            lemma_eval_source_keeps_cycles(v, a);
        },
        Instruction::RotateRight(a) => {
            lemma_eval_source_keeps_cycles(v, a);
        },
        Instruction::RotateLeftThroughCarry(a) => {
            lemma_eval_source_keeps_cycles(v, a);
        },
        Instruction::RotateRightThroughCarry(a) => {
            lemma_eval_source_keeps_cycles(v, a);
        },
        Instruction::DecimalAdjust(a) => {
            lemma_eval_source_keeps_cycles(v, a);
        },
        Instruction::Complement(a) => {
            lemma_eval_source_keeps_cycles(v, a);
        },
        _ => {},
    }
}

/// Law: one step never decreases the cycle total. A failing step and a
/// step on a halted CPU leave it unchanged; a successful step on a running
/// CPU adds the executed instruction's cycles: at least 4 and at most 24.
pub proof fn lemma_execute_next_cycle_growth(v: CpuView)
    ensures
        ({
            let (res, v1) = spec_execute_next(v);
            &&& v1.total_cycles >= v.total_cycles
            &&& res is Err ==> v1.total_cycles == v.total_cycles
            &&& res is Ok && v.running ==> v.total_cycles + 4 <= v1.total_cycles
                <= v.total_cycles + 24
            &&& res is Ok && !v.running ==> v1.total_cycles == v.total_cycles
        }),
{
    reveal(spec_execute_next);
    if v.running {
        match spec_decode_next(v) {
            (Ok((opcode, instruction)), v1) => {
                lemma_base_cycles_bounds(opcode);
                match spec_sync_psw(v1) {
                    (Ok(_), v2) => {
                        lemma_step_body_keeps_cycles(v2, instruction);
                    },
                    (Err(_), v2) => {},
                }
            },
            (Err(_), v1) => {},
        }
    }
}

/// Law: pushing any 16-bit register pair and popping it back succeeds
/// whenever the push does not cross the end of memory, restores the stack
/// pointer, and returns a value equal to the pushed pair's value.
pub proof fn lemma_push_pop_round_trip(v: CpuView, register: Register)
    requires
        v.mem.len() == MEMORY_SIZE,
        register.spec_width() == 2,
        v.regs.stack_pointer != 1,
    ensures
        ({
            let value = v.regs.spec_read_reg(register);
            let (r1, v1) = spec_push(v, value);
            &&& r1 is Ok
            &&& {
                let (r2, v2) = spec_pop(v1, MemorySize::Integer16);
                &&& r2 is Ok
                &&& v2.regs.stack_pointer == v.regs.stack_pointer
                &&& r2.unwrap().spec_u16() == value.spec_u16()
                &&& v2.mem == v1.mem
            }
        }),
{
    let value = v.regs.spec_read_reg(register);
    let new_sp = spec_wrap_sub16(v.regs.stack_pointer, 2);
    crate::memory::lemma_mem16_write_then_read(v.mem, new_sp, value.spec_u16());
}

/// Law: the processor status word round-trips through the stack for every
/// flags byte. Pushing PSW, popping the pair back into PSW, and refreshing
/// the status word restores the accumulator byte exactly, sets the five
/// flags to those encoded by the pushed flags byte, and restores the flags
/// byte itself with its fixed bits forced: bit 1 set, bits 3 and 5 cleared.
pub proof fn lemma_psw_push_pop_round_trip(v: CpuView)
    requires
        v.mem.len() == MEMORY_SIZE,
        v.regs.stack_pointer != 1,
    ensures
        ({
            let (r1, v1) = spec_push(v, v.regs.spec_read_reg(Register::PSW));
            &&& r1 is Ok
            &&& {
                let (r2, v2) = spec_pop(v1, MemorySize::Integer16);
                &&& r2 is Ok
                &&& {
                    let (r3, v3) = spec_write_source(
                        v2,
                        InstructionSource::Register(Register::PSW),
                        r2.unwrap(),
                    );
                    &&& r3 is Ok
                    &&& v3.acc == RegisterValue::Integer8(v.regs.reg_a)
                    &&& v3.flags == spec_flags_from_f(v.regs.reg_f)
                    &&& {
                        let (r4, v4) = spec_sync_psw(v3);
                        &&& r4 is Ok
                        &&& v4.regs.stack_pointer == v.regs.stack_pointer
                        &&& v4.regs.reg_a == v.regs.reg_a
                        &&& v4.regs.reg_f == ((v.regs.reg_f & 0xD7) | 0x02)
                        &&& v4.flags == spec_flags_from_f(v.regs.reg_f)
                    }
                }
            }
        }),
{
    lemma_push_pop_round_trip(v, Register::PSW);
    let a = v.regs.reg_a;
    let f = v.regs.reg_f;
    utils::lemma_combine_separate(a, f, 0);
    crate::alu::lemma_flags_byte_round_trip(f);
}

} // verus!
