//! The arithmetic/logic unit: the accumulator, the five flags, and the
//! exact flag semantics of every 8-bit operation, including the auxiliary
//! carry and the decimal adjustment.

use crate::instruction::InstructionCondition;
use crate::registers::RegisterValue;
use crate::CpuError;
use vstd::prelude::*;

verus! {

/// The five ALU flags.
#[derive(Clone, Copy, Debug, PartialEq, Eq, Structural)]
pub struct AluFlags {
    pub zero: bool,
    pub sign: bool,
    /// Set on even parity of the result.
    pub parity: bool,
    pub carry: bool,
    /// Carry out of bit 3, also called half carry.
    pub aux_carry: bool,
}

/// The number of set bits in a byte.
pub open spec fn spec_ones(x: u8) -> int {
    ((x >> 0) & 1) + ((x >> 1) & 1) + ((x >> 2) & 1) + ((x >> 3) & 1) + ((x >> 4) & 1) + ((x >> 5)
        & 1) + ((x >> 6) & 1) + ((x >> 7) & 1)
}

/// Whether a byte has an even number of set bits.
pub open spec fn spec_parity_even(x: u8) -> bool {
    spec_ones(x) % 2 == 0
}

/// 1 for true and 0 for false, as the carry participates in arithmetic.
pub open spec fn spec_carry_bit(c: bool) -> int {
    if c {
        1
    } else {
        0
    }
}

/// The result byte of an addition with optional carry in.
pub open spec fn spec_add_result(x: u8, y: u8, carry_in: bool) -> u8 {
    if x + y + spec_carry_bit(carry_in) > 255 {
        (x + y + spec_carry_bit(carry_in) - 256) as u8
    } else {
        (x + y + spec_carry_bit(carry_in)) as u8
    }
}

/// Whether an addition with optional carry in overflows 8 bits.
pub open spec fn spec_add_carry(x: u8, y: u8, carry_in: bool) -> bool {
    x + y + spec_carry_bit(carry_in) > 255
}

/// Whether an addition with optional carry in carries out of bit 3.
pub open spec fn spec_add_aux(x: u8, y: u8, carry_in: bool) -> bool {
    (x & 0xF) + (y & 0xF) + spec_carry_bit(carry_in) > 15
}

/// The zero, sign and parity of a result byte, with the given carry and
/// auxiliary carry.
pub open spec fn spec_flags_of(result: u8, carry: bool, aux_carry: bool) -> AluFlags {
    AluFlags {
        zero: result == 0,
        sign: (result & 0x80) != 0,
        parity: spec_parity_even(result),
        carry: carry,
        aux_carry: aux_carry,
    }
}

/// All five flags after an addition with optional carry in.
pub open spec fn spec_add_flags(x: u8, y: u8, carry_in: bool) -> AluFlags {
    spec_flags_of(
        spec_add_result(x, y, carry_in),
        spec_add_carry(x, y, carry_in),
        spec_add_aux(x, y, carry_in),
    )
}

/// The result byte of a subtraction with optional borrow in.
pub open spec fn spec_sub_result(x: u8, y: u8, borrow_in: bool) -> u8 {
    if x - y - spec_carry_bit(borrow_in) < 0 {
        (x - y - spec_carry_bit(borrow_in) + 256) as u8
    } else {
        (x - y - spec_carry_bit(borrow_in)) as u8
    }
}

/// Whether a subtraction with optional borrow in borrows out of 8 bits.
pub open spec fn spec_sub_carry(x: u8, y: u8, borrow_in: bool) -> bool {
    x < y + spec_carry_bit(borrow_in)
}

/// Whether a subtraction with optional borrow in borrows into bit 3.
pub open spec fn spec_sub_aux(x: u8, y: u8, borrow_in: bool) -> bool {
    (x & 0xF) < (y & 0xF) + spec_carry_bit(borrow_in)
}

/// All five flags after a subtraction with optional borrow in.
pub open spec fn spec_sub_flags(x: u8, y: u8, borrow_in: bool) -> AluFlags {
    spec_flags_of(
        spec_sub_result(x, y, borrow_in),
        spec_sub_carry(x, y, borrow_in),
        spec_sub_aux(x, y, borrow_in),
    )
}

/// A byte rotated left by one, the old most significant bit becoming the
/// least significant.
pub open spec fn spec_rlc(x: u8) -> u8 {
    (x << 1) | (x >> 7)
}

/// A byte rotated right by one, the old least significant bit becoming the
/// most significant.
pub open spec fn spec_rrc(x: u8) -> u8 {
    (x >> 1) | (x << 7)
}

/// A byte rotated left through the carry: the old carry becomes the least
/// significant bit.
pub open spec fn spec_ral(x: u8, carry: bool) -> u8 {
    (x << 1) | (if carry {
        1u8
    } else {
        0u8
    })
}

/// A byte rotated right through the carry: the old carry becomes the most
/// significant bit.
pub open spec fn spec_rar(x: u8, carry: bool) -> u8 {
    (x >> 1) | (if carry {
        0x80u8
    } else {
        0u8
    })
}

/// Whether the decimal adjustment's first step applies: a low nibble above
/// 9, or an auxiliary carry pending.
pub open spec fn spec_daa_low(x: u8, aux_carry: bool) -> bool {
    (x & 0xF) > 9 || aux_carry
}

/// The byte after the decimal adjustment's first step.
pub open spec fn spec_daa_mid(x: u8, aux_carry: bool) -> u8 {
    if spec_daa_low(x, aux_carry) {
        spec_add_result(x, 6, false)
    } else {
        x
    }
}

/// The carry after the decimal adjustment's first step.
pub open spec fn spec_daa_mid_carry(x: u8, carry: bool, aux_carry: bool) -> bool {
    if spec_daa_low(x, aux_carry) {
        spec_add_carry(x, 6, false)
    } else {
        carry
    }
}

/// The auxiliary carry after a decimal adjustment: the carry out of bit 3 of
/// the first step's addition, or the incoming flag when no step applies.
pub open spec fn spec_daa_aux(x: u8, aux_carry: bool) -> bool {
    if spec_daa_low(x, aux_carry) {
        spec_add_aux(x, 6, false)
    } else {
        aux_carry
    }
}

/// Whether the decimal adjustment's second step applies: a high nibble now
/// above 9, or a carry pending.
pub open spec fn spec_daa_high(x: u8, carry: bool, aux_carry: bool) -> bool {
    (spec_daa_mid(x, aux_carry) >> 4) > 9 || spec_daa_mid_carry(x, carry, aux_carry)
}

/// The result byte of a decimal adjustment.
pub open spec fn spec_daa_result(x: u8, carry: bool, aux_carry: bool) -> u8 {
    if spec_daa_high(x, carry, aux_carry) {
        spec_add_result(spec_daa_mid(x, aux_carry), 0x60, false)
    } else {
        spec_daa_mid(x, aux_carry)
    }
}

/// The carry after a decimal adjustment. The carry is sticky: once set
/// before the second step it stays set even when the second step's own
/// addition would not set it.
pub open spec fn spec_daa_carry(x: u8, carry: bool, aux_carry: bool) -> bool {
    if spec_daa_high(x, carry, aux_carry) {
        spec_daa_mid_carry(x, carry, aux_carry) || spec_add_carry(
            spec_daa_mid(x, aux_carry),
            0x60,
            false,
        )
    } else {
        spec_daa_mid_carry(x, carry, aux_carry)
    }
}

/// All five flags after a decimal adjustment.
pub open spec fn spec_daa_flags(x: u8, flags: AluFlags) -> AluFlags {
    spec_flags_of(
        spec_daa_result(x, flags.carry, flags.aux_carry),
        spec_daa_carry(x, flags.carry, flags.aux_carry),
        spec_daa_aux(x, flags.aux_carry),
    )
}

/// A 16-bit value incremented or decremented by one, wrapping around.
pub open spec fn spec_step16(x: u16, increment: bool) -> u16 {
    if increment {
        if x == 0xFFFF {
            0u16
        } else {
            (x + 1) as u16
        }
    } else {
        if x == 0 {
            0xFFFFu16
        } else {
            (x - 1) as u16
        }
    }
}

/// The flags byte `S Z 0 AC 0 P 1 C` assembled from the five flags, with the
/// fixed bits 1 in position 1 and 0 in positions 3 and 5.
pub open spec fn spec_flags_to_f(flags: AluFlags) -> u8 {
    (spec_carry_bit(flags.sign) * 128 + spec_carry_bit(flags.zero) * 64 + spec_carry_bit(
        flags.aux_carry,
    ) * 16 + spec_carry_bit(flags.parity) * 4 + 2 + spec_carry_bit(flags.carry)) as u8
}

/// The five flags read out of a flags byte laid out as `S Z 0 AC 0 P 1 C`.
pub open spec fn spec_flags_from_f(f: u8) -> AluFlags {
    AluFlags {
        zero: (f & 0x40) != 0,
        sign: (f & 0x80) != 0,
        parity: (f & 0x04) != 0,
        carry: (f & 0x01) != 0,
        aux_carry: (f & 0x10) != 0,
    }
}

impl AluFlags {
    /// Creates flags with every flag cleared.
    pub fn new() -> (flags: Self)
        ensures
            flags == (AluFlags {
                zero: false,
                sign: false,
                parity: false,
                carry: false,
                aux_carry: false,
            }),
    {
        Self { zero: false, sign: false, parity: false, carry: false, aux_carry: false }
    }

    /// Creates flags from the given flag values.
    pub fn from_bools(zero: bool, sign: bool, parity: bool, carry: bool, aux_carry: bool) -> (flags:
        Self)
        ensures
            flags == (AluFlags { zero, sign, parity, carry, aux_carry }),
    {
        Self { zero, sign, parity, carry, aux_carry }
    }

    /// Creates flags from a flags byte laid out as `S Z 0 AC 0 P 1 C`.
    pub fn from_f(f: u8) -> (flags: Self)
        ensures
            flags == spec_flags_from_f(f),
    {
        Self {
            zero: (f & 0x40) != 0,
            sign: (f & 0x80) != 0,
            parity: (f & 0x04) != 0,
            carry: (f & 0x01) != 0,
            aux_carry: (f & 0x10) != 0,
        }
    }

    /// What [`AluFlags::evaluate_condition`] returns for each condition.
    pub open spec fn spec_condition(self, condition: InstructionCondition) -> bool {
        match condition {
            InstructionCondition::NotZero => !self.zero,
            InstructionCondition::Zero => self.zero,
            InstructionCondition::NoCarry => !self.carry,
            InstructionCondition::Carry => self.carry,
            InstructionCondition::ParityOdd => !self.parity,
            InstructionCondition::ParityEven => self.parity,
            InstructionCondition::Plus => !self.sign,
            InstructionCondition::Minus => self.sign,
        }
    }

    /// Evaluates a condition over these flags.
    pub fn evaluate_condition(&self, condition: InstructionCondition) -> (r: bool)
        ensures
            r == self.spec_condition(condition),
    {
        match condition {
            InstructionCondition::NotZero => !self.zero,
            InstructionCondition::Zero => self.zero,
            InstructionCondition::NoCarry => !self.carry,
            InstructionCondition::Carry => self.carry,
            InstructionCondition::ParityOdd => !self.parity,
            InstructionCondition::ParityEven => self.parity,
            InstructionCondition::Plus => !self.sign,
            InstructionCondition::Minus => self.sign,
        }
    }
}

/// An operation for the ALU to perform, with the values it works on.
#[derive(Clone, Copy, Debug)]
pub enum AluOperation {
    Add(RegisterValue, RegisterValue),
    AddCarry(RegisterValue, RegisterValue),
    Sub(RegisterValue, RegisterValue),
    SubBorrow(RegisterValue, RegisterValue),
    Increment(RegisterValue),
    Decrement(RegisterValue),
    DecimalAdjust(RegisterValue),
    BitwiseAnd(RegisterValue, RegisterValue),
    BitwiseXor(RegisterValue, RegisterValue),
    BitwiseOr(RegisterValue, RegisterValue),
    Comparison(RegisterValue, RegisterValue),
    RotateLeft(RegisterValue),
    RotateRight(RegisterValue),
    RotateLeftThroughCarry(RegisterValue),
    RotateRightThroughCarry(RegisterValue),
    Complement(RegisterValue),
    SetCarry,
    ComplementCarry,
}

/// What [`Alu::evaluate`] does: the accumulator and flags after the
/// operation, and the returned result. Operations on values of the wrong
/// width fail with a conversion error and change nothing.
pub open spec fn spec_alu_eval(acc: RegisterValue, flags: AluFlags, operation: AluOperation) -> (
    RegisterValue,
    AluFlags,
    Result<Option<RegisterValue>, CpuError>,
) {
    match operation {
        AluOperation::Add(a, b) => spec_binary_eval(acc, flags, a, b, operation),
        AluOperation::AddCarry(a, b) => spec_binary_eval(acc, flags, a, b, operation),
        AluOperation::Sub(a, b) => spec_binary_eval(acc, flags, a, b, operation),
        AluOperation::SubBorrow(a, b) => spec_binary_eval(acc, flags, a, b, operation),
        AluOperation::BitwiseAnd(a, b) => spec_binary_eval(acc, flags, a, b, operation),
        AluOperation::BitwiseXor(a, b) => spec_binary_eval(acc, flags, a, b, operation),
        AluOperation::BitwiseOr(a, b) => spec_binary_eval(acc, flags, a, b, operation),
        AluOperation::Comparison(a, b) => spec_binary_eval(acc, flags, a, b, operation),
        AluOperation::Increment(a) => match a {
            RegisterValue::Integer8(x) => {
                let r = spec_add_result(x, 1, false);
                (
                    RegisterValue::Integer8(r),
                    AluFlags { carry: flags.carry, ..spec_add_flags(x, 1, false) },
                    Ok(Some(RegisterValue::Integer8(r))),
                )
            },
            _ => {
                let r = spec_step16(a.spec_u16(), true);
                (RegisterValue::Integer16(r), flags, Ok(Some(RegisterValue::Integer16(r))))
            },
        },
        AluOperation::Decrement(a) => match a {
            RegisterValue::Integer8(x) => {
                let r = spec_sub_result(x, 1, false);
                (
                    RegisterValue::Integer8(r),
                    AluFlags { carry: flags.carry, ..spec_sub_flags(x, 1, false) },
                    Ok(Some(RegisterValue::Integer8(r))),
                )
            },
            _ => {
                let r = spec_step16(a.spec_u16(), false);
                (RegisterValue::Integer16(r), flags, Ok(Some(RegisterValue::Integer16(r))))
            },
        },
        AluOperation::DecimalAdjust(a) => match a {
            RegisterValue::Integer8(x) => {
                let r = spec_daa_result(x, flags.carry, flags.aux_carry);
                (
                    RegisterValue::Integer8(r),
                    spec_daa_flags(x, flags),
                    Ok(Some(RegisterValue::Integer8(r))),
                )
            },
            _ => (acc, flags, Err(CpuError::Conversion)),
        },
        AluOperation::RotateLeft(a) => match a {
            RegisterValue::Integer8(x) => (
                RegisterValue::Integer8(spec_rlc(x)),
                AluFlags { carry: (x & 0x80) != 0, ..flags },
                Ok(Some(RegisterValue::Integer8(spec_rlc(x)))),
            ),
            _ => (acc, flags, Err(CpuError::Conversion)),
        },
        AluOperation::RotateRight(a) => match a {
            RegisterValue::Integer8(x) => (
                RegisterValue::Integer8(spec_rrc(x)),
                AluFlags { carry: (x & 1) != 0, ..flags },
                Ok(Some(RegisterValue::Integer8(spec_rrc(x)))),
            ),
            _ => (acc, flags, Err(CpuError::Conversion)),
        },
        AluOperation::RotateLeftThroughCarry(a) => match a {
            RegisterValue::Integer8(x) => (
                RegisterValue::Integer8(spec_ral(x, flags.carry)),
                AluFlags { carry: (x & 0x80) != 0, ..flags },
                Ok(Some(RegisterValue::Integer8(spec_ral(x, flags.carry)))),
            ),
            _ => (acc, flags, Err(CpuError::Conversion)),
        },
        AluOperation::RotateRightThroughCarry(a) => match a {
            RegisterValue::Integer8(x) => (
                RegisterValue::Integer8(spec_rar(x, flags.carry)),
                AluFlags { carry: (x & 1) != 0, ..flags },
                Ok(Some(RegisterValue::Integer8(spec_rar(x, flags.carry)))),
            ),
            _ => (acc, flags, Err(CpuError::Conversion)),
        },
        AluOperation::Complement(a) => match a {
            RegisterValue::Integer8(x) => (
                RegisterValue::Integer8(!x),
                flags,
                Ok(Some(RegisterValue::Integer8(!x))),
            ),
            _ => (acc, flags, Err(CpuError::Conversion)),
        },
        AluOperation::SetCarry => (acc, AluFlags { carry: true, ..flags }, Ok(None)),
        AluOperation::ComplementCarry => (acc, AluFlags { carry: !flags.carry, ..flags }, Ok(None)),
    }
}

/// The two-operand arm of [`spec_alu_eval`]: both operands must be 8-bit.
pub open spec fn spec_binary_eval(
    acc: RegisterValue,
    flags: AluFlags,
    a: RegisterValue,
    b: RegisterValue,
    operation: AluOperation,
) -> (RegisterValue, AluFlags, Result<Option<RegisterValue>, CpuError>) {
    match (a, b) {
        (RegisterValue::Integer8(x), RegisterValue::Integer8(y)) => match operation {
            AluOperation::Add(_, _) => {
                let r = spec_add_result(x, y, false);
                (
                    RegisterValue::Integer8(r),
                    spec_add_flags(x, y, false),
                    Ok(Some(RegisterValue::Integer8(r))),
                )
            },
            AluOperation::AddCarry(_, _) => {
                let r = spec_add_result(x, y, flags.carry);
                (
                    RegisterValue::Integer8(r),
                    spec_add_flags(x, y, flags.carry),
                    Ok(Some(RegisterValue::Integer8(r))),
                )
            },
            AluOperation::Sub(_, _) => {
                let r = spec_sub_result(x, y, false);
                (
                    RegisterValue::Integer8(r),
                    spec_sub_flags(x, y, false),
                    Ok(Some(RegisterValue::Integer8(r))),
                )
            },
            AluOperation::SubBorrow(_, _) => {
                let r = spec_sub_result(x, y, flags.carry);
                (
                    RegisterValue::Integer8(r),
                    spec_sub_flags(x, y, flags.carry),
                    Ok(Some(RegisterValue::Integer8(r))),
                )
            },
            AluOperation::BitwiseAnd(_, _) => {
                let r = x & y;
                (
                    RegisterValue::Integer8(r),
                    spec_flags_of(r, false, false),
                    Ok(Some(RegisterValue::Integer8(r))),
                )
            },
            AluOperation::BitwiseXor(_, _) => {
                let r = x ^ y;
                (
                    RegisterValue::Integer8(r),
                    spec_flags_of(r, false, false),
                    Ok(Some(RegisterValue::Integer8(r))),
                )
            },
            AluOperation::BitwiseOr(_, _) => {
                let r = x | y;
                (
                    RegisterValue::Integer8(r),
                    spec_flags_of(r, false, false),
                    Ok(Some(RegisterValue::Integer8(r))),
                )
            },
            _ => (acc, spec_sub_flags(x, y, false), Ok(None)),
        },
        _ => (acc, flags, Err(CpuError::Conversion)),
    }
}

/// The arithmetic/logic unit: the accumulator and the flags, with the
/// operations over them.
pub struct Alu {
    /// The accumulator; normally 8-bit, though a 16-bit increment or
    /// decrement leaves its 16-bit result here as well.
    pub accumulator: RegisterValue,
    pub flags: AluFlags,
}

impl Alu {
    /// Creates a new ALU with a zero accumulator and cleared flags.
    pub fn new() -> (alu: Self)
        ensures
            alu.accumulator == RegisterValue::Integer8(0u8),
            alu.flags == (AluFlags {
                zero: false,
                sign: false,
                parity: false,
                carry: false,
                aux_carry: false,
            }),
    {
        Self { accumulator: RegisterValue::Integer8(0), flags: AluFlags::new() }
    }

    /// Returns the value of the accumulator.
    pub fn accumulator(&self) -> (value: RegisterValue)
        ensures
            value == self.accumulator,
    {
        self.accumulator
    }

    /// Writes an 8-bit value to the accumulator; a 16-bit value is a width
    /// error and changes nothing.
    pub fn write_accumulator(&mut self, value: RegisterValue) -> (r: Result<(), CpuError>)
        ensures
            value.spec_width() == 1 ==> r is Ok && final(self).accumulator == value,
            value.spec_width() == 1 ==> final(self).flags == old(self).flags,
            value.spec_width() != 1 ==> r == Err::<(), CpuError>(CpuError::Width) && *final(self)
                == *old(self),
    {
        if value.n_bytes() != 1 {
            return Err(CpuError::Width);
        }
        self.accumulator = value;
        Ok(())
    }

    /// Returns the flags of the ALU.
    pub fn flags(&self) -> (flags: AluFlags)
        ensures
            flags == self.flags,
    {
        self.flags
    }

    /// Overwrites the flags of the ALU.
    pub fn write_flags(&mut self, flags: AluFlags)
        ensures
            final(self).flags == flags,
            final(self).accumulator == old(self).accumulator,
    {
        self.flags = flags;
    }

    /// Evaluates an operation: updates the flags, stores any returned value
    /// in the accumulator, and returns it. [`spec_alu_eval`] gives the exact
    /// result, flags and errors for every operation.
    #[verifier::rlimit(100)]
    pub fn evaluate(&mut self, operation: AluOperation) -> (r: Result<
        Option<RegisterValue>,
        CpuError,
    >)
        ensures
            ({
                let (acc, flags, result) = spec_alu_eval(
                    old(self).accumulator,
                    old(self).flags,
                    operation,
                );
                &&& final(self).accumulator == acc
                &&& final(self).flags == flags
                &&& r == result
            }),
    {
        match operation {
            AluOperation::Add(a, b) | AluOperation::AddCarry(a, b) | AluOperation::Sub(a, b)
                | AluOperation::SubBorrow(a, b) | AluOperation::BitwiseAnd(a, b)
                | AluOperation::BitwiseXor(a, b) | AluOperation::BitwiseOr(a, b)
                | AluOperation::Comparison(a, b) => self.evaluate_binary(a, b, operation),
            AluOperation::Increment(a) => match a {
                RegisterValue::Integer8(x) => {
                    let r = self.inc_dec(x, true);
                    self.accumulator = RegisterValue::Integer8(r);
                    Ok(Some(RegisterValue::Integer8(r)))
                },
                _ => {
                    let r = self.inc_dec16(a.to_u16(), true);
                    self.accumulator = RegisterValue::Integer16(r);
                    Ok(Some(RegisterValue::Integer16(r)))
                },
            },
            AluOperation::Decrement(a) => match a {
                RegisterValue::Integer8(x) => {
                    let r = self.inc_dec(x, false);
                    self.accumulator = RegisterValue::Integer8(r);
                    Ok(Some(RegisterValue::Integer8(r)))
                },
                _ => {
                    let r = self.inc_dec16(a.to_u16(), false);
                    self.accumulator = RegisterValue::Integer16(r);
                    Ok(Some(RegisterValue::Integer16(r)))
                },
            },
            AluOperation::DecimalAdjust(a) => match a.try_to_u8() {
                Ok(x) => {
                    let r = self.decimal_adjust(x);
                    self.accumulator = RegisterValue::Integer8(r);
                    Ok(Some(RegisterValue::Integer8(r)))
                },
                Err(e) => Err(e),
            },
            AluOperation::RotateLeft(a) => match a.try_to_u8() {
                Ok(x) => {
                    let r = self.rotate(x, false, false);
                    self.accumulator = RegisterValue::Integer8(r);
                    Ok(Some(RegisterValue::Integer8(r)))
                },
                Err(e) => Err(e),
            },
            AluOperation::RotateRight(a) => match a.try_to_u8() {
                Ok(x) => {
                    let r = self.rotate(x, true, false);
                    self.accumulator = RegisterValue::Integer8(r);
                    Ok(Some(RegisterValue::Integer8(r)))
                },
                Err(e) => Err(e),
            },
            AluOperation::RotateLeftThroughCarry(a) => match a.try_to_u8() {
                Ok(x) => {
                    let r = self.rotate(x, false, true);
                    self.accumulator = RegisterValue::Integer8(r);
                    Ok(Some(RegisterValue::Integer8(r)))
                },
                Err(e) => Err(e),
            },
            AluOperation::RotateRightThroughCarry(a) => match a.try_to_u8() {
                Ok(x) => {
                    let r = self.rotate(x, true, true);
                    self.accumulator = RegisterValue::Integer8(r);
                    Ok(Some(RegisterValue::Integer8(r)))
                },
                Err(e) => Err(e),
            },
            AluOperation::Complement(a) => match a.try_to_u8() {
                Ok(x) => {
                    let r = self.complement(x);
                    self.accumulator = RegisterValue::Integer8(r);
                    Ok(Some(RegisterValue::Integer8(r)))
                },
                Err(e) => Err(e),
            },
            AluOperation::SetCarry => {
                self.flags.carry = true;
                Ok(None)
            },
            AluOperation::ComplementCarry => {
                self.flags.carry = !self.flags.carry;
                Ok(None)
            },
        }
    }

    /// The two-operand operations: both operands converted to bytes, the
    /// operation applied, and the result stored in the accumulator; a
    /// comparison keeps only the flags.
    fn evaluate_binary(
        &mut self,
        a: RegisterValue,
        b: RegisterValue,
        operation: AluOperation,
    ) -> (r: Result<Option<RegisterValue>, CpuError>)
        ensures
            ({
                let (acc, flags, result) = spec_binary_eval(
                    old(self).accumulator,
                    old(self).flags,
                    a,
                    b,
                    operation,
                );
                &&& final(self).accumulator == acc
                &&& final(self).flags == flags
                &&& r == result
            }),
    {
        let x = match a.try_to_u8() {
            Ok(v) => v,
            Err(e) => {
                return Err(e);
            },
        };
        let y = match b.try_to_u8() {
            Ok(v) => v,
            Err(e) => {
                return Err(e);
            },
        };
        match operation {
            AluOperation::Add(_, _) => {
                let r = self.add(x, y, false);
                self.accumulator = RegisterValue::Integer8(r);
                Ok(Some(RegisterValue::Integer8(r)))
            },
            AluOperation::AddCarry(_, _) => {
                let r = self.add(x, y, true);
                self.accumulator = RegisterValue::Integer8(r);
                Ok(Some(RegisterValue::Integer8(r)))
            },
            AluOperation::Sub(_, _) => {
                let r = self.sub(x, y, false);
                self.accumulator = RegisterValue::Integer8(r);
                Ok(Some(RegisterValue::Integer8(r)))
            },
            AluOperation::SubBorrow(_, _) => {
                let r = self.sub(x, y, true);
                self.accumulator = RegisterValue::Integer8(r);
                Ok(Some(RegisterValue::Integer8(r)))
            },
            AluOperation::BitwiseAnd(_, _) => {
                let r = self.bitwise_and(x, y);
                self.accumulator = RegisterValue::Integer8(r);
                Ok(Some(RegisterValue::Integer8(r)))
            },
            AluOperation::BitwiseXor(_, _) => {
                let r = self.bitwise_xor(x, y);
                self.accumulator = RegisterValue::Integer8(r);
                Ok(Some(RegisterValue::Integer8(r)))
            },
            AluOperation::BitwiseOr(_, _) => {
                let r = self.bitwise_or(x, y);
                self.accumulator = RegisterValue::Integer8(r);
                Ok(Some(RegisterValue::Integer8(r)))
            },
            _ => {
                // A comparison discards the result and keeps only the flags.
                let _ = self.sub(x, y, false);
                Ok(None)
            },
        }
    }

    /// Performs an addition with optional carry in and sets all five flags.
    fn add(&mut self, x: u8, y: u8, use_carry: bool) -> (r: u8)
        ensures
            ({
                let cin = use_carry && old(self).flags.carry;
                &&& r == spec_add_result(x, y, cin)
                &&& final(self).flags == spec_add_flags(x, y, cin)
                &&& final(self).accumulator == old(self).accumulator
            }),
    {
        let cin: u16 = if use_carry && self.flags.carry {
            1
        } else {
            0
        };
        let t: u16 = x as u16 + y as u16 + cin;
        let result: u8 = if t > 255 {
            (t - 256) as u8
        } else {
            t as u8
        };
        proof {
            assert(x & 0xF <= 15 && y & 0xF <= 15) by (bit_vector);
        }
        let low: u16 = (x & 0xF) as u16 + (y & 0xF) as u16 + cin;
        self.flags.zero = result == 0;
        self.flags.sign = (result & 0x80) != 0;
        self.flags.parity = parity_even(result);
        self.flags.carry = t > 255;
        self.flags.aux_carry = low > 15;
        result
    }

    /// Performs a subtraction with optional borrow in and sets all five
    /// flags.
    fn sub(&mut self, x: u8, y: u8, use_carry: bool) -> (r: u8)
        ensures
            ({
                let bin = use_carry && old(self).flags.carry;
                &&& r == spec_sub_result(x, y, bin)
                &&& final(self).flags == spec_sub_flags(x, y, bin)
                &&& final(self).accumulator == old(self).accumulator
            }),
    {
        let bin: u16 = if use_carry && self.flags.carry {
            1
        } else {
            0
        };
        let yc: u16 = y as u16 + bin;
        let result: u8 = if (x as u16) < yc {
            (x as u16 + 256 - yc) as u8
        } else {
            (x as u16 - yc) as u8
        };
        proof {
            assert(x & 0xF <= 15 && y & 0xF <= 15) by (bit_vector);
        }
        let low_borrow = ((x & 0xF) as u16) < ((y & 0xF) as u16) + bin;
        self.flags.zero = result == 0;
        self.flags.sign = (result & 0x80) != 0;
        self.flags.parity = parity_even(result);
        self.flags.carry = (x as u16) < yc;
        self.flags.aux_carry = low_borrow;
        result
    }

    /// Performs an 8-bit increment or decrement; the carry flag is saved and
    /// restored, as these operations do not modify it.
    fn inc_dec(&mut self, x: u8, increment: bool) -> (r: u8)
        ensures
            increment ==> r == spec_add_result(x, 1, false) && final(self).flags == (AluFlags {
                carry: old(self).flags.carry,
                ..spec_add_flags(x, 1, false)
            }),
            !increment ==> r == spec_sub_result(x, 1, false) && final(self).flags == (AluFlags {
                carry: old(self).flags.carry,
                ..spec_sub_flags(x, 1, false)
            }),
            final(self).accumulator == old(self).accumulator,
    {
        let carry_flag_copy = self.flags.carry;
        let result = if increment {
            self.add(x, 1, false)
        } else {
            self.sub(x, 1, false)
        };
        self.flags.carry = carry_flag_copy;
        result
    }

    /// Performs a 16-bit increment or decrement; no flags are updated.
    fn inc_dec16(&mut self, x: u16, increment: bool) -> (r: u16)
        ensures
            r == spec_step16(x, increment),
            *final(self) == *old(self),
    {
        if increment {
            x.wrapping_add(1)
        } else {
            x.wrapping_sub(1)
        }
    }

    /// Adjusts the accumulator value to two binary-coded-decimal digits, as
    /// [`spec_daa_result`] and [`spec_daa_flags`] describe.
    fn decimal_adjust(&mut self, x: u8) -> (r: u8)
        ensures
            r == spec_daa_result(x, old(self).flags.carry, old(self).flags.aux_carry),
            final(self).flags == spec_daa_flags(x, old(self).flags),
            final(self).accumulator == old(self).accumulator,
    {
        proof {
            assert(x & 0xF <= 15 && (x >> 4) <= 15 && (6u8 & 0xF) == 6) by (bit_vector);
        }
        let mut x1 = x;
        let mut c1 = self.flags.carry;
        let mut ac1 = self.flags.aux_carry;
        if (x & 0xF) > 9 || self.flags.aux_carry {
            let t: u16 = x as u16 + 6;
            x1 = if t > 255 {
                (t - 256) as u8
            } else {
                t as u8
            };
            c1 = t > 255;
            ac1 = (x & 0xF) + 6 > 15;
        }
        let mut x2 = x1;
        let mut c2 = c1;
        if (x1 >> 4) > 9 || c1 {
            let t: u16 = x1 as u16 + 0x60;
            x2 = if t > 255 {
                (t - 256) as u8
            } else {
                t as u8
            };
            c2 = c1 || t > 255;
        }
        self.flags.zero = x2 == 0;
        self.flags.sign = (x2 & 0x80) != 0;
        self.flags.parity = parity_even(x2);
        self.flags.carry = c2;
        self.flags.aux_carry = ac1;
        x2
    }

    /// Performs a bitwise AND and sets the flags; carry and auxiliary carry
    /// are forced to 0.
    fn bitwise_and(&mut self, x: u8, y: u8) -> (r: u8)
        ensures
            r == (x & y),
            final(self).flags == spec_flags_of(x & y, false, false),
            final(self).accumulator == old(self).accumulator,
    {
        let result = x & y;
        self.flags.zero = result == 0;
        self.flags.sign = (result & 0x80) != 0;
        self.flags.parity = parity_even(result);
        self.flags.carry = false;
        self.flags.aux_carry = false;
        result
    }

    /// Performs a bitwise XOR and sets the flags; carry and auxiliary carry
    /// are forced to 0.
    fn bitwise_xor(&mut self, x: u8, y: u8) -> (r: u8)
        ensures
            r == (x ^ y),
            final(self).flags == spec_flags_of(x ^ y, false, false),
            final(self).accumulator == old(self).accumulator,
    {
        let result = x ^ y;
        self.flags.zero = result == 0;
        self.flags.sign = (result & 0x80) != 0;
        self.flags.parity = parity_even(result);
        self.flags.carry = false;
        self.flags.aux_carry = false;
        result
    }

    /// Performs a bitwise OR and sets the flags; carry and auxiliary carry
    /// are forced to 0.
    fn bitwise_or(&mut self, x: u8, y: u8) -> (r: u8)
        ensures
            r == (x | y),
            final(self).flags == spec_flags_of(x | y, false, false),
            final(self).accumulator == old(self).accumulator,
    {
        let result = x | y;
        self.flags.zero = result == 0;
        self.flags.sign = (result & 0x80) != 0;
        self.flags.parity = parity_even(result);
        self.flags.carry = false;
        self.flags.aux_carry = false;
        result
    }

    /// Performs a one-bit rotation in either direction, plainly or through
    /// the carry; only the carry flag is modified.
    fn rotate(&mut self, x: u8, right: bool, through_carry: bool) -> (r: u8)
        ensures
            !right && !through_carry ==> r == spec_rlc(x),
            !right && through_carry ==> r == spec_ral(x, old(self).flags.carry),
            right && !through_carry ==> r == spec_rrc(x),
            right && through_carry ==> r == spec_rar(x, old(self).flags.carry),
            final(self).flags == (AluFlags {
                carry: if right {
                    (x & 1) != 0
                } else {
                    (x & 0x80) != 0
                },
                ..old(self).flags
            }),
            final(self).accumulator == old(self).accumulator,
    {
        let old_carry = self.flags.carry;
        let result = if right {
            self.flags.carry = (x & 1) != 0;
            if through_carry {
                (x >> 1) | (if old_carry {
                    0x80
                } else {
                    0
                })
            } else {
                (x >> 1) | (x << 7)
            }
        } else {
            self.flags.carry = (x & 0x80) != 0;
            if through_carry {
                (x << 1) | (if old_carry {
                    1
                } else {
                    0
                })
            } else {
                (x << 1) | (x >> 7)
            }
        };
        result
    }

    /// Returns the bitwise complement; no flags are updated.
    fn complement(&mut self, x: u8) -> (r: u8)
        ensures
            r == !x,
            *final(self) == *old(self),
    {
        !x
    }
}

/// Law: for every pair of bytes, ADD yields `(a + b) mod 256`; the carry is
/// set exactly when `a + b` reaches 256; the auxiliary carry exactly when
/// the low nibbles sum to 16 or more; zero exactly on a zero result; the
/// sign is bit 7 of the result; and the parity flag reflects an even number
/// of set bits.
pub proof fn lemma_add_law(a: u8, b: u8)
    ensures
        spec_add_result(a, b, false) == (a + b) % 256,
        spec_add_flags(a, b, false).carry == (a + b >= 256),
        spec_add_flags(a, b, false).aux_carry == ((a & 0xF) + (b & 0xF) >= 16),
        spec_add_flags(a, b, false).zero == (spec_add_result(a, b, false) == 0),
        spec_add_flags(a, b, false).sign == ((spec_add_result(a, b, false) & 0x80) != 0),
        spec_add_flags(a, b, false).parity == spec_parity_even(spec_add_result(a, b, false)),
{
    if a + b > 255 {
        vstd::arithmetic::div_mod::lemma_fundamental_div_mod_converse(
            a + b,
            256,
            1,
            a + b - 256,
        );
    } else {
        vstd::arithmetic::div_mod::lemma_fundamental_div_mod_converse(a + b, 256, 0, a + b);
    }
}

/// The byte after `n` plain left rotations.
pub open spec fn spec_iter_rlc(x: u8, n: nat) -> u8
    decreases n,
{
    if n == 0 {
        x
    } else {
        spec_rlc(spec_iter_rlc(x, (n - 1) as nat))
    }
}

/// The accumulator and carry after `n` left rotations through the carry.
pub open spec fn spec_iter_ral(x: u8, carry: bool, n: nat) -> (u8, bool)
    decreases n,
{
    if n == 0 {
        (x, carry)
    } else {
        let (xp, cp) = spec_iter_ral(x, carry, (n - 1) as nat);
        (spec_ral(xp, cp), (xp & 0x80) != 0)
    }
}

/// Law: rotating a byte left eight times returns the original byte.
pub proof fn lemma_rlc_eight_times(x: u8)
    ensures
        spec_iter_rlc(x, 8) == x,
{
    reveal_with_fuel(spec_iter_rlc, 9);
    let x1 = spec_rlc(x);
    let x2 = spec_rlc(x1);
    let x3 = spec_rlc(x2);
    let x4 = spec_rlc(x3);
    let x5 = spec_rlc(x4);
    let x6 = spec_rlc(x5);
    let x7 = spec_rlc(x6);
    let x8 = spec_rlc(x7);
    assert(x2 == ((x << 2) | (x >> 6))) by (bit_vector)
        requires
            x1 == ((x << 1) | (x >> 7)),
            x2 == ((x1 << 1) | (x1 >> 7)),
    ;
    assert(x3 == ((x << 3) | (x >> 5))) by (bit_vector)
        requires
            x2 == ((x << 2) | (x >> 6)),
            x3 == ((x2 << 1) | (x2 >> 7)),
    ;
    assert(x4 == ((x << 4) | (x >> 4))) by (bit_vector)
        requires
            x3 == ((x << 3) | (x >> 5)),
            x4 == ((x3 << 1) | (x3 >> 7)),
    ;
    assert(x5 == ((x << 5) | (x >> 3))) by (bit_vector)
        requires
            x4 == ((x << 4) | (x >> 4)),
            x5 == ((x4 << 1) | (x4 >> 7)),
    ;
    assert(x6 == ((x << 6) | (x >> 2))) by (bit_vector)
        requires
            x5 == ((x << 5) | (x >> 3)),
            x6 == ((x5 << 1) | (x5 >> 7)),
    ;
    assert(x7 == ((x << 7) | (x >> 1))) by (bit_vector)
        requires
            x6 == ((x << 6) | (x >> 2)),
            x7 == ((x6 << 1) | (x6 >> 7)),
    ;
    assert(x8 == x) by (bit_vector)
        requires
            x7 == ((x << 7) | (x >> 1)),
            x8 == ((x7 << 1) | (x7 >> 7)),
    ;
}

/// One step of a left rotation through the carry, on the 9-bit encoding
/// `carry : byte` packed into a 16-bit value below 512.
proof fn lemma_ral_step(xk: u8, ck: bool, v: u16)
    requires
        v < 512,
        xk == (v & 0xFF) as u8,
        ck == ((v & 0x100) != 0),
    ensures
        spec_ral(xk, ck) == ((((v << 1) | (v >> 8)) & 0x1FF) & 0xFF) as u8,
        ((xk & 0x80) != 0) == (((((v << 1) | (v >> 8)) & 0x1FF) & 0x100) != 0),
        ((v << 1) | (v >> 8)) & 0x1FF < 512,
{
    if ck {
        assert(((xk << 1) | 1u8) == ((((v << 1) | (v >> 8)) & 0x1FF) & 0xFF) as u8 && ((xk & 0x80)
            != 0) == (((((v << 1) | (v >> 8)) & 0x1FF) & 0x100) != 0) && ((v << 1) | (v >> 8))
            & 0x1FF < 512) by (bit_vector)
            requires
                v < 512,
                xk == (v & 0xFF) as u8,
                (v & 0x100) != 0,
        ;
    } else {
        assert(((xk << 1) | 0u8) == ((((v << 1) | (v >> 8)) & 0x1FF) & 0xFF) as u8 && ((xk & 0x80)
            != 0) == (((((v << 1) | (v >> 8)) & 0x1FF) & 0x100) != 0) && ((v << 1) | (v >> 8))
            & 0x1FF < 512) by (bit_vector)
            requires
                v < 512,
                xk == (v & 0xFF) as u8,
                (v & 0x100) == 0,
        ;
    }
}

/// Law: rotating a byte left through the carry nine times returns the
/// original byte and restores the carry.
pub proof fn lemma_ral_nine_times(x: u8, carry: bool)
    ensures
        spec_iter_ral(x, carry, 9) == (x, carry),
{
    reveal_with_fuel(spec_iter_ral, 10);
    let v0: u16 = if carry {
        (x as u16) | 0x100
    } else {
        x as u16
    };
    if carry {
        assert(((x as u16) | 0x100) < 512 && (((((x as u16) | 0x100) & 0xFF) as u8) == x) && ((((
        x as u16) | 0x100) & 0x100) != 0)) by (bit_vector);
    } else {
        assert((x as u16) < 512 && ((((x as u16) & 0xFF) as u8) == x) && (((x as u16) & 0x100)
            == 0)) by (bit_vector);
    }
    let v1 = ((v0 << 1) | (v0 >> 8)) & 0x1FF;
    let v2 = ((v1 << 1) | (v1 >> 8)) & 0x1FF;
    let v3 = ((v2 << 1) | (v2 >> 8)) & 0x1FF;
    let v4 = ((v3 << 1) | (v3 >> 8)) & 0x1FF;
    let v5 = ((v4 << 1) | (v4 >> 8)) & 0x1FF;
    let v6 = ((v5 << 1) | (v5 >> 8)) & 0x1FF;
    let v7 = ((v6 << 1) | (v6 >> 8)) & 0x1FF;
    let v8 = ((v7 << 1) | (v7 >> 8)) & 0x1FF;
    let v9 = ((v8 << 1) | (v8 >> 8)) & 0x1FF;
    let (x1, c1) = spec_iter_ral(x, carry, 1);
    let (x2, c2) = spec_iter_ral(x, carry, 2);
    let (x3, c3) = spec_iter_ral(x, carry, 3);
    let (x4, c4) = spec_iter_ral(x, carry, 4);
    let (x5, c5) = spec_iter_ral(x, carry, 5);
    let (x6, c6) = spec_iter_ral(x, carry, 6);
    let (x7, c7) = spec_iter_ral(x, carry, 7);
    let (x8, c8) = spec_iter_ral(x, carry, 8);
    let (x9, c9) = spec_iter_ral(x, carry, 9);
    lemma_ral_step(x, carry, v0);
    lemma_ral_step(x1, c1, v1);
    lemma_ral_step(x2, c2, v2);
    lemma_ral_step(x3, c3, v3);
    lemma_ral_step(x4, c4, v4);
    lemma_ral_step(x5, c5, v5);
    lemma_ral_step(x6, c6, v6);
    lemma_ral_step(x7, c7, v7);
    lemma_ral_step(x8, c8, v8);
    assert(v2 == ((v0 << 2) | (v0 >> 7)) & 0x1FF) by (bit_vector)
        requires
            v0 < 512,
            v1 == ((v0 << 1) | (v0 >> 8)) & 0x1FF,
            v2 == ((v1 << 1) | (v1 >> 8)) & 0x1FF,
    ;
    assert(v3 == ((v0 << 3) | (v0 >> 6)) & 0x1FF) by (bit_vector)
        requires
            v0 < 512,
            v2 == ((v0 << 2) | (v0 >> 7)) & 0x1FF,
            v3 == ((v2 << 1) | (v2 >> 8)) & 0x1FF,
    ;
    assert(v4 == ((v0 << 4) | (v0 >> 5)) & 0x1FF) by (bit_vector)
        requires
            v0 < 512,
            v3 == ((v0 << 3) | (v0 >> 6)) & 0x1FF,
            v4 == ((v3 << 1) | (v3 >> 8)) & 0x1FF,
    ;
    assert(v5 == ((v0 << 5) | (v0 >> 4)) & 0x1FF) by (bit_vector)
        requires
            v0 < 512,
            v4 == ((v0 << 4) | (v0 >> 5)) & 0x1FF,
            v5 == ((v4 << 1) | (v4 >> 8)) & 0x1FF,
    ;
    assert(v6 == ((v0 << 6) | (v0 >> 3)) & 0x1FF) by (bit_vector)
        requires
            v0 < 512,
            v5 == ((v0 << 5) | (v0 >> 4)) & 0x1FF,
            v6 == ((v5 << 1) | (v5 >> 8)) & 0x1FF,
    ;
    assert(v7 == ((v0 << 7) | (v0 >> 2)) & 0x1FF) by (bit_vector)
        requires
            v0 < 512,
            v6 == ((v0 << 6) | (v0 >> 3)) & 0x1FF,
            v7 == ((v6 << 1) | (v6 >> 8)) & 0x1FF,
    ;
    assert(v8 == ((v0 << 8) | (v0 >> 1)) & 0x1FF) by (bit_vector)
        requires
            v0 < 512,
            v7 == ((v0 << 7) | (v0 >> 2)) & 0x1FF,
            v8 == ((v7 << 1) | (v7 >> 8)) & 0x1FF,
    ;
    assert(v9 == v0) by (bit_vector)
        requires
            v0 < 512,
            v8 == ((v0 << 8) | (v0 >> 1)) & 0x1FF,
            v9 == ((v8 << 1) | (v8 >> 8)) & 0x1FF,
    ;
    assert(x9 == (v0 & 0xFF) as u8 && c9 == ((v0 & 0x100) != 0));
}

/// Law: reading the five flags out of any flags byte and reassembling them
/// yields the byte with the fixed bits forced: bit 1 set, bits 3 and 5
/// cleared. A byte already of that shape round-trips unchanged, and the
/// reassembled byte always decodes back to the same flags.
pub proof fn lemma_flags_byte_round_trip(f: u8)
    ensures
        spec_flags_to_f(spec_flags_from_f(f)) == ((f & 0xD7) | 0x02),
        f == ((f & 0xD7) | 0x02) ==> spec_flags_to_f(spec_flags_from_f(f)) == f,
        spec_flags_from_f(spec_flags_to_f(spec_flags_from_f(f))) == spec_flags_from_f(f),
{
    let s: u8 = if (f & 0x80) != 0 {
        1
    } else {
        0
    };
    let z: u8 = if (f & 0x40) != 0 {
        1
    } else {
        0
    };
    let ac: u8 = if (f & 0x10) != 0 {
        1
    } else {
        0
    };
    let p: u8 = if (f & 0x04) != 0 {
        1
    } else {
        0
    };
    let c: u8 = if (f & 0x01) != 0 {
        1
    } else {
        0
    };
    assert(f & 0x80 == 0 || f & 0x80 == 0x80) by (bit_vector);
    assert(f & 0x40 == 0 || f & 0x40 == 0x40) by (bit_vector);
    assert(f & 0x10 == 0 || f & 0x10 == 0x10) by (bit_vector);
    assert(f & 0x04 == 0 || f & 0x04 == 0x04) by (bit_vector);
    assert(f & 0x01 == 0 || f & 0x01 == 0x01) by (bit_vector);
    assert((f & 0x80) + (f & 0x40) + (f & 0x10) + (f & 0x04) + 2 + (f & 0x01) == ((f & 0xD7)
        | 0x02)) by (bit_vector);
    let g: u8 = (f & 0xD7) | 0x02;
    assert(((g & 0x80) != 0) == ((f & 0x80) != 0) && ((g & 0x40) != 0) == ((f & 0x40) != 0) && ((g
        & 0x10) != 0) == ((f & 0x10) != 0) && ((g & 0x04) != 0) == ((f & 0x04) != 0) && ((g & 0x01)
        != 0) == ((f & 0x01) != 0)) by (bit_vector)
        requires
            g == ((f & 0xD7) | 0x02),
    ;
}

/// Computes whether a byte has an even number of set bits.
fn parity_even(x: u8) -> (r: bool)
    ensures
        r == spec_parity_even(x),
{
    proof {
        assert((x >> 0) & 1 <= 1 && (x >> 1) & 1 <= 1 && (x >> 2) & 1 <= 1 && (x >> 3) & 1 <= 1 && (
        x >> 4) & 1 <= 1 && (x >> 5) & 1 <= 1 && (x >> 6) & 1 <= 1 && (x >> 7) & 1 <= 1)
            by (bit_vector);
    }
    let ones = ((x >> 0) & 1) + ((x >> 1) & 1) + ((x >> 2) & 1) + ((x >> 3) & 1) + ((x >> 4) & 1) + (
    (x >> 5) & 1) + ((x >> 6) & 1) + ((x >> 7) & 1);
    ones % 2 == 0
}

} // verus!
