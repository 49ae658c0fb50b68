//! The register file: eleven named 8- and 16-bit storage cells, the synthetic
//! register pairs over them, and the tagged value type that register reads
//! and writes carry.

use crate::utils;
use crate::CpuError;
use vstd::prelude::*;

verus! {

/// All registers that can be referenced, including the synthetic 16-bit
/// pairs, which alias the 8-bit cells rather than being storage of their own.
#[derive(Clone, Copy, Debug, PartialEq, Eq, Structural)]
pub enum Register {
    /// 16-bit program counter.
    PC,
    /// 16-bit stack pointer.
    SP,
    B,
    C,
    D,
    E,
    H,
    L,
    /// Temporary register.
    W,
    /// Temporary register.
    Z,
    /// Pair of B and C.
    BC,
    /// Pair of D and E.
    DE,
    /// Pair of H and L.
    HL,
    /// Pair of the temporaries W and Z.
    WZ,
    /// Processor status word: the accumulator over the flags byte.
    PSW,
}

/// An 8-bit or 16-bit register value; a 16-bit value may be carried either
/// whole or as a high/low pair of bytes.
#[derive(Clone, Copy, Debug)]
pub enum RegisterValue {
    Integer8(u8),
    Integer8Pair(u8, u8),
    Integer16(u16),
}

impl RegisterValue {
    /// The numeric value, with a pair read as high byte then low byte.
    pub open spec fn spec_u16(self) -> u16 {
        match self {
            RegisterValue::Integer8(v) => v as u16,
            RegisterValue::Integer8Pair(higher, lower) => utils::spec_combine(higher, lower),
            RegisterValue::Integer16(v) => v,
        }
    }

    /// The width in bytes: 1 for an 8-bit value, 2 otherwise.
    pub open spec fn spec_width(self) -> int {
        match self {
            RegisterValue::Integer8(_) => 1,
            RegisterValue::Integer8Pair(_, _) => 2,
            RegisterValue::Integer16(_) => 2,
        }
    }

    /// Returns the number of bytes occupied by a value of this kind.
    pub fn n_bytes(&self) -> (n: usize)
        ensures
            n == self.spec_width(),
    {
        match self {
            RegisterValue::Integer8(_) => 1,
            RegisterValue::Integer8Pair(_, _) => 2,
            RegisterValue::Integer16(_) => 2,
        }
    }

    /// The numeric value as an executable conversion.
    pub fn to_u16(&self) -> (v: u16)
        ensures
            v == self.spec_u16(),
    {
        match *self {
            RegisterValue::Integer8(v) => v as u16,
            RegisterValue::Integer8Pair(higher, lower) => utils::combine_values(higher, lower),
            RegisterValue::Integer16(v) => v,
        }
    }

    /// The 8-bit payload of an [`RegisterValue::Integer8`], or a conversion
    /// error for the 16-bit forms.
    pub fn try_to_u8(&self) -> (r: Result<u8, CpuError>)
        ensures
            r == self.spec_u8(),
    {
        match *self {
            RegisterValue::Integer8(v) => Ok(v),
            _ => Err(CpuError::Conversion),
        }
    }

    /// The 8-bit payload, or a conversion error for the 16-bit forms.
    pub open spec fn spec_u8(self) -> Result<u8, CpuError> {
        match self {
            RegisterValue::Integer8(v) => Ok(v),
            _ => Err(CpuError::Conversion),
        }
    }

    /// What [`RegisterValue::try_add`] returns: values of equal width add
    /// modulo their width, a pair counting as 16-bit; mixed widths are a
    /// width error.
    pub open spec fn spec_try_add(self, rhs: RegisterValue) -> Result<RegisterValue, CpuError> {
        match (self.spec_widen(), rhs.spec_widen()) {
            (RegisterValue::Integer8(x), RegisterValue::Integer8(y)) => Ok(
                RegisterValue::Integer8(if x + y > 255 {
                    (x + y - 256) as u8
                } else {
                    (x + y) as u8
                }),
            ),
            (RegisterValue::Integer16(x), RegisterValue::Integer16(y)) => Ok(
                RegisterValue::Integer16(if x + y > 65535 {
                    (x + y - 65536) as u16
                } else {
                    (x + y) as u16
                }),
            ),
            _ => Err(CpuError::Width),
        }
    }

    /// A pair turned into the equivalent whole 16-bit value; other forms are
    /// kept as they are.
    pub open spec fn spec_widen(self) -> RegisterValue {
        match self {
            RegisterValue::Integer8Pair(higher, lower) => RegisterValue::Integer16(
                utils::spec_combine(higher, lower),
            ),
            other => other,
        }
    }

    /// Adds two register values of equal width, wrapping around on overflow;
    /// adding an 8-bit value to a 16-bit one fails with a width error.
    pub fn try_add(self, rhs: Self) -> (r: Result<Self, CpuError>)
        ensures
            r == self.spec_try_add(rhs),
    {
        let lhs = self.widen();
        let rhs = rhs.widen();
        match (lhs, rhs) {
            (RegisterValue::Integer8(x), RegisterValue::Integer8(y)) => Ok(
                RegisterValue::Integer8(x.wrapping_add(y)),
            ),
            (RegisterValue::Integer16(x), RegisterValue::Integer16(y)) => Ok(
                RegisterValue::Integer16(x.wrapping_add(y)),
            ),
            _ => Err(CpuError::Width),
        }
    }

    /// Turns a pair into the equivalent whole 16-bit value.
    fn widen(self) -> (r: Self)
        ensures
            r == self.spec_widen(),
    {
        match self {
            RegisterValue::Integer8Pair(higher, lower) => RegisterValue::Integer16(
                utils::combine_values(higher, lower),
            ),
            other => other,
        }
    }
}

impl PartialEq for RegisterValue {
    /// Two register values are equal when their numeric values are equal,
    /// whatever form carries them.
    fn eq(&self, other: &RegisterValue) -> (r: bool) {
        self.to_u16() == other.to_u16()
    }
}

impl vstd::std_specs::cmp::PartialEqSpecImpl for RegisterValue {
    open spec fn obeys_eq_spec() -> bool {
        true
    }

    open spec fn eq_spec(&self, other: &RegisterValue) -> bool {
        self.spec_u16() == other.spec_u16()
    }
}

impl From<u8> for RegisterValue {
    fn from(value: u8) -> (r: Self) {
        RegisterValue::Integer8(value)
    }
}

impl vstd::std_specs::convert::FromSpecImpl<u8> for RegisterValue {
    open spec fn obeys_from_spec() -> bool {
        true
    }

    open spec fn from_spec(value: u8) -> Self {
        RegisterValue::Integer8(value)
    }
}

impl From<u16> for RegisterValue {
    fn from(value: u16) -> (r: Self) {
        RegisterValue::Integer16(value)
    }
}

impl vstd::std_specs::convert::FromSpecImpl<u16> for RegisterValue {
    open spec fn obeys_from_spec() -> bool {
        true
    }

    open spec fn from_spec(value: u16) -> Self {
        RegisterValue::Integer16(value)
    }
}

impl From<RegisterValue> for u16 {
    fn from(value: RegisterValue) -> (r: u16) {
        value.to_u16()
    }
}

impl vstd::std_specs::convert::FromSpecImpl<RegisterValue> for u16 {
    open spec fn obeys_from_spec() -> bool {
        true
    }

    open spec fn from_spec(value: RegisterValue) -> u16 {
        value.spec_u16()
    }
}

impl Register {
    /// The width in bytes: 1 for the 8-bit cells, 2 for the pairs, the
    /// program counter and the stack pointer.
    pub open spec fn spec_width(self) -> int {
        match self {
            Register::B | Register::C | Register::D | Register::E | Register::H | Register::L
                | Register::W | Register::Z => 1,
            Register::PC | Register::SP | Register::BC | Register::DE | Register::HL
                | Register::WZ | Register::PSW => 2,
        }
    }

    /// Returns the number of bytes taken up by this register.
    pub fn n_bytes(&self) -> (n: usize)
        ensures
            n == self.spec_width(),
    {
        match self {
            Register::B | Register::C | Register::D | Register::E | Register::H | Register::L
                | Register::W | Register::Z => 1,
            Register::PC | Register::SP | Register::BC | Register::DE | Register::HL
                | Register::WZ | Register::PSW => 2,
        }
    }

    /// What [`Register::from_reg_id`] returns for each 3-bit id.
    pub open spec fn spec_from_reg_id(id: u8) -> Result<Register, CpuError> {
        if id == 0 {
            Ok(Register::B)
        } else if id == 1 {
            Ok(Register::C)
        } else if id == 2 {
            Ok(Register::D)
        } else if id == 3 {
            Ok(Register::E)
        } else if id == 4 {
            Ok(Register::H)
        } else if id == 5 {
            Ok(Register::L)
        } else {
            Err(CpuError::Decode)
        }
    }

    /// Maps a 3-bit register id from an opcode to the register it names.
    /// Id 6 names memory through HL and id 7 names the accumulator; neither
    /// lives in the register array, so both are rejected.
    pub fn from_reg_id(id: u8) -> (r: Result<Self, CpuError>)
        ensures
            r == Self::spec_from_reg_id(id),
    {
        match id {
            0 => Ok(Register::B),
            1 => Ok(Register::C),
            2 => Ok(Register::D),
            3 => Ok(Register::E),
            4 => Ok(Register::H),
            5 => Ok(Register::L),
            _ => Err(CpuError::Decode),
        }
    }

    /// What [`Register::from_rp_id`] returns for each 2-bit id.
    pub open spec fn spec_from_rp_id(id: u8) -> Result<Register, CpuError> {
        if id == 0 {
            Ok(Register::BC)
        } else if id == 1 {
            Ok(Register::DE)
        } else if id == 2 {
            Ok(Register::HL)
        } else if id == 3 {
            Ok(Register::SP)
        } else {
            Err(CpuError::Decode)
        }
    }

    /// Maps a 2-bit register-pair id from an opcode to the pair it names;
    /// id 3 names SP (stack instructions replace it with PSW themselves).
    pub fn from_rp_id(id: u8) -> (r: Result<Self, CpuError>)
        ensures
            r == Self::spec_from_rp_id(id),
    {
        match id {
            0 => Ok(Register::BC),
            1 => Ok(Register::DE),
            2 => Ok(Register::HL),
            3 => Ok(Register::SP),
            _ => Err(CpuError::Decode),
        }
    }

    /// The human-readable name of the register.
    pub open spec fn spec_name(self) -> Seq<char> {
        match self {
            Register::PC => "PC"@,
            Register::SP => "SP"@,
            Register::B => "B"@,
            Register::C => "C"@,
            Register::D => "D"@,
            Register::E => "E"@,
            Register::H => "H"@,
            Register::L => "L"@,
            Register::W => "W"@,
            Register::Z => "Z"@,
            Register::BC => "BC"@,
            Register::DE => "DE"@,
            Register::HL => "HL"@,
            Register::WZ => "WZ"@,
            Register::PSW => "PSW"@,
        }
    }

    /// Returns a human-readable name for the register.
    pub fn get_human_readable_name(&self) -> (name: &'static str)
        ensures
            name@ == self.spec_name(),
    {
        match self {
            Register::PC => "PC",
            Register::SP => "SP",
            Register::B => "B",
            Register::C => "C",
            Register::D => "D",
            Register::E => "E",
            Register::H => "H",
            Register::L => "L",
            Register::W => "W",
            Register::Z => "Z",
            Register::BC => "BC",
            Register::DE => "DE",
            Register::HL => "HL",
            Register::WZ => "WZ",
            Register::PSW => "PSW",
        }
    }
}

/// The register array: all register storage cells. The 16-bit pairs BC, DE,
/// HL, WZ and PSW are views over these cells, not cells of their own.
#[derive(Debug)]
pub struct RegisterArray {
    /// 16-bit program counter.
    pub program_counter: u16,
    /// 16-bit stack pointer.
    pub stack_pointer: u16,
    /// Accumulator cell used to form the PSW; kept in sync with the ALU.
    pub reg_a: u8,
    /// Flags byte used to form the PSW; kept in sync with the ALU.
    pub reg_f: u8,
    pub reg_b: u8,
    pub reg_c: u8,
    pub reg_d: u8,
    pub reg_e: u8,
    pub reg_h: u8,
    pub reg_l: u8,
    /// 8-bit temporary register.
    pub reg_w: u8,
    /// 8-bit temporary register.
    pub reg_z: u8,
}

impl RegisterArray {
    /// What [`RegisterArray::read_reg`] returns: the cell's value for an
    /// 8-bit register, and the high/low byte pair for a 16-bit pair.
    pub open spec fn spec_read_reg(self, register: Register) -> RegisterValue {
        match register {
            Register::PC => RegisterValue::Integer16(self.program_counter),
            Register::SP => RegisterValue::Integer16(self.stack_pointer),
            Register::B => RegisterValue::Integer8(self.reg_b),
            Register::C => RegisterValue::Integer8(self.reg_c),
            Register::D => RegisterValue::Integer8(self.reg_d),
            Register::E => RegisterValue::Integer8(self.reg_e),
            Register::H => RegisterValue::Integer8(self.reg_h),
            Register::L => RegisterValue::Integer8(self.reg_l),
            Register::W => RegisterValue::Integer8(self.reg_w),
            Register::Z => RegisterValue::Integer8(self.reg_z),
            Register::BC => RegisterValue::Integer8Pair(self.reg_b, self.reg_c),
            Register::DE => RegisterValue::Integer8Pair(self.reg_d, self.reg_e),
            Register::HL => RegisterValue::Integer8Pair(self.reg_h, self.reg_l),
            Register::WZ => RegisterValue::Integer8Pair(self.reg_w, self.reg_z),
            Register::PSW => RegisterValue::Integer8Pair(self.reg_a, self.reg_f),
        }
    }

    /// What [`RegisterArray::write_reg`] does: an 8-bit register takes only
    /// an 8-bit value, a 16-bit register takes a whole 16-bit value or a
    /// pair, which is split into the two component cells; any other width
    /// combination is a width error.
    pub open spec fn spec_write_reg(self, register: Register, value: RegisterValue) -> Result<
        RegisterArray,
        CpuError,
    > {
        if register.spec_width() == 1 {
            match value {
                RegisterValue::Integer8(v) => Ok(
                    match register {
                        Register::B => RegisterArray { reg_b: v, ..self },
                        Register::C => RegisterArray { reg_c: v, ..self },
                        Register::D => RegisterArray { reg_d: v, ..self },
                        Register::E => RegisterArray { reg_e: v, ..self },
                        Register::H => RegisterArray { reg_h: v, ..self },
                        Register::L => RegisterArray { reg_l: v, ..self },
                        Register::W => RegisterArray { reg_w: v, ..self },
                        _ => RegisterArray { reg_z: v, ..self },
                    },
                ),
                _ => Err(CpuError::Width),
            }
        } else if value.spec_width() == 2 {
            let v = value.spec_u16();
            let higher = utils::spec_high(v);
            let lower = utils::spec_low(v);
            Ok(
                match register {
                    Register::PC => RegisterArray { program_counter: v, ..self },
                    Register::SP => RegisterArray { stack_pointer: v, ..self },
                    Register::BC => RegisterArray { reg_b: higher, reg_c: lower, ..self },
                    Register::DE => RegisterArray { reg_d: higher, reg_e: lower, ..self },
                    Register::HL => RegisterArray { reg_h: higher, reg_l: lower, ..self },
                    Register::WZ => RegisterArray { reg_w: higher, reg_z: lower, ..self },
                    _ => RegisterArray { reg_a: higher, reg_f: lower, ..self },
                },
            )
        } else {
            Err(CpuError::Width)
        }
    }

    /// Creates a new register array with all cells set to 0.
    pub fn new() -> (regs: Self)
        ensures
            regs == (RegisterArray {
                program_counter: 0u16,
                stack_pointer: 0u16,
                reg_a: 0u8,
                reg_f: 0u8,
                reg_b: 0u8,
                reg_c: 0u8,
                reg_d: 0u8,
                reg_e: 0u8,
                reg_h: 0u8,
                reg_l: 0u8,
                reg_w: 0u8,
                reg_z: 0u8,
            }),
    {
        Self {
            program_counter: 0,
            stack_pointer: 0,
            reg_a: 0,
            reg_f: 0,
            reg_b: 0,
            reg_c: 0,
            reg_d: 0,
            reg_e: 0,
            reg_h: 0,
            reg_l: 0,
            reg_w: 0,
            reg_z: 0,
        }
    }

    /// Reads the value of the given register.
    pub fn read_reg(&self, register: Register) -> (value: RegisterValue)
        ensures
            value == self.spec_read_reg(register),
    {
        match register {
            Register::PC => RegisterValue::Integer16(self.program_counter),
            Register::SP => RegisterValue::Integer16(self.stack_pointer),
            Register::B => RegisterValue::Integer8(self.reg_b),
            Register::C => RegisterValue::Integer8(self.reg_c),
            Register::D => RegisterValue::Integer8(self.reg_d),
            Register::E => RegisterValue::Integer8(self.reg_e),
            Register::H => RegisterValue::Integer8(self.reg_h),
            Register::L => RegisterValue::Integer8(self.reg_l),
            Register::W => RegisterValue::Integer8(self.reg_w),
            Register::Z => RegisterValue::Integer8(self.reg_z),
            Register::BC => RegisterValue::Integer8Pair(self.reg_b, self.reg_c),
            Register::DE => RegisterValue::Integer8Pair(self.reg_d, self.reg_e),
            Register::HL => RegisterValue::Integer8Pair(self.reg_h, self.reg_l),
            Register::WZ => RegisterValue::Integer8Pair(self.reg_w, self.reg_z),
            Register::PSW => RegisterValue::Integer8Pair(self.reg_a, self.reg_f),
        }
    }

    /// Writes a value to the given register, failing when the value's width
    /// does not fit the register's width as [`spec_write_reg`] describes.
    pub fn write_reg(&mut self, register: Register, value: RegisterValue) -> (r: Result<
        (),
        CpuError,
    >)
        ensures
            match old(self).spec_write_reg(register, value) {
                Ok(regs) => r is Ok && *final(self) == regs,
                Err(e) => r == Err::<(), CpuError>(e) && *final(self) == *old(self),
            },
    {
        if register.n_bytes() == 1 {
            let v = match value.try_to_u8() {
                Ok(v) => v,
                Err(_) => {
                    return Err(CpuError::Width);
                },
            };
            match register {
                Register::B => self.reg_b = v,
                Register::C => self.reg_c = v,
                Register::D => self.reg_d = v,
                Register::E => self.reg_e = v,
                Register::H => self.reg_h = v,
                Register::L => self.reg_l = v,
                Register::W => self.reg_w = v,
                _ => self.reg_z = v,
            };
            Ok(())
        } else if value.n_bytes() == 2 {
            let v = value.to_u16();
            let (higher, lower) = utils::separate_values(v);
            match register {
                Register::PC => self.program_counter = v,
                Register::SP => self.stack_pointer = v,
                Register::BC => {
                    self.reg_b = higher;
                    self.reg_c = lower;
                },
                Register::DE => {
                    self.reg_d = higher;
                    self.reg_e = lower;
                },
                Register::HL => {
                    self.reg_h = higher;
                    self.reg_l = lower;
                },
                Register::WZ => {
                    self.reg_w = higher;
                    self.reg_z = lower;
                },
                _ => {
                    self.reg_a = higher;
                    self.reg_f = lower;
                },
            };
            Ok(())
        } else {
            Err(CpuError::Width)
        }
    }
}

/// Law: writing any 8-bit value to any 8-bit register succeeds, and reading
/// that register back yields the written value.
pub proof fn lemma_reg8_write_then_read(regs: RegisterArray, register: Register, v: u8)
    requires
        register.spec_width() == 1,
    ensures
        regs.spec_write_reg(register, RegisterValue::Integer8(v)) is Ok,
        regs.spec_write_reg(register, RegisterValue::Integer8(v)).unwrap().spec_read_reg(register)
            == RegisterValue::Integer8(v),
{
}

/// Law: writing any 16-bit value to any 16-bit register succeeds, reading it
/// back yields the written value, and for a register pair the two component
/// 8-bit registers read back the value's high and low bytes.
pub proof fn lemma_reg16_write_then_read(regs: RegisterArray, register: Register, v: u16)
    requires
        register.spec_width() == 2,
    ensures
        regs.spec_write_reg(register, RegisterValue::Integer16(v)) is Ok,
        ({
            let written = regs.spec_write_reg(register, RegisterValue::Integer16(v)).unwrap();
            &&& written.spec_read_reg(register).spec_u16() == v
            &&& match register {
                Register::BC => written.spec_read_reg(Register::B) == RegisterValue::Integer8(
                    utils::spec_high(v),
                ) && written.spec_read_reg(Register::C) == RegisterValue::Integer8(
                    utils::spec_low(v),
                ),
                Register::DE => written.spec_read_reg(Register::D) == RegisterValue::Integer8(
                    utils::spec_high(v),
                ) && written.spec_read_reg(Register::E) == RegisterValue::Integer8(
                    utils::spec_low(v),
                ),
                Register::HL => written.spec_read_reg(Register::H) == RegisterValue::Integer8(
                    utils::spec_high(v),
                ) && written.spec_read_reg(Register::L) == RegisterValue::Integer8(
                    utils::spec_low(v),
                ),
                Register::WZ => written.spec_read_reg(Register::W) == RegisterValue::Integer8(
                    utils::spec_high(v),
                ) && written.spec_read_reg(Register::Z) == RegisterValue::Integer8(
                    utils::spec_low(v),
                ),
                _ => true,
            }
        }),
{
    utils::lemma_combine_separate(utils::spec_high(v), utils::spec_low(v), v);
}

} // verus!
