//! The flat 64 KiB memory: a byte array addressed by 16-bit integers, with
//! size-tagged reads and writes. 16-bit accesses are little-endian and fail
//! when their low byte sits at the last address.

use crate::registers::RegisterValue;
use crate::utils;
use crate::CpuError;
use vstd::prelude::*;

verus! {

/// The number of bytes in the address space.
pub const MEMORY_SIZE: usize = 0x10000;

/// The size of a memory access: a single byte or a little-endian 16-bit
/// value.
#[derive(Debug, PartialEq, Eq, Structural, Clone, Copy)]
pub enum MemorySize {
    Integer8,
    Integer16,
}

impl MemorySize {
    /// The width in bytes.
    pub open spec fn spec_width(self) -> int {
        match self {
            MemorySize::Integer8 => 1,
            MemorySize::Integer16 => 2,
        }
    }

    /// Returns the number of bytes occupied by a value of this size.
    pub fn n_bytes(&self) -> (n: usize)
        ensures
            n == self.spec_width(),
    {
        match self {
            MemorySize::Integer8 => 1,
            MemorySize::Integer16 => 2,
        }
    }

    /// What [`MemorySize::from_bytes`] returns for each byte count.
    pub open spec fn spec_from_bytes(n: int) -> Result<MemorySize, CpuError> {
        if n == 1 {
            Ok(MemorySize::Integer8)
        } else if n == 2 {
            Ok(MemorySize::Integer16)
        } else {
            Err(CpuError::Width)
        }
    }

    /// The size with the given width in bytes; only 1 and 2 name sizes.
    pub fn from_bytes(n: usize) -> (r: Result<Self, CpuError>)
        ensures
            r == Self::spec_from_bytes(n as int),
    {
        if n == 1 {
            Ok(MemorySize::Integer8)
        } else if n == 2 {
            Ok(MemorySize::Integer16)
        } else {
            Err(CpuError::Width)
        }
    }
}

/// The byte read from memory at an address.
pub open spec fn spec_read8(mem: Seq<u8>, addr: u16) -> u8 {
    mem[addr as int]
}

/// The little-endian 16-bit value read from memory at an address: the low
/// byte at `addr`, the high byte at `addr + 1`. Meaningful only for
/// `addr < 0xFFFF`.
pub open spec fn spec_read16(mem: Seq<u8>, addr: u16) -> u16 {
    utils::spec_combine(mem[addr + 1], mem[addr as int])
}

/// Memory after writing one byte at an address.
pub open spec fn spec_write8(mem: Seq<u8>, addr: u16, value: u8) -> Seq<u8> {
    mem.update(addr as int, value)
}

/// Memory after a little-endian 16-bit write at an address: the low byte at
/// `addr`, the high byte at `addr + 1`. Meaningful only for `addr < 0xFFFF`.
pub open spec fn spec_write16(mem: Seq<u8>, addr: u16, value: u16) -> Seq<u8> {
    mem.update(addr as int, utils::spec_low(value)).update(addr + 1, utils::spec_high(value))
}

/// What [`Memory::read`] returns for an address and size.
pub open spec fn spec_read(mem: Seq<u8>, addr: u16, size: MemorySize) -> Result<
    RegisterValue,
    CpuError,
> {
    match size {
        MemorySize::Integer8 => Ok(RegisterValue::Integer8(spec_read8(mem, addr))),
        MemorySize::Integer16 => if addr == 0xFFFF {
            Err(CpuError::Address)
        } else {
            Ok(RegisterValue::Integer16(spec_read16(mem, addr)))
        },
    }
}

/// What [`Memory::write`] does for an address and value: an 8-bit value is a
/// one-byte write; a 16-bit value or a pair is a little-endian two-byte
/// write, which fails at the last address.
pub open spec fn spec_write(mem: Seq<u8>, addr: u16, value: RegisterValue) -> Result<
    Seq<u8>,
    CpuError,
> {
    if value.spec_width() == 1 {
        Ok(spec_write8(mem, addr, value.spec_u16() as u8))
    } else if addr == 0xFFFF {
        Err(CpuError::Address)
    } else {
        Ok(spec_write16(mem, addr, value.spec_u16()))
    }
}

/// The flat 64 KiB memory, zero-initialised.
pub struct Memory {
    pub data: Vec<u8>,
}

impl View for Memory {
    type V = Seq<u8>;

    open spec fn view(&self) -> Seq<u8> {
        self.data@
    }
}

impl Memory {
    /// A memory value is well formed when it spans the whole address space.
    pub open spec fn wf(&self) -> bool {
        self@.len() == MEMORY_SIZE
    }

    /// Creates a new memory with every byte set to 0.
    pub fn new() -> (mem: Self)
        ensures
            mem.wf(),
            forall|i: int| 0 <= i < MEMORY_SIZE ==> mem@[i] == 0u8,
    {
        let mut data: Vec<u8> = Vec::new();
        while data.len() < MEMORY_SIZE
            invariant
                data.len() <= MEMORY_SIZE,
                forall|i: int| 0 <= i < data.len() ==> data@[i] == 0u8,
            decreases MEMORY_SIZE - data.len(),
        {
            data.push(0);
        }
        Memory { data }
    }

    /// Reads a value of the given size from the given address; the address
    /// may be carried in any register-value form.
    pub fn read(&self, addr: RegisterValue, size: MemorySize) -> (r: Result<
        RegisterValue,
        CpuError,
    >)
        requires
            self.wf(),
        ensures
            r == spec_read(self@, addr.spec_u16(), size),
    {
        let addr = addr.to_u16();
        match size {
            MemorySize::Integer8 => Ok(RegisterValue::Integer8(self.data[addr as usize])),
            MemorySize::Integer16 => {
                if addr == 0xFFFF {
                    return Err(CpuError::Address);
                }
                let lower = self.data[addr as usize];
                let higher = self.data[addr as usize + 1];
                Ok(RegisterValue::Integer16(utils::combine_values(higher, lower)))
            },
        }
    }

    /// Writes a value to memory at the given address; the value's form picks
    /// the width of the write as [`spec_write`] describes.
    pub fn write(&mut self, addr: RegisterValue, value: RegisterValue) -> (r: Result<(), CpuError>)
        requires
            old(self).wf(),
        ensures
            final(self).wf(),
            match spec_write(old(self)@, addr.spec_u16(), value) {
                Ok(mem) => r is Ok && final(self)@ == mem,
                Err(e) => r == Err::<(), CpuError>(e) && final(self)@ == old(self)@,
            },
    {
        let addr = addr.to_u16();
        match value.try_to_u8() {
            Ok(v) => {
                self.data.set(addr as usize, v);
                Ok(())
            },
            Err(_) => {
                if addr == 0xFFFF {
                    return Err(CpuError::Address);
                }
                let v = value.to_u16();
                let (higher, lower) = utils::separate_values(v);
                self.data.set(addr as usize, lower);
                self.data.set(addr as usize + 1, higher);
                Ok(())
            },
        }
    }
}

/// Law: writing a byte at any address and reading that address back returns
/// the written byte.
pub proof fn lemma_mem8_write_then_read(mem: Seq<u8>, addr: u16, value: u8)
    requires
        mem.len() == MEMORY_SIZE,
    ensures
        spec_read8(spec_write8(mem, addr, value), addr) == value,
{
}

/// Law: a little-endian 16-bit write at any address below the last one,
/// followed by a 16-bit read at that address, returns the written value.
pub proof fn lemma_mem16_write_then_read(mem: Seq<u8>, addr: u16, value: u16)
    requires
        mem.len() == MEMORY_SIZE,
        addr != 0xFFFF,
    ensures
        spec_read16(spec_write16(mem, addr, value), addr) == value,
{
    utils::lemma_combine_separate(utils::spec_high(value), utils::spec_low(value), value);
}

} // verus!
