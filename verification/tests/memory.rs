use i8080::memory::Memory;
use i8080::memory::MemorySize;
use i8080::registers::RegisterValue;
use i8080::CpuError;

#[test]
fn memory_read_write_8bit_random() {
    let mut memory = Memory::new();

    // write a random value to each address, then read it back and make
    // sure it is the same as what was written
    let mut written_values = [RegisterValue::from(0u8); 0x10000];

    for i in 0..0x10000 {
        let value = rand::random::<u8>();
        let value = RegisterValue::from(value);

        written_values[i] = value;
        let _ = memory.write(RegisterValue::from(i as u16), value);
    }

    for i in 0..0x10000 {
        assert_eq!(
            written_values[i],
            memory
                .read(RegisterValue::from(i as u16), MemorySize::Integer8)
                .unwrap()
        );
    }
}

#[test]
fn memory_read_write_16bit() {
    let mut memory = Memory::new();

    // write 0xABCD to address 0x1000, ensure that it will be read back correctly
    // both when reading a single 16-bit value and two 8-bit values
    memory
        .write(
            RegisterValue::from(0x1000u16),
            RegisterValue::from(0xABCDu16),
        )
        .unwrap();

    assert_eq!(
        memory
            .read(RegisterValue::from(0x1000u16), MemorySize::Integer16)
            .unwrap(),
        RegisterValue::from(0xABCDu16)
    );

    assert_eq!(
        memory
            .read(RegisterValue::from(0x1000u16), MemorySize::Integer8)
            .unwrap(),
        RegisterValue::from(0xCDu8)
    );

    assert_eq!(
        memory
            .read(RegisterValue::from(0x1001u16), MemorySize::Integer8)
            .unwrap(),
        RegisterValue::from(0xABu8)
    );
}

#[test]
#[should_panic]
fn memory_attempt_write_outside_bounds() {
    let mut memory = Memory::new();

    // try to write a 16-bit value to address 0xFFFF, which would write
    // outside of memory and should return an Err, which upon .unwrap()
    // will panic
    memory
        .write(
            RegisterValue::from(0xFFFFu16),
            RegisterValue::from(0xABCDu16),
        )
        .unwrap();
}

#[test]
#[should_panic]
fn memory_attempt_read_outside_bounds() {
    let memory = Memory::new();

    // try to read a 16-bit value from address 0xFFFF, which would read
    // outside of memory and should return an Err, which upon .unwrap()
    // will panic
    memory
        .read(RegisterValue::from(0xFFFFu16), MemorySize::Integer16)
        .unwrap();
}

#[test]
fn memory_16bit_access_at_last_address_is_an_address_error() {
    let mut memory = Memory::new();

    assert_eq!(
        memory.read(RegisterValue::from(0xFFFFu16), MemorySize::Integer16),
        Err(CpuError::Address)
    );
    assert_eq!(
        memory.write(
            RegisterValue::from(0xFFFFu16),
            RegisterValue::from(0xABCDu16)
        ),
        Err(CpuError::Address)
    );

    // an 8-bit access at the last address is fine
    memory
        .write(RegisterValue::from(0xFFFFu16), RegisterValue::from(0x42u8))
        .unwrap();
    assert_eq!(
        memory
            .read(RegisterValue::from(0xFFFFu16), MemorySize::Integer8)
            .unwrap(),
        RegisterValue::from(0x42u8)
    );
}

#[test]
fn memory_little_endian_layout() {
    let mut memory = Memory::new();

    // a 16-bit write puts the low byte at the address and the high byte
    // just above it
    memory
        .write(
            RegisterValue::from(0x2000u16),
            RegisterValue::from(0x1234u16),
        )
        .unwrap();
    assert_eq!(
        memory
            .read(RegisterValue::from(0x2000u16), MemorySize::Integer8)
            .unwrap(),
        RegisterValue::from(0x34u8)
    );
    assert_eq!(
        memory
            .read(RegisterValue::from(0x2001u16), MemorySize::Integer8)
            .unwrap(),
        RegisterValue::from(0x12u8)
    );
}
