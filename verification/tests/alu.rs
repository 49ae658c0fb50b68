use i8080::alu::Alu;
use i8080::alu::AluFlags;
use i8080::alu::AluOperation;
use i8080::registers::RegisterValue;
use i8080::CpuError;

#[test]
fn alu_accumulator_is_set() {
    let mut alu = Alu::new();

    // add 1+1, ensure accumulator AND return value are 2
    let result = alu
        .evaluate(AluOperation::Add(
            RegisterValue::from(1u8),
            RegisterValue::from(1u8),
        ))
        .unwrap();

    assert_eq!(result.unwrap(), RegisterValue::from(2u8));
    assert_eq!(alu.accumulator(), RegisterValue::from(2u8));
}

#[test]
fn alu_add() {
    let mut alu = Alu::new();

    // test some hand-picked values for adding
    // 0 + 0
    let result = alu
        .evaluate(AluOperation::Add(
            RegisterValue::from(0u8),
            RegisterValue::from(0u8),
        ))
        .unwrap();
    assert_eq!(result.unwrap(), RegisterValue::from(0u8));
    assert_eq!(
        alu.flags(),
        AluFlags::from_bools(true, false, true, false, false)
    );

    // 13 + 7
    let result = alu
        .evaluate(AluOperation::Add(
            RegisterValue::from(13u8),
            RegisterValue::from(7u8),
        ))
        .unwrap();
    assert_eq!(result.unwrap(), RegisterValue::from(20u8));
    assert_eq!(
        alu.flags(),
        AluFlags::from_bools(false, false, true, false, true)
    );

    // 255 + 2 (carry occurs)
    let result = alu
        .evaluate(AluOperation::Add(
            RegisterValue::from(255u8),
            RegisterValue::from(2u8),
        ))
        .unwrap();
    assert_eq!(result.unwrap(), RegisterValue::from(1u8));
    assert_eq!(
        alu.flags(),
        AluFlags::from_bools(false, false, false, true, true)
    );

    // 127 + 1
    let result = alu
        .evaluate(AluOperation::Add(
            RegisterValue::from(127u8),
            RegisterValue::from(1u8),
        ))
        .unwrap();
    assert_eq!(result.unwrap(), RegisterValue::from(128u8));
    assert_eq!(
        alu.flags(),
        AluFlags::from_bools(false, true, false, false, true)
    );
}

#[test]
fn alu_add_with_carry() {
    let mut alu = Alu::new();

    // test some hand-picked values for adding with carry
    // 240 + 16
    let result = alu
        .evaluate(AluOperation::AddCarry(
            RegisterValue::from(240u8),
            RegisterValue::from(16u8),
        ))
        .unwrap();
    assert_eq!(result.unwrap(), RegisterValue::from(0u8));
    assert_eq!(
        alu.flags(),
        AluFlags::from_bools(true, false, true, true, false)
    );

    // 1 + 1 (should also add the carry flag to make 3)
    let result = alu
        .evaluate(AluOperation::AddCarry(
            RegisterValue::from(1u8),
            RegisterValue::from(1u8),
        ))
        .unwrap();
    assert_eq!(result.unwrap(), RegisterValue::from(3u8));
    assert_eq!(
        alu.flags(),
        AluFlags::from_bools(false, false, true, false, false)
    );
}

#[test]
fn alu_sub() {
    let mut alu = Alu::new();

    // test some hand-picked values for subtraction
    // 7 - 3
    let result = alu
        .evaluate(AluOperation::Sub(
            RegisterValue::from(7u8),
            RegisterValue::from(3u8),
        ))
        .unwrap();
    assert_eq!(result.unwrap(), RegisterValue::from(4u8));
    assert_eq!(
        alu.flags(),
        AluFlags::from_bools(false, false, false, false, false)
    );

    // 12 - 24
    let result = alu
        .evaluate(AluOperation::Sub(
            RegisterValue::from(12u8),
            RegisterValue::from(24u8),
        ))
        .unwrap();
    assert_eq!(result.unwrap(), RegisterValue::from(12u8.wrapping_neg()));
    assert_eq!(
        alu.flags(),
        AluFlags::from_bools(false, true, false, true, false)
    );

    // 1 - 2
    let result = alu
        .evaluate(AluOperation::Sub(
            RegisterValue::from(1u8),
            RegisterValue::from(2u8),
        ))
        .unwrap();
    assert_eq!(result.unwrap(), RegisterValue::from(1u8.wrapping_neg()));
    assert_eq!(
        alu.flags(),
        AluFlags::from_bools(false, true, true, true, true)
    );
}

#[test]
fn alu_sub_with_borrow() {
    let mut alu = Alu::new();

    // test some hand-picked values for subtraction with carry
    // 1 - 2
    let result = alu
        .evaluate(AluOperation::SubBorrow(
            RegisterValue::from(1u8),
            RegisterValue::from(2u8),
        ))
        .unwrap();
    assert_eq!(result.unwrap(), RegisterValue::from(1u8.wrapping_neg()));
    assert_eq!(
        alu.flags(),
        AluFlags::from_bools(false, true, true, true, true)
    );

    // 100 - 49 (should also include borrow to make 50)
    let result = alu
        .evaluate(AluOperation::SubBorrow(
            RegisterValue::from(100u8),
            RegisterValue::from(49u8),
        ))
        .unwrap();
    assert_eq!(result.unwrap(), RegisterValue::from(50u8));
    assert_eq!(
        alu.flags(),
        AluFlags::from_bools(false, false, false, false, false)
    );
}

#[test]
fn alu_increment() {
    let mut alu = Alu::new();

    // test some hand-picked values for increment
    // increment 15
    let result = alu
        .evaluate(AluOperation::Increment(RegisterValue::from(15u8)))
        .unwrap();
    assert_eq!(result.unwrap(), RegisterValue::from(16u8));
    assert_eq!(
        alu.flags(),
        AluFlags::from_bools(false, false, false, false, true)
    );

    // increment 255 (overflow, but carry flag should NOT be updated)
    let result = alu
        .evaluate(AluOperation::Increment(RegisterValue::from(255u8)))
        .unwrap();
    assert_eq!(result.unwrap(), RegisterValue::from(0u8));
    assert_eq!(
        alu.flags(),
        AluFlags::from_bools(true, false, true, false, true)
    );
}

#[test]
fn alu_decrement() {
    let mut alu = Alu::new();

    // test some hand-picked values for decrement
    // decrement 16
    let result = alu
        .evaluate(AluOperation::Decrement(RegisterValue::from(16u8)))
        .unwrap();
    assert_eq!(result.unwrap(), RegisterValue::from(15u8));
    assert_eq!(
        alu.flags(),
        AluFlags::from_bools(false, false, true, false, true)
    );

    // decrement 0 (overflow)
    let result = alu
        .evaluate(AluOperation::Decrement(RegisterValue::from(0u8)))
        .unwrap();
    assert_eq!(result.unwrap(), RegisterValue::from(255u8));
    assert_eq!(
        alu.flags(),
        AluFlags::from_bools(false, true, true, false, true)
    );
}

#[test]
fn alu_increment_16bit() {
    let mut alu = Alu::new();

    // test some hand-picked values for 16-bit increment
    // increment 255
    let result = alu
        .evaluate(AluOperation::Increment(RegisterValue::from(255u16)))
        .unwrap();
    assert_eq!(result.unwrap(), RegisterValue::from(256u16));
    assert_eq!(
        alu.flags(),
        AluFlags::new() // all flags should be 0
    );

    // increment 65535 (overflow)
    let result = alu
        .evaluate(AluOperation::Increment(RegisterValue::from(65535u16)))
        .unwrap();
    assert_eq!(result.unwrap(), RegisterValue::from(0u16));
    assert_eq!(
        alu.flags(),
        AluFlags::new() // all flags should be 0
    );
}

#[test]
fn alu_decrement_16bit() {
    let mut alu = Alu::new();

    // test some hand-picked values for 16-bit decrement
    // decrement 256
    let result = alu
        .evaluate(AluOperation::Decrement(RegisterValue::from(256u16)))
        .unwrap();
    assert_eq!(result.unwrap(), RegisterValue::from(255u16));
    assert_eq!(
        alu.flags(),
        AluFlags::new() // all flags should be 0
    );

    // decrement 0 (overflow)
    let result = alu
        .evaluate(AluOperation::Decrement(RegisterValue::from(0u16)))
        .unwrap();
    assert_eq!(result.unwrap(), RegisterValue::from(65535u16));
    assert_eq!(
        alu.flags(),
        AluFlags::new() // all flags should be 0
    );
}

#[test]
fn alu_decimal_adjustment() {
    let mut alu = Alu::new();

    // test some hand-picked values for decimal adjustment
    // add 0x5 and 0x3, then decimal adjust
    let result = alu
        .evaluate(AluOperation::Add(
            RegisterValue::from(0x5u8),
            RegisterValue::from(0x3u8),
        ))
        .unwrap()
        .unwrap();
    let result = alu
        .evaluate(AluOperation::DecimalAdjust(result))
        .unwrap();
    assert_eq!(result.unwrap(), RegisterValue::from(0x8u8));
    assert_eq!(
        alu.flags(),
        AluFlags::from_bools(false, false, false, false, false)
    );

    // add 0x15 and 0x27, then decimal adjust
    let result = alu
        .evaluate(AluOperation::Add(
            RegisterValue::from(0x15u8),
            RegisterValue::from(0x27u8),
        ))
        .unwrap()
        .unwrap();
    let result = alu
        .evaluate(AluOperation::DecimalAdjust(result))
        .unwrap();
    assert_eq!(result.unwrap(), RegisterValue::from(0x42u8));
    assert_eq!(
        alu.flags(),
        AluFlags::from_bools(false, false, true, false, true)
    );

    // add 0x99 and 0x01, then decimal adjust; the low-nibble correction
    // carries out of bit 3, so the auxiliary carry ends up set
    let result = alu
        .evaluate(AluOperation::Add(
            RegisterValue::from(0x99u8),
            RegisterValue::from(0x01u8),
        ))
        .unwrap()
        .unwrap();
    let result = alu
        .evaluate(AluOperation::DecimalAdjust(result))
        .unwrap();
    assert_eq!(result.unwrap(), RegisterValue::from(0x00u8));
    assert_eq!(
        alu.flags(),
        AluFlags::from_bools(true, false, true, true, true)
    );
}

#[test]
fn alu_bitwise_and() {
    let mut alu = Alu::new();

    // test some hand-picked values for bitwise AND
    // bitwise AND 0x37 and 0xF0
    let result = alu
        .evaluate(AluOperation::BitwiseAnd(
            RegisterValue::from(0x37u8),
            RegisterValue::from(0xF0u8),
        ))
        .unwrap();
    assert_eq!(result.unwrap(), RegisterValue::from(0x30u8));
    assert_eq!(
        alu.flags(),
        AluFlags::from_bools(false, false, true, false, false)
    );

    // bitwise AND 0xFF and 0x00
    let result = alu
        .evaluate(AluOperation::BitwiseAnd(
            RegisterValue::from(0xFFu8),
            RegisterValue::from(0x00u8),
        ))
        .unwrap();
    assert_eq!(result.unwrap(), RegisterValue::from(0x00u8));
    assert_eq!(
        alu.flags(),
        AluFlags::from_bools(true, false, true, false, false)
    );
}

#[test]
fn alu_bitwise_xor() {
    let mut alu = Alu::new();

    // test some hand-picked values for bitwise XOR
    // bitwise XOR 0x55 and 0xFF
    let result = alu
        .evaluate(AluOperation::BitwiseXor(
            RegisterValue::from(0x55u8),
            RegisterValue::from(0xFFu8),
        ))
        .unwrap();
    assert_eq!(result.unwrap(), RegisterValue::from(0xAAu8));
    assert_eq!(
        alu.flags(),
        AluFlags::from_bools(false, true, true, false, false)
    );

    // bitwise XOR 0xAB and 0xAB
    let result = alu
        .evaluate(AluOperation::BitwiseXor(
            RegisterValue::from(0xABu8),
            RegisterValue::from(0xABu8),
        ))
        .unwrap();
    assert_eq!(result.unwrap(), RegisterValue::from(0x00u8));
    assert_eq!(
        alu.flags(),
        AluFlags::from_bools(true, false, true, false, false)
    );
}

#[test]
fn alu_bitwise_or() {
    let mut alu = Alu::new();

    // test some hand-picked values for bitwise OR
    // bitwise OR 0x55 and 0xAA
    let result = alu
        .evaluate(AluOperation::BitwiseOr(
            RegisterValue::from(0x55u8),
            RegisterValue::from(0xAAu8),
        ))
        .unwrap();
    assert_eq!(result.unwrap(), RegisterValue::from(0xFFu8));
    assert_eq!(
        alu.flags(),
        AluFlags::from_bools(false, true, true, false, false)
    );

    // bitwise OR 0x3A and 0x4A
    let result = alu
        .evaluate(AluOperation::BitwiseOr(
            RegisterValue::from(0x3Au8),
            RegisterValue::from(0x4Au8),
        ))
        .unwrap();
    assert_eq!(result.unwrap(), RegisterValue::from(0x7Au8));
    assert_eq!(
        alu.flags(),
        AluFlags::from_bools(false, false, false, false, false)
    );
}

#[test]
fn alu_comparison() {
    let mut alu = Alu::new();

    // test some hand-picked values for comparison
    // compare 5 and 5
    let result = alu
        .evaluate(AluOperation::Comparison(
            RegisterValue::from(5u8),
            RegisterValue::from(5u8),
        ))
        .unwrap();
    assert_eq!(result, None);
    assert_eq!(
        alu.flags(),
        AluFlags::from_bools(true, false, true, false, false)
    );

    // compare 6 and 5
    let result = alu
        .evaluate(AluOperation::Comparison(
            RegisterValue::from(6u8),
            RegisterValue::from(5u8),
        ))
        .unwrap();
    assert_eq!(result, None);
    assert_eq!(
        alu.flags(),
        AluFlags::from_bools(false, false, false, false, false)
    );

    // compare 4 and 5
    let result = alu
        .evaluate(AluOperation::Comparison(
            RegisterValue::from(4u8),
            RegisterValue::from(5u8),
        ))
        .unwrap();
    assert_eq!(result, None);
    assert_eq!(
        alu.flags(),
        AluFlags::from_bools(false, true, true, true, true)
    );
}

#[test]
fn alu_rotate_left() {
    let mut alu = Alu::new();

    // test some hand-picked values for left rotation
    // ensure that 8 rotations will result in the original number
    // rotate 1 left 8 times
    let mut result = RegisterValue::from(1u8);
    for _ in 0..8 {
        result = alu
            .evaluate(AluOperation::RotateLeft(result))
            .unwrap()
            .unwrap();
    }
    assert_eq!(result, RegisterValue::from(1u8));
    assert_eq!(
        alu.flags(),
        AluFlags::from_bools(false, false, false, true, false)
    );

    // rotate 0x55 left once
    let result = alu
        .evaluate(AluOperation::RotateLeft(RegisterValue::from(0x55u8)))
        .unwrap()
        .unwrap();
    assert_eq!(result, RegisterValue::from(0xAAu8));
    assert_eq!(
        alu.flags(),
        // even though the sign bit is 1 and the parity is even, only
        // the carry flag is modified during a rotation
        AluFlags::from_bools(false, false, false, false, false)
    );
}

#[test]
fn alu_rotate_right() {
    let mut alu = Alu::new();

    // test some hand-picked values for right rotation
    // ensure that 8 rotations will result in the original number
    // rotate 1 right 8 times
    let mut result = RegisterValue::from(1u8);
    for _ in 0..8 {
        result = alu
            .evaluate(AluOperation::RotateRight(result))
            .unwrap()
            .unwrap();
    }
    assert_eq!(result, RegisterValue::from(1u8));
    assert_eq!(
        alu.flags(),
        AluFlags::from_bools(false, false, false, false, false)
    );

    // rotate 0xAA right once
    let result = alu
        .evaluate(AluOperation::RotateRight(RegisterValue::from(0xAAu8)))
        .unwrap()
        .unwrap();
    assert_eq!(result, RegisterValue::from(0x55u8));
    assert_eq!(
        alu.flags(),
        AluFlags::from_bools(false, false, false, false, false)
    );
}

#[test]
fn alu_rotate_left_through_carry() {
    let mut alu = Alu::new();

    // test some hand-picked values for left rotation through carry
    // ensure that 9 rotations will result in the same number
    // rotate 1 left 9 times through carry
    let mut result = RegisterValue::from(1u8);
    for _ in 0..9 {
        result = alu
            .evaluate(AluOperation::RotateLeftThroughCarry(result))
            .unwrap()
            .unwrap();
    }
    assert_eq!(result, RegisterValue::from(1u8));
    assert_eq!(
        alu.flags(),
        AluFlags::from_bools(false, false, false, false, false)
    );

    // rotate 0xAA left through carry
    let result = alu
        .evaluate(AluOperation::RotateLeftThroughCarry(RegisterValue::from(
            0xAAu8,
        )))
        .unwrap()
        .unwrap();
    assert_eq!(result, RegisterValue::from(0x54u8));
    assert_eq!(
        alu.flags(),
        AluFlags::from_bools(false, false, false, true, false)
    );

    // rotate 0x54 left through carry
    let result = alu
        .evaluate(AluOperation::RotateLeftThroughCarry(RegisterValue::from(
            0x54u8,
        )))
        .unwrap()
        .unwrap();
    assert_eq!(result, RegisterValue::from(0xA9u8));
    assert_eq!(
        alu.flags(),
        AluFlags::from_bools(false, false, false, false, false)
    );
}

#[test]
fn alu_rotate_right_through_carry() {
    let mut alu = Alu::new();

    // test some hand-picked values for right rotation through carry
    // ensure that 9 rotations will result in the same number
    // rotate 1 right 9 times through carry
    let mut result = RegisterValue::from(1u8);
    for _ in 0..9 {
        result = alu
            .evaluate(AluOperation::RotateRightThroughCarry(result))
            .unwrap()
            .unwrap();
    }
    assert_eq!(result, RegisterValue::from(1u8));
    assert_eq!(
        alu.flags(),
        AluFlags::from_bools(false, false, false, false, false)
    );

    // rotate 0x55 right through carry
    let result = alu
        .evaluate(AluOperation::RotateRightThroughCarry(RegisterValue::from(
            0x55u8,
        )))
        .unwrap()
        .unwrap();
    assert_eq!(result, RegisterValue::from(0x2Au8));
    assert_eq!(
        alu.flags(),
        AluFlags::from_bools(false, false, false, true, false)
    );

    // rotate 0x2A left through carry
    let result = alu
        .evaluate(AluOperation::RotateRightThroughCarry(RegisterValue::from(
            0x2Au8,
        )))
        .unwrap()
        .unwrap();
    assert_eq!(result, RegisterValue::from(0x95u8));
    assert_eq!(
        alu.flags(),
        AluFlags::from_bools(false, false, false, false, false)
    );
}

#[test]
fn alu_complement() {
    let mut alu = Alu::new();

    // test some hand-picked values for complement (bitwise NOT)
    // complement 0x55
    let result = alu
        .evaluate(AluOperation::Complement(RegisterValue::from(0x55u8)))
        .unwrap()
        .unwrap();
    assert_eq!(result, RegisterValue::from(0xAAu8));
    assert_eq!(
        alu.flags(),
        AluFlags::new() // no flags should be updated
    );

    // complement 0xF0
    let result = alu
        .evaluate(AluOperation::Complement(RegisterValue::from(0xF0u8)))
        .unwrap()
        .unwrap();
    assert_eq!(result, RegisterValue::from(0x0Fu8));
    assert_eq!(
        alu.flags(),
        AluFlags::new() // no flags should be updated
    );
}

#[test]
fn alu_set_and_complement_carry() {
    let mut alu = Alu::new();

    // test out setting and complementing the carry flag
    // set the carry
    alu.evaluate(AluOperation::SetCarry).unwrap();
    assert_eq!(
        alu.flags(),
        AluFlags::from_bools(false, false, false, true, false)
    );

    // complement the carry
    alu.evaluate(AluOperation::ComplementCarry).unwrap();
    assert_eq!(
        alu.flags(),
        AluFlags::from_bools(false, false, false, false, false)
    );

    // complement the carry again
    alu.evaluate(AluOperation::ComplementCarry).unwrap();
    assert_eq!(
        alu.flags(),
        AluFlags::from_bools(false, false, false, true, false)
    );
}

#[test]
fn alu_wrong_width_operand_is_a_conversion_error() {
    let mut alu = Alu::new();

    // a 16-bit operand cannot feed an 8-bit operation
    let r = alu.evaluate(AluOperation::Add(
        RegisterValue::from(0x1234u16),
        RegisterValue::from(1u8),
    ));
    assert_eq!(r, Err(CpuError::Conversion));

    let r = alu.evaluate(AluOperation::DecimalAdjust(RegisterValue::from(0x1234u16)));
    assert_eq!(r, Err(CpuError::Conversion));

    // the failed operations left the ALU untouched
    assert_eq!(alu.accumulator(), RegisterValue::from(0u8));
    assert_eq!(alu.flags(), AluFlags::new());
}
