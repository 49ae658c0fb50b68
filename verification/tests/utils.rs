use i8080::utils::combine_values;
use i8080::utils::from_bits;
use i8080::utils::get_bits;
use i8080::utils::separate_values;

#[test]
fn utils_get_bits() {
    assert_eq!(get_bits(0b11001100), [1, 1, 0, 0, 1, 1, 0, 0]);

    assert_eq!(get_bits(0b01011010), [0, 1, 0, 1, 1, 0, 1, 0]);
}

#[test]
fn utils_from_bits() {
    assert_eq!(from_bits([1, 1, 0, 0, 1, 1, 0, 0]), 0b11001100u8);

    assert_eq!(from_bits([0, 1, 0, 1, 1, 0, 1, 0]), 0b01011010u8);
}

#[test]
fn utils_combine_values() {
    assert_eq!(combine_values(0xAB, 0xCD), 0xABCDu16);
}

#[test]
fn utils_separate_values() {
    assert_eq!(separate_values(0xABCD), (0xAB, 0xCD));
}

#[test]
fn utils_bits_round_trip() {
    for x in 0..=255u8 {
        assert_eq!(from_bits(get_bits(x)), x);
    }
}

#[test]
fn utils_combine_separate_round_trip() {
    for v in [0x0000u16, 0x0001, 0x00FF, 0x0100, 0x1234, 0xFFFE, 0xFFFF] {
        let (higher, lower) = separate_values(v);
        assert_eq!(combine_values(higher, lower), v);
    }
}
