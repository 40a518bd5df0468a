use emu8080::sign::Sign;
use emu8080::sign::Sign::{Negative, Positive};

#[test]
fn sign_test_from() {
    assert_eq!(Sign::from(0), Positive);
    assert_eq!(Sign::from(1), Negative);
}

#[test]
fn sign_test_into() {
    assert_eq!(Into::<u8>::into(Positive), 0u8);
    assert_eq!(Into::<u8>::into(Negative), 1u8);
}

#[test]
fn get_sign_reads_bit_seven() {
    assert_eq!(Sign::get_sign(0x00), Positive);
    assert_eq!(Sign::get_sign(0x7f), Positive);
    assert_eq!(Sign::get_sign(0x80), Negative);
    assert_eq!(Sign::get_sign(0xff), Negative);
}

#[test]
fn sign_from_a_flag_bit_reads_bit_zero() {
    assert_eq!(Sign::from(0x80), Positive);
    assert_eq!(Sign::from(0x81), Negative);
}
