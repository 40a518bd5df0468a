use emu8080::parity::{parity, Parity};
use emu8080::parity::Parity::{Even, Odd};

#[test]
fn test_parity() {
    assert_eq!(parity(0), 1);
    assert_eq!(parity(1), 0);
    assert_eq!(parity(2), 0);
    assert_eq!(parity(3), 1);
    assert_eq!(parity(4), 0);
    assert_eq!(parity(5), 1);
    assert_eq!(parity(8), 0);
    assert_eq!(parity(16), 0);
    assert_eq!(parity(127), 0);
    assert_eq!(parity(128), 0);
    assert_eq!(parity(129), 1);
    assert_eq!(parity(254), 0);
    assert_eq!(parity(255), 1);
}

#[test]
fn parity_test_from() {
    assert_eq!(Parity::from(0), Even);
    assert_eq!(Parity::from(1), Odd);
    assert_eq!(Parity::from(255), Even);
}

#[test]
fn parity_test_into() {
    assert_eq!(Into::<u8>::into(Parity::Odd), 0u8);
    assert_eq!(Into::<u8>::into(Parity::Even), 1u8);
}

#[test]
fn parity_is_one_exactly_for_an_even_count_of_ones() {
    for x in 0..=255u8 {
        let even = x.count_ones() % 2 == 0;
        assert_eq!(parity(x), if even { 1 } else { 0 });
        assert_eq!(Parity::from(x), if even { Even } else { Odd });
    }
}
