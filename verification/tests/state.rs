use emu8080::parity::Parity;
use emu8080::sign::Sign;
use emu8080::state_8080::{ConditionCodes, State8080};

fn state_with_memory() -> State8080 {
    let mut state = State8080::empty_state();
    state.memory = vec![0; 0x10000];
    state
}

#[test]
fn empty_state_is_cleared() {
    let state = State8080::empty_state();
    assert_eq!(state.a, 0);
    assert_eq!(state.bc(), 0);
    assert_eq!(state.de(), 0);
    assert_eq!(state.hl(), 0);
    assert_eq!(state.sp, 0);
    assert_eq!(state.program_counter(), 0);
    assert!(state.memory.is_empty());
    assert_eq!(state.cc.z, 0);
    assert_eq!(state.cc.cy, 0);
    assert_eq!(state.cc.ac, 0);
    assert_eq!(state.cc.p, Parity::Odd);
    assert_eq!(state.cc.s, Sign::Positive);
    assert!(!state.interrupt_enabled());
}

#[test]
fn register_pairs_hold_the_high_byte_first() {
    let mut state = State8080::empty_state();
    state.set_bc(0x1234);
    assert_eq!((state.b, state.c), (0x12, 0x34));
    assert_eq!(state.bc(), 0x1234);
    state.set_de(0xabcd);
    assert_eq!((state.d, state.e), (0xab, 0xcd));
    assert_eq!(state.de(), 0xabcd);
    state.set_hl(0xff00);
    assert_eq!((state.h, state.l), (0xff, 0x00));
    assert_eq!(state.hl(), 0xff00);
}

#[test]
fn register_pairs_round_trip_for_every_value() {
    let mut state = State8080::empty_state();
    for hi in 0..=255u16 {
        for lo in [0u16, 1, 0x7f, 0x80, 0xff] {
            let value = (hi << 8) | lo;
            state.set_bc(value);
            state.set_de(value);
            state.set_hl(value);
            assert_eq!(state.bc(), value);
            assert_eq!(state.de(), value);
            assert_eq!(state.hl(), value);
            assert_eq!((state.b as u16, state.c as u16), (hi, lo));
            assert_eq!((state.d as u16, state.e as u16), (hi, lo));
            assert_eq!((state.h as u16, state.l as u16), (hi, lo));
        }
    }
}

#[test]
fn program_counter_moves_and_wraps() {
    let mut state = State8080::empty_state();
    state.set_program_counter(0x1000);
    assert_eq!(state.program_counter(), 0x1000);
    state.increment_program_counter(3);
    assert_eq!(state.program_counter(), 0x1003);
    state.set_program_counter(0xffff);
    state.increment_program_counter(2);
    assert_eq!(state.program_counter(), 0x0001);
}

#[test]
fn memory_addresses_count_sixteen_bits() {
    let mut state = state_with_memory();
    state.write_memory(0x2400, 0x5a);
    assert_eq!(state.read_memory(0x2400), 0x5a);
    assert_eq!(state.read_memory(0x12400), 0x5a);
    state.write_memory(0x10005, 0x77);
    assert_eq!(state.read_memory(0x0005), 0x77);
}

#[test]
fn push_then_pop_gives_the_bytes_and_the_stack_pointer_back() {
    let mut state = state_with_memory();
    state.sp = 0x2400;
    state.push(0x12, 0x34);
    assert_eq!(state.sp, 0x23fe);
    assert_eq!(state.read_memory(0x23ff), 0x12);
    assert_eq!(state.read_memory(0x23fe), 0x34);
    assert_eq!(state.pop(), (0x12, 0x34));
    assert_eq!(state.sp, 0x2400);
}

#[test]
fn push_and_pop_wrap_around_the_address_space() {
    let mut state = state_with_memory();
    state.sp = 0x0001;
    state.push(0xab, 0xcd);
    assert_eq!(state.sp, 0xffff);
    assert_eq!(state.read_memory(0x0000), 0xab);
    assert_eq!(state.read_memory(0xffff), 0xcd);
    assert_eq!(state.pop(), (0xab, 0xcd));
    assert_eq!(state.sp, 0x0001);
}

#[test]
fn generate_interrupt_pushes_the_program_counter() {
    let mut state = state_with_memory();
    state.sp = 0x2400;
    state.set_program_counter(0x1a2b);
    state.generate_interrupt(2);
    assert_eq!(state.program_counter(), 0x0010);
    assert_eq!(state.sp, 0x23fe);
    assert_eq!(state.read_memory(0x23ff), 0x1a);
    assert_eq!(state.read_memory(0x23fe), 0x2b);
    state.generate_interrupt(7);
    assert_eq!(state.program_counter(), 0x0038);
}

#[test]
fn interrupt_switch() {
    let mut state = State8080::empty_state();
    state.enable_interrupt();
    assert!(state.interrupt_enabled());
    state.disable_interrupt();
    assert!(!state.interrupt_enabled());
}

fn flags(state: &State8080) -> (u8, Sign, Parity, u8) {
    (state.cc.z, state.cc.s, state.cc.p, state.cc.cy)
}

#[test]
fn add_sets_carry_past_255() {
    let mut state = State8080::empty_state();
    state.a = 0xf0;
    state.add(0x20);
    assert_eq!(state.a, 0x10);
    assert_eq!(flags(&state), (0, Sign::Positive, Parity::Odd, 1));
    state.a = 0x80;
    state.add(0x80);
    assert_eq!(state.a, 0x00);
    assert_eq!(flags(&state), (1, Sign::Positive, Parity::Even, 1));
    state.a = 0x7f;
    state.add(0x01);
    assert_eq!(state.a, 0x80);
    assert_eq!(flags(&state), (0, Sign::Negative, Parity::Odd, 0));
}

#[test]
fn addc_adds_the_carry_in() {
    let mut state = State8080::empty_state();
    state.a = 0xff;
    state.cc.cy = 1;
    state.addc(0xff);
    assert_eq!(state.a, 0xff);
    assert_eq!(flags(&state), (0, Sign::Negative, Parity::Even, 1));
    state.a = 0x01;
    state.cc.cy = 0;
    state.addc(0x01);
    assert_eq!(state.a, 0x02);
    assert_eq!(flags(&state), (0, Sign::Positive, Parity::Odd, 0));
}

#[test]
fn sub_sets_carry_on_borrow() {
    let mut state = State8080::empty_state();
    state.a = 0x05;
    state.sub(0x06);
    assert_eq!(state.a, 0xff);
    assert_eq!(flags(&state), (0, Sign::Negative, Parity::Even, 1));
    state.a = 0x06;
    state.sub(0x06);
    assert_eq!(state.a, 0x00);
    assert_eq!(flags(&state), (1, Sign::Positive, Parity::Even, 0));
}

#[test]
fn subb_takes_the_carry_with_the_operand() {
    let mut state = State8080::empty_state();
    state.a = 0x05;
    state.cc.cy = 1;
    state.subb(0x04);
    assert_eq!(state.a, 0x00);
    assert_eq!(flags(&state), (1, Sign::Positive, Parity::Even, 0));
    state.a = 0x05;
    state.cc.cy = 1;
    state.subb(0x05);
    assert_eq!(state.a, 0xff);
    assert_eq!(flags(&state), (0, Sign::Negative, Parity::Even, 1));
}

#[test]
fn subb_borrows_when_operand_and_carry_pass_eight_bits() {
    let mut state = State8080::empty_state();
    state.a = 0x00;
    state.cc.cy = 1;
    state.subb(0xff);
    assert_eq!(state.a, 0x00);
    assert_eq!(flags(&state), (1, Sign::Positive, Parity::Even, 1));
    state.a = 0x10;
    state.cc.cy = 1;
    state.subb(0xff);
    assert_eq!(state.a, 0x10);
    assert_eq!(state.cc.cy, 1);
}

#[test]
fn logical_operations_clear_carry() {
    let mut state = State8080::empty_state();
    state.a = 0xfc;
    state.cc.cy = 1;
    state.ana(0x0f);
    assert_eq!(state.a, 0x0c);
    assert_eq!(flags(&state), (0, Sign::Positive, Parity::Even, 0));
    state.a = 0xff;
    state.cc.cy = 1;
    state.xra(0xff);
    assert_eq!(state.a, 0x00);
    assert_eq!(flags(&state), (1, Sign::Positive, Parity::Even, 0));
    state.a = 0x80;
    state.cc.cy = 1;
    state.ora(0x01);
    assert_eq!(state.a, 0x81);
    assert_eq!(flags(&state), (0, Sign::Negative, Parity::Even, 0));
}

#[test]
fn compare_leaves_the_accumulator() {
    let mut state = State8080::empty_state();
    state.a = 0x4a;
    state.compare(0x4b);
    assert_eq!(state.a, 0x4a);
    assert_eq!(flags(&state), (0, Sign::Negative, Parity::Even, 1));
    state.compare(0x4a);
    assert_eq!(state.a, 0x4a);
    assert_eq!(flags(&state), (1, Sign::Positive, Parity::Even, 0));
}

#[test]
fn increment_and_decrement_wrap_and_keep_carry() {
    let mut register = 0xffu8;
    let mut cc = ConditionCodes { z: 0, s: Sign::Negative, p: Parity::Odd, cy: 1, ac: 0, pad: 0 };
    State8080::increment_register(&mut register, &mut cc);
    assert_eq!(register, 0x00);
    assert_eq!((cc.z, cc.s, cc.p, cc.cy), (1, Sign::Positive, Parity::Even, 1));
    State8080::decrement_register(&mut register, &mut cc);
    assert_eq!(register, 0xff);
    assert_eq!((cc.z, cc.s, cc.p, cc.cy), (0, Sign::Negative, Parity::Even, 1));
    State8080::decrement_register(&mut register, &mut cc);
    assert_eq!(register, 0xfe);
    assert_eq!((cc.z, cc.s, cc.p, cc.cy), (0, Sign::Negative, Parity::Odd, 1));
}

#[test]
fn memory_through_hl() {
    let mut state = state_with_memory();
    state.set_hl(0x2001);
    state.set_m(0x99);
    assert_eq!(state.read_memory(0x2001), 0x99);
    assert_eq!(state.m(), 0x99);
}
