use crate::laws::{lemma_full_memory_can_step, lemma_step_preserves};
use crate::parity::Parity;
use crate::semantics::{
    can_step, cycles, execute_high, execute_low, outcome, run_spec, step, unimplemented, StepError,
};
use crate::sign::Sign;
use crate::state_8080::{
    high_byte, lemma_word_bits, lemma_word_facts, lemma_wrap16_facts, lemma_wrap8_facts, low_byte,
    word, wrap16, wrap8, Machine, State8080,
};
use vstd::prelude::*;

verus! {

/// The published cycle count of each opcode.
pub const CYCLES: [u32; 256] = [
    4, 10, 7, 5, 5, 5, 7, 4, 4, 10, 7, 5, 5, 5, 7, 4,
    4, 10, 7, 5, 5, 5, 7, 4, 4, 10, 7, 5, 5, 5, 7, 4,
    4, 10, 16, 5, 5, 5, 7, 4, 4, 10, 16, 5, 5, 5, 7, 4,
    4, 10, 13, 5, 10, 10, 10, 4, 4, 10, 13, 5, 5, 5, 7, 4,
    5, 5, 5, 5, 5, 5, 7, 5, 5, 5, 5, 5, 5, 5, 7, 5,
    5, 5, 5, 5, 5, 5, 7, 5, 5, 5, 5, 5, 5, 5, 7, 5,
    5, 5, 5, 5, 5, 5, 7, 5, 5, 5, 5, 5, 5, 5, 7, 5,
    7, 7, 7, 7, 7, 7, 7, 7, 5, 5, 5, 5, 5, 5, 7, 5,
    4, 4, 4, 4, 4, 4, 7, 4, 4, 4, 4, 4, 4, 4, 7, 4,
    4, 4, 4, 4, 4, 4, 7, 4, 4, 4, 4, 4, 4, 4, 7, 4,
    4, 4, 4, 4, 4, 4, 7, 4, 4, 4, 4, 4, 4, 4, 7, 4,
    4, 4, 4, 4, 4, 4, 7, 4, 4, 4, 4, 4, 4, 4, 7, 4,
    11, 10, 10, 10, 17, 11, 7, 11, 11, 10, 10, 10, 17, 17, 7, 11,
    11, 10, 10, 10, 17, 11, 7, 11, 11, 10, 10, 10, 17, 17, 7, 11,
    11, 10, 10, 18, 17, 11, 7, 11, 11, 5, 10, 5, 17, 17, 7, 11,
    11, 10, 10, 4, 17, 11, 7, 11, 11, 5, 10, 4, 17, 17, 7, 11,
];

/// `a` rotated left by one bit: bit 7 comes back in as bit 0.
fn rotate_left(a: u8) -> (r: u8)
    ensures
        r == wrap8(a * 2 + a / 128),
{
    proof {
        reveal(wrap8);
    }
    assert((a << 1u8) | (a >> 7u8) == (a * 2 + a / 128) % 256) by (bit_vector);
    (a << 1u8) | (a >> 7u8)
}

/// `a` rotated right by one bit: bit 0 comes back in as bit 7.
fn rotate_right(a: u8) -> (r: u8)
    ensures
        r == a / 2 + 128 * (a % 2),
{
    assert((a >> 1u8) | (a << 7u8) == a / 2 + 128 * (a % 2)) by (bit_vector);
    (a >> 1u8) | (a << 7u8)
}

/// `a` moved left by one bit, with `carry` as the new bit 0.
fn shift_in_low(a: u8, carry: u8) -> (r: u8)
    requires
        carry <= 1,
    ensures
        r == wrap8(a * 2 + carry),
{
    proof {
        reveal(wrap8);
    }
    assert((a << 1u8) | (carry & 0x01) == (a * 2 + carry) % 256) by (bit_vector)
        requires
            carry <= 1,
    ;
    (a << 1u8) | (carry & 0x01)
}

/// `a` moved right by one bit, with `carry` as the new bit 7.
fn shift_in_high(a: u8, carry: u8) -> (r: u8)
    requires
        carry <= 1,
    ensures
        r == a / 2 + 128 * carry,
{
    assert((a >> 1u8) | ((carry << 7u8) & 0x80) == a / 2 + 128 * carry) by (bit_vector)
        requires
            carry <= 1,
    ;
    (a >> 1u8) | ((carry << 7u8) & 0x80)
}

/// Flipping every bit of a byte takes it from 255.
proof fn lemma_complement(a: u8)
    ensures
        !a == 255 - a,
{
    assert(!a == 255 - a) by (bit_vector);
}

impl State8080 {
    /// The 16-bit operand of the instruction at `program_counter`, low byte
    /// first.
    fn address_operand(&self, program_counter: usize) -> (address: u16)
        requires
            program_counter < 0x10000,
            self@.mapped(wrap16(program_counter + 1)),
            self@.mapped(wrap16(program_counter + 2)),
        ensures
            address == word(
                self@.read(wrap16(program_counter + 2)),
                self@.read(wrap16(program_counter + 1)),
            ),
    {
        proof {
            lemma_wrap16_facts();
        }
        let high = self.read_memory(program_counter + 2);
        let low = self.read_memory(program_counter + 1);
        proof {
            lemma_word_bits(high, low, 0);
        }
        ((high as u16) << 8) | low as u16
    }

    /// HL <- HL + value, with carry set when the sum passes 16 bits.
    fn double_add(&mut self, value: u16)
        ensures
            final(self)@ == old(self)@.double_added(value),
    {
        proof {
            lemma_wrap16_facts();
        }
        let result: u32 = self.hl() as u32 + value as u32;
        self.cc.cy = if result > 0xffff { 1 } else { 0 };
        self.set_hl((result % 0x10000) as u16);
    }

    /// Adjusts the accumulator to two decimal digits.
    fn decimal_adjust(&mut self)
        ensures
            final(self)@ == old(self)@.decimal_adjusted(),
    {
        proof {
            lemma_wrap8_facts();
        }
        let low: u8 = self.a % 16;
        if low > 9 || self.cc.ac != 0 {
            self.cc.ac = if low + 0x06 > 0xf { 1 } else { 0 };
            self.a = self.a.wrapping_add(0x06);
        }
        let high: u8 = self.a / 16;
        if high > 9 || self.cc.cy != 0 {
            self.cc.cy = if high + 0x06 > 0xf { 1 } else { 0 };
            self.a = self.a.wrapping_add(0x60);
        }
    }

    /// Moves control to the address on top of the stack and removes it.
    fn return_from_call(&mut self)
        requires
            old(self)@.can_pop(),
        ensures
            final(self)@ == old(self)@.returned(),
    {
        proof {
            lemma_wrap16_facts();
        }
        let (high, low) = self.pop();
        proof {
            lemma_word_bits(high, low, 0);
        }
        self.set_program_counter(((high as u16) << 8) | low as u16);
    }

    /// Pushes the address behind the three-byte instruction at
    /// `program_counter` and moves control to `target`.
    fn call(&mut self, target: u16, program_counter: usize)
        requires
            program_counter < 0x10000,
            old(self).pc == wrap16(program_counter + 1),
            old(self)@.can_push(),
        ensures
            final(self)@ == old(self)@.pushed(
                high_byte(wrap16(old(self).pc + 2)),
                low_byte(wrap16(old(self).pc + 2)),
            ).with_pc(target),
    {
        proof {
            lemma_wrap16_facts();
            reveal(high_byte);
            reveal(low_byte);
        }
        let ret: u16 = ((program_counter + 3) % 0x10000) as u16;
        self.push((ret / 0x100) as u8, (ret % 0x100) as u8);
        self.set_program_counter(target);
    }

    /// The flags as the byte that PUSH PSW stores.
    fn pack_flags(&self) -> (psw: u8)
        requires
            self.cc.wf(),
        ensures
            psw == self.cc.psw(),
    {
        let cy: u8 = self.cc.cy;
        let p: u8 = u8::from(self.cc.p);
        let ac: u8 = self.cc.ac;
        let z: u8 = self.cc.z;
        let s: u8 = u8::from(self.cc.s);
        assert(cy | p << 2u8 | ac << 4u8 | z << 6u8 | s << 7u8 == cy + 4 * p + 16 * ac + 64 * z + 128
            * s) by (bit_vector)
            requires
                cy <= 1,
                p <= 1,
                ac <= 1,
                z <= 1,
                s <= 1,
        ;
        cy | p << 2u8 | ac << 4u8 | z << 6u8 | s << 7u8
    }

    /// Sets the flags from the byte that POP PSW loads.
    fn unpack_flags(&mut self, psw: u8)
        ensures
            final(self)@ == old(self)@.with_cc(old(self).cc.from_psw(psw)),
    {
        assert((0x01 == (psw & 0x01)) == (psw % 2 == 1) && (0x04 == (psw & 0x04)) == (psw / 4 % 2
            == 1) && (0x10 == (psw & 0x10)) == (psw / 16 % 2 == 1) && (0x40 == (psw & 0x40)) == (psw
            / 64 % 2 == 1)) by (bit_vector);
        self.cc.cy = if 0x01 == (psw & 0x01) { 1 } else { 0 };
        self.cc.p = if 0x04 == (psw & 0x04) { Parity::Even } else { Parity::Odd };
        self.cc.ac = if 0x10 == (psw & 0x10) { 1 } else { 0 };
        self.cc.z = if 0x40 == (psw & 0x40) { 1 } else { 0 };
        self.cc.s = Sign::get_sign(psw);
    }
}

/// The published cycle count of the instruction with opcode `opcode`.
fn cycle_count(opcode: u8) -> (count: u32)
    ensures
        count == cycles(opcode),
{
    CYCLES[opcode as usize]
}

/// Opcodes 0x00 to 0x1f: loads, stores, increments and 16-bit arithmetic on B,
/// C, D and E, and the four rotates.
///
/// `before` is the machine as it was when the opcode was fetched; the program
/// counter has moved behind the opcode since.
#[verifier::rlimit(30)]
fn execute_00_to_1f(
    state: &mut State8080,
    opcode: u8,
    program_counter: usize,
    Ghost(before): Ghost<Machine>,
)
    requires
        can_step(before),
        old(state)@ == before.advance(1),
        opcode == before.opcode(),
        program_counter == before.pc,
        0x00 <= opcode <= 0x1f,
        !unimplemented(opcode),
    ensures
        final(state)@ == step(before),
{
    proof {
        reveal(execute_low);
        lemma_word_facts();
        lemma_wrap16_facts();
    }
    match opcode {
        0x00 => {}, // NOP
        0x01 => { // LXI B, D16
            state.b = state.read_memory(program_counter + 2);
            state.c = state.read_memory(program_counter + 1);
            state.increment_program_counter(2);
        },
        0x02 => { // STAX B
            let address = state.bc();
            state.write_memory(address as usize, state.a);
        },
        0x03 => { // INX B
            state.set_bc(state.bc().wrapping_add(1));
        },
        0x04 => { // INR B
            State8080::increment_register(&mut state.b, &mut state.cc);
        },
        0x05 => { // DCR B
            State8080::decrement_register(&mut state.b, &mut state.cc);
        },
        0x06 => { // MVI B, D8
            state.b = state.read_memory(program_counter + 1);
            state.increment_program_counter(1);
        },
        0x07 => { // RLC
            state.cc.cy = if state.a >= 0x80 { 1 } else { 0 };
            state.a = rotate_left(state.a);
        },
        0x08 => {}, // -
        0x09 => { // DAD B
            let value = state.bc();
            state.double_add(value);
        },
        0x0a => { // LDAX B
            state.a = state.read_memory(state.bc() as usize);
        },
        0x0b => { // DCX B
            state.set_bc(state.bc().wrapping_sub(1));
        },
        0x0c => { // INR C
            State8080::increment_register(&mut state.c, &mut state.cc);
        },
        0x0d => { // DCR C
            State8080::decrement_register(&mut state.c, &mut state.cc);
        },
        0x0e => { // MVI C, D8
            state.c = state.read_memory(program_counter + 1);
            state.increment_program_counter(1);
        },
        0x0f => { // RRC
            state.cc.cy = state.a % 2;
            state.a = rotate_right(state.a);
        },
        0x11 => { // LXI D, D16
            state.d = state.read_memory(program_counter + 2);
            state.e = state.read_memory(program_counter + 1);
            state.increment_program_counter(2);
        },
        0x12 => { // STAX D
            let address = state.de();
            state.write_memory(address as usize, state.a);
        },
        0x13 => { // INX D
            state.set_de(state.de().wrapping_add(1));
        },
        0x14 => { // INR D
            State8080::increment_register(&mut state.d, &mut state.cc);
        },
        0x15 => { // DCR D
            State8080::decrement_register(&mut state.d, &mut state.cc);
        },
        0x16 => { // MVI D, D8
            state.d = state.read_memory(program_counter + 1);
            state.increment_program_counter(1);
        },
        0x17 => { // RAL
            let carry: u8 = state.cc.cy;
            state.cc.cy = state.a / 0x80;
            state.a = shift_in_low(state.a, carry);
        },
        0x18 => {}, // -
        0x19 => { // DAD D
            let value = state.de();
            state.double_add(value);
        },
        0x1a => { // LDAX D
            state.a = state.read_memory(state.de() as usize);
        },
        0x1b => { // DCX D
            state.set_de(state.de().wrapping_sub(1));
        },
        0x1c => { // INR E
            State8080::increment_register(&mut state.e, &mut state.cc);
        },
        0x1d => { // DCR E
            State8080::decrement_register(&mut state.e, &mut state.cc);
        },
        0x1e => { // MVI E, D8
            state.e = state.read_memory(program_counter + 1);
            state.increment_program_counter(1);
        },
        0x1f => { // RAR
            let carry: u8 = state.cc.cy;
            state.cc.cy = state.a % 2;
            state.a = shift_in_high(state.a, carry);
        },
        _ => {},
    }
}

/// Opcodes 0x20 to 0x3f: loads, stores, increments and 16-bit arithmetic on H,
/// L, memory, A and SP, decimal adjust, complement and the carry instructions.
///
/// `before` is the machine as it was when the opcode was fetched; the program
/// counter has moved behind the opcode since.
#[verifier::rlimit(30)]
fn execute_20_to_3f(
    state: &mut State8080,
    opcode: u8,
    program_counter: usize,
    Ghost(before): Ghost<Machine>,
)
    requires
        can_step(before),
        old(state)@ == before.advance(1),
        opcode == before.opcode(),
        program_counter == before.pc,
        0x20 <= opcode <= 0x3f,
        !unimplemented(opcode),
    ensures
        final(state)@ == step(before),
{
    proof {
        reveal(execute_low);
        lemma_word_facts();
        lemma_wrap16_facts();
    }
    match opcode {
        0x20 => {}, // -
        0x21 => { // LXI H, D16
            state.h = state.read_memory(program_counter + 2);
            state.l = state.read_memory(program_counter + 1);
            state.increment_program_counter(2);
        },
        0x22 => { // SHLD adr
            let address = state.address_operand(program_counter);
            state.write_memory(address as usize, state.l);
            state.write_memory(address.wrapping_add(1) as usize, state.h);
            state.increment_program_counter(2);
        },
        0x23 => { // INX H
            state.set_hl(state.hl().wrapping_add(1));
        },
        0x24 => { // INR H
            State8080::increment_register(&mut state.h, &mut state.cc);
        },
        0x25 => { // DCR H
            State8080::decrement_register(&mut state.h, &mut state.cc);
        },
        0x26 => { // MVI H, D8
            state.h = state.read_memory(program_counter + 1);
            state.increment_program_counter(1);
        },
        0x27 => { // DAA
            state.decimal_adjust();
        },
        0x29 => { // DAD H
            let value = state.hl();
            state.double_add(value);
        },
        0x2a => { // LHLD adr
            let address = state.address_operand(program_counter);
            state.l = state.read_memory(address as usize);
            state.h = state.read_memory(address.wrapping_add(1) as usize);
            state.increment_program_counter(2);
        },
        0x2b => { // DCX H
            state.set_hl(state.hl().wrapping_sub(1));
        },
        0x2c => { // INR L
            State8080::increment_register(&mut state.l, &mut state.cc);
        },
        0x2d => { // DCR L
            State8080::decrement_register(&mut state.l, &mut state.cc);
        },
        0x2e => { // MVI L, D8
            state.l = state.read_memory(program_counter + 1);
            state.increment_program_counter(1);
        },
        0x2f => { // CMA
            state.a = !state.a;
            proof {
                lemma_complement(old(state).a);
            }
        },
        0x30 => {}, // -
        0x31 => { // LXI SP, D16
            state.sp = state.address_operand(program_counter);
            state.increment_program_counter(2);
        },
        0x32 => { // STA adr
            let address = state.address_operand(program_counter);
            state.write_memory(address as usize, state.a);
            state.increment_program_counter(2);
        },
        0x33 => { // INX SP
            state.sp = state.sp.wrapping_add(1);
        },
        0x34 => { // INR M
            let mut value: u8 = state.m();
            State8080::increment_register(&mut value, &mut state.cc);
            state.set_m(value);
        },
        0x35 => { // DCR M
            let mut value: u8 = state.m();
            State8080::decrement_register(&mut value, &mut state.cc);
            state.set_m(value);
        },
        0x36 => { // MVI M, D8
            let value: u8 = state.read_memory(program_counter + 1);
            state.set_m(value);
            state.increment_program_counter(1);
        },
        0x37 => { // STC
            state.cc.cy = 1;
        },
        0x38 => {}, // -
        0x39 => { // DAD SP
            let value = state.sp;
            state.double_add(value);
        },
        0x3a => { // LDA adr
            let address = state.address_operand(program_counter);
            state.a = state.read_memory(address as usize);
            state.increment_program_counter(2);
        },
        0x3b => { // DCX SP
            state.sp = state.sp.wrapping_sub(1);
        },
        0x3c => { // INR A
            State8080::increment_register(&mut state.a, &mut state.cc);
        },
        0x3d => { // DCR A
            State8080::decrement_register(&mut state.a, &mut state.cc);
        },
        0x3e => { // MVI A, D8
            state.a = state.read_memory(program_counter + 1);
            state.increment_program_counter(1);
        },
        0x3f => { // CMC
            state.cc.cy = if state.cc.cy == 0 { 1 } else { 0 };
        },
        _ => {},
    }
}

/// Opcodes 0x40 to 0x7f but HLT: the moves between registers and memory.
///
/// `before` is the machine as it was when the opcode was fetched; the program
/// counter has moved behind the opcode since.
fn execute_mov(state: &mut State8080, opcode: u8, Ghost(before): Ghost<Machine>)
    requires
        can_step(before),
        old(state)@ == before.advance(1),
        opcode == before.opcode(),
        0x40 <= opcode <= 0x7f,
        opcode != 0x76,
    ensures
        final(state)@ == step(before),
{
    match opcode {
        0x40 => {}, // MOV B, B
        0x41 => { // MOV B, C
            state.b = state.c;
        },
        0x42 => { // MOV B, D
            state.b = state.d;
        },
        0x43 => { // MOV B, E
            state.b = state.e;
        },
        0x44 => { // MOV B, H
            state.b = state.h;
        },
        0x45 => { // MOV B, L
            state.b = state.l;
        },
        0x46 => { // MOV B, M
            state.b = state.m();
        },
        0x47 => { // MOV B, A
            state.b = state.a;
        },
        0x48 => { // MOV C, B
            state.c = state.b;
        },
        0x49 => {}, // MOV C, C
        0x4a => { // MOV C, D
            state.c = state.d;
        },
        0x4b => { // MOV C, E
            state.c = state.e;
        },
        0x4c => { // MOV C, H
            state.c = state.h;
        },
        0x4d => { // MOV C, L
            state.c = state.l;
        },
        0x4e => { // MOV C, M
            state.c = state.m();
        },
        0x4f => { // MOV C, A
            state.c = state.a;
        },
        0x50 => { // MOV D, B
            state.d = state.b;
        },
        0x51 => { // MOV D, C
            state.d = state.c;
        },
        0x52 => {}, // MOV D, D
        0x53 => { // MOV D, E
            state.d = state.e;
        },
        0x54 => { // MOV D, H
            state.d = state.h;
        },
        0x55 => { // MOV D, L
            state.d = state.l;
        },
        0x56 => { // MOV D, M
            state.d = state.m();
        },
        0x57 => { // MOV D, A
            state.d = state.a;
        },
        0x58 => { // MOV E, B
            state.e = state.b;
        },
        0x59 => { // MOV E, C
            state.e = state.c;
        },
        0x5a => { // MOV E, D
            state.e = state.d;
        },
        0x5b => {}, // MOV E, E
        0x5c => { // MOV E, H
            state.e = state.h;
        },
        0x5d => { // MOV E, L
            state.e = state.l;
        },
        0x5e => { // MOV E, M
            state.e = state.m();
        },
        0x5f => { // MOV E, A
            state.e = state.a;
        },
        0x60 => { // MOV H, B
            state.h = state.b;
        },
        0x61 => { // MOV H, C
            state.h = state.c;
        },
        0x62 => { // MOV H, D
            state.h = state.d;
        },
        0x63 => { // MOV H, E
            state.h = state.e;
        },
        0x64 => {}, // MOV H, H
        0x65 => { // MOV H, L
            state.h = state.l;
        },
        0x66 => { // MOV H, M
            state.h = state.m();
        },
        0x67 => { // MOV H, A
            state.h = state.a;
        },
        0x68 => { // MOV L, B
            state.l = state.b;
        },
        0x69 => { // MOV L, C
            state.l = state.c;
        },
        0x6a => { // MOV L, D
            state.l = state.d;
        },
        0x6b => { // MOV L, E
            state.l = state.e;
        },
        0x6c => { // MOV L, H
            state.l = state.h;
        },
        0x6d => {}, // MOV L, L
        0x6e => { // MOV L, M
            state.l = state.m();
        },
        0x6f => { // MOV L, A
            state.l = state.a;
        },
        0x70 => { // MOV M, B
            state.set_m(state.b);
        },
        0x71 => { // MOV M, C
            state.set_m(state.c);
        },
        0x72 => { // MOV M, D
            state.set_m(state.d);
        },
        0x73 => { // MOV M, E
            state.set_m(state.e);
        },
        0x74 => { // MOV M, H
            state.set_m(state.h);
        },
        0x75 => { // MOV M, L
            state.set_m(state.l);
        },
        0x77 => { // MOV M, A
            state.set_m(state.a);
        },
        0x78 => { // MOV A, B
            state.a = state.b;
        },
        0x79 => { // MOV A, C
            state.a = state.c;
        },
        0x7a => { // MOV A, D
            state.a = state.d;
        },
        0x7b => { // MOV A, E
            state.a = state.e;
        },
        0x7c => { // MOV A, H
            state.a = state.h;
        },
        0x7d => { // MOV A, L
            state.a = state.l;
        },
        0x7e => { // MOV A, M
            state.a = state.m();
        },
        0x7f => {}, // MOV A, A
        _ => {},
    }
}

/// Opcodes 0x80 to 0xbf: arithmetic and logic on the accumulator and a
/// register or memory.
///
/// `before` is the machine as it was when the opcode was fetched; the program
/// counter has moved behind the opcode since.
fn execute_alu(state: &mut State8080, opcode: u8, Ghost(before): Ghost<Machine>)
    requires
        can_step(before),
        old(state)@ == before.advance(1),
        opcode == before.opcode(),
        0x80 <= opcode <= 0xbf,
    ensures
        final(state)@ == step(before),
{
    match opcode {
        0x80 => { // ADD B
            state.add(state.b);
        },
        0x81 => { // ADD C
            state.add(state.c);
        },
        0x82 => { // ADD D
            state.add(state.d);
        },
        0x83 => { // ADD E
            state.add(state.e);
        },
        0x84 => { // ADD H
            state.add(state.h);
        },
        0x85 => { // ADD L
            state.add(state.l);
        },
        0x86 => { // ADD M
            let value: u8 = state.m();
            state.add(value);
        },
        0x87 => { // ADD A
            state.add(state.a);
        },
        0x88 => { // ADC B
            state.addc(state.b);
        },
        0x89 => { // ADC C
            state.addc(state.c);
        },
        0x8a => { // ADC D
            state.addc(state.d);
        },
        0x8b => { // ADC E
            state.addc(state.e);
        },
        0x8c => { // ADC H
            state.addc(state.h);
        },
        0x8d => { // ADC L
            state.addc(state.l);
        },
        0x8e => { // ADC M
            let value: u8 = state.m();
            state.addc(value);
        },
        0x8f => { // ADC A
            state.addc(state.a);
        },
        0x90 => { // SUB B
            state.sub(state.b);
        },
        0x91 => { // SUB C
            state.sub(state.c);
        },
        0x92 => { // SUB D
            state.sub(state.d);
        },
        0x93 => { // SUB E
            state.sub(state.e);
        },
        0x94 => { // SUB H
            state.sub(state.h);
        },
        0x95 => { // SUB L
            state.sub(state.l);
        },
        0x96 => { // SUB M
            let value: u8 = state.m();
            state.sub(value);
        },
        0x97 => { // SUB A
            state.sub(state.a);
        },
        0x98 => { // SBB B
            state.subb(state.b);
        },
        0x99 => { // SBB C
            state.subb(state.c);
        },
        0x9a => { // SBB D
            state.subb(state.d);
        },
        0x9b => { // SBB E
            state.subb(state.e);
        },
        0x9c => { // SBB H
            state.subb(state.h);
        },
        0x9d => { // SBB L
            state.subb(state.l);
        },
        0x9e => { // SBB M
            let value: u8 = state.m();
            state.subb(value);
        },
        0x9f => { // SBB A
            state.subb(state.a);
        },
        0xa0 => { // ANA B
            state.ana(state.b);
        },
        0xa1 => { // ANA C
            state.ana(state.c);
        },
        0xa2 => { // ANA D
            state.ana(state.d);
        },
        0xa3 => { // ANA E
            state.ana(state.e);
        },
        0xa4 => { // ANA H
            state.ana(state.h);
        },
        0xa5 => { // ANA L
            state.ana(state.l);
        },
        0xa6 => { // ANA M
            let value: u8 = state.m();
            state.ana(value);
        },
        0xa7 => { // ANA A
            state.ana(state.a);
        },
        0xa8 => { // XRA B
            state.xra(state.b);
        },
        0xa9 => { // XRA C
            state.xra(state.c);
        },
        0xaa => { // XRA D
            state.xra(state.d);
        },
        0xab => { // XRA E
            state.xra(state.e);
        },
        0xac => { // XRA H
            state.xra(state.h);
        },
        0xad => { // XRA L
            state.xra(state.l);
        },
        0xae => { // XRA M
            let value: u8 = state.m();
            state.xra(value);
        },
        0xaf => { // XRA A
            state.xra(state.a);
        },
        0xb0 => { // ORA B
            state.ora(state.b);
        },
        0xb1 => { // ORA C
            state.ora(state.c);
        },
        0xb2 => { // ORA D
            state.ora(state.d);
        },
        0xb3 => { // ORA E
            state.ora(state.e);
        },
        0xb4 => { // ORA H
            state.ora(state.h);
        },
        0xb5 => { // ORA L
            state.ora(state.l);
        },
        0xb6 => { // ORA M
            let value: u8 = state.m();
            state.ora(value);
        },
        0xb7 => { // ORA A
            state.ora(state.a);
        },
        0xb8 => { // CMP B
            state.compare(state.b);
        },
        0xb9 => { // CMP C
            state.compare(state.c);
        },
        0xba => { // CMP D
            state.compare(state.d);
        },
        0xbb => { // CMP E
            state.compare(state.e);
        },
        0xbc => { // CMP H
            state.compare(state.h);
        },
        0xbd => { // CMP L
            state.compare(state.l);
        },
        0xbe => { // CMP M
            let value: u8 = state.m();
            state.compare(value);
        },
        0xbf => { // CMP A
            state.compare(state.a);
        },
        _ => {},
    }
}

/// Opcodes 0xc0 to 0xdf: control transfer on the zero and carry flags, the
/// stack with BC and DE, immediate additions and subtractions, IN and OUT.
///
/// `before` is the machine as it was when the opcode was fetched; the program
/// counter has moved behind the opcode since.
#[verifier::rlimit(30)]
fn execute_c0_to_df(
    state: &mut State8080,
    opcode: u8,
    program_counter: usize,
    Ghost(before): Ghost<Machine>,
)
    requires
        can_step(before),
        old(state)@ == before.advance(1),
        opcode == before.opcode(),
        program_counter == before.pc,
        0xc0 <= opcode <= 0xdf,
        !unimplemented(opcode),
    ensures
        final(state)@ == step(before),
{
    proof {
        reveal(execute_high);
        lemma_word_facts();
        lemma_wrap16_facts();
    }
    match opcode {
        0xc0 => { // RNZ
            if state.cc.z == 0 {
                state.return_from_call();
            }
        },
        0xc1 => { // POP B
            let (high, low) = state.pop();
            state.b = high;
            state.c = low;
        },
        0xc2 => { // JNZ adr
            let target = state.address_operand(program_counter);
            if state.cc.z == 0 {
                state.set_program_counter(target);
            } else {
                state.increment_program_counter(2);
            }
        },
        0xc3 => { // JMP adr
            let target = state.address_operand(program_counter);
            state.set_program_counter(target);
        },
        0xc4 => { // CNZ adr
            let target = state.address_operand(program_counter);
            if state.cc.z == 0 {
                state.call(target, program_counter);
            } else {
                state.increment_program_counter(2);
            }
        },
        0xc5 => { // PUSH B
            state.push(state.b, state.c);
        },
        0xc6 => { // ADI D8
            let value: u8 = state.read_memory(program_counter + 1);
            state.add(value);
            state.increment_program_counter(1);
        },
        0xc7 => { // RST 0
            state.generate_interrupt(0);
        },
        0xc8 => { // RZ
            if state.cc.z != 0 {
                state.return_from_call();
            }
        },
        0xc9 => { // RET
            state.return_from_call();
        },
        0xca => { // JZ adr
            let target = state.address_operand(program_counter);
            if state.cc.z != 0 {
                state.set_program_counter(target);
            } else {
                state.increment_program_counter(2);
            }
        },
        0xcc => { // CZ adr
            let target = state.address_operand(program_counter);
            if state.cc.z != 0 {
                state.call(target, program_counter);
            } else {
                state.increment_program_counter(2);
            }
        },
        0xcd => { // CALL adr
            let target = state.address_operand(program_counter);
            state.call(target, program_counter);
        },
        0xce => { // ACI D8
            let value: u8 = state.read_memory(program_counter + 1);
            state.addc(value);
            state.increment_program_counter(1);
        },
        0xcf => { // RST 1
            state.generate_interrupt(1);
        },
        0xd0 => { // RNC
            if state.cc.cy == 0 {
                state.return_from_call();
            }
        },
        0xd1 => { // POP D
            let (high, low) = state.pop();
            state.d = high;
            state.e = low;
        },
        0xd2 => { // JNC adr
            let target = state.address_operand(program_counter);
            if state.cc.cy == 0 {
                state.set_program_counter(target);
            } else {
                state.increment_program_counter(2);
            }
        },
        0xd3 => { // OUT D8
            state.increment_program_counter(1);
        },
        0xd4 => { // CNC adr
            let target = state.address_operand(program_counter);
            if state.cc.cy == 0 {
                state.call(target, program_counter);
            } else {
                state.increment_program_counter(2);
            }
        },
        0xd5 => { // PUSH D
            state.push(state.d, state.e);
        },
        0xd6 => { // SUI D8
            let value: u8 = state.read_memory(program_counter + 1);
            state.sub(value);
            state.increment_program_counter(1);
        },
        0xd7 => { // RST 2
            state.generate_interrupt(2);
        },
        0xd8 => { // RC
            if state.cc.cy != 0 {
                state.return_from_call();
            }
        },
        0xda => { // JC adr
            let target = state.address_operand(program_counter);
            if state.cc.cy != 0 {
                state.set_program_counter(target);
            } else {
                state.increment_program_counter(2);
            }
        },
        0xdb => { // IN D8
            state.increment_program_counter(1);
        },
        0xdc => { // CC adr
            let target = state.address_operand(program_counter);
            if state.cc.cy != 0 {
                state.call(target, program_counter);
            } else {
                state.increment_program_counter(2);
            }
        },
        0xde => { // SBI D8
            let value: u8 = state.read_memory(program_counter + 1);
            state.subb(value);
            state.increment_program_counter(1);
        },
        0xdf => { // RST 3
            state.generate_interrupt(3);
        },
        _ => {},
    }
}

/// Opcodes 0xe0 to 0xff: control transfer on the parity and sign flags, the
/// stack with HL and the flags, immediate logic and compare, the exchanges and
/// the interrupt switch.
///
/// `before` is the machine as it was when the opcode was fetched; the program
/// counter has moved behind the opcode since.
#[verifier::rlimit(30)]
fn execute_e0_to_ff(
    state: &mut State8080,
    opcode: u8,
    program_counter: usize,
    Ghost(before): Ghost<Machine>,
)
    requires
        can_step(before),
        old(state)@ == before.advance(1),
        opcode == before.opcode(),
        program_counter == before.pc,
        0xe0 <= opcode <= 0xff,
        !unimplemented(opcode),
    ensures
        final(state)@ == step(before),
{
    proof {
        reveal(execute_high);
        lemma_word_facts();
        lemma_wrap16_facts();
    }
    match opcode {
        0xe0 => { // RPO
            if state.cc.p == Parity::Odd {
                state.return_from_call();
            }
        },
        0xe1 => { // POP H
            let (high, low) = state.pop();
            state.h = high;
            state.l = low;
        },
        0xe2 => { // JPO adr
            let target = state.address_operand(program_counter);
            if state.cc.p == Parity::Odd {
                state.set_program_counter(target);
            } else {
                state.increment_program_counter(2);
            }
        },
        0xe3 => { // XTHL
            let new_l = state.read_memory(state.sp as usize);
            let new_h = state.read_memory(state.sp.wrapping_add(1) as usize);
            state.write_memory(state.sp as usize, state.l);
            state.write_memory(state.sp.wrapping_add(1) as usize, state.h);
            state.h = new_h;
            state.l = new_l;
        },
        0xe4 => { // CPO adr
            let target = state.address_operand(program_counter);
            if state.cc.p == Parity::Odd {
                state.call(target, program_counter);
            } else {
                state.increment_program_counter(2);
            }
        },
        0xe5 => { // PUSH H
            state.push(state.h, state.l);
        },
        0xe6 => { // ANI D8
            let value: u8 = state.read_memory(program_counter + 1);
            state.ana(value);
            state.increment_program_counter(1);
        },
        0xe7 => { // RST 4
            state.generate_interrupt(4);
        },
        0xe8 => { // RPE
            if state.cc.p == Parity::Even {
                state.return_from_call();
            }
        },
        0xe9 => { // PCHL
            state.set_program_counter(state.hl());
        },
        0xea => { // JPE adr
            let target = state.address_operand(program_counter);
            if state.cc.p == Parity::Even {
                state.set_program_counter(target);
            } else {
                state.increment_program_counter(2);
            }
        },
        0xeb => { // XCHG
            let new_h = state.d;
            let new_l = state.e;
            state.d = state.h;
            state.e = state.l;
            state.h = new_h;
            state.l = new_l;
        },
        0xec => { // CPE adr
            let target = state.address_operand(program_counter);
            if state.cc.p == Parity::Even {
                state.call(target, program_counter);
            } else {
                state.increment_program_counter(2);
            }
        },
        0xee => { // XRI D8
            let value: u8 = state.read_memory(program_counter + 1);
            state.xra(value);
            state.increment_program_counter(1);
        },
        0xef => { // RST 5
            state.generate_interrupt(5);
        },
        0xf0 => { // RP
            if state.cc.s == Sign::Positive {
                state.return_from_call();
            }
        },
        0xf1 => { // POP PSW
            let (high, psw) = state.pop();
            state.a = high;
            state.unpack_flags(psw);
        },
        0xf2 => { // JP adr
            let target = state.address_operand(program_counter);
            if state.cc.s == Sign::Positive {
                state.set_program_counter(target);
            } else {
                state.increment_program_counter(2);
            }
        },
        0xf3 => { // DI
            state.disable_interrupt();
        },
        0xf4 => { // CP adr
            let target = state.address_operand(program_counter);
            if state.cc.s == Sign::Positive {
                state.call(target, program_counter);
            } else {
                state.increment_program_counter(2);
            }
        },
        0xf5 => { // PUSH PSW
            let psw: u8 = state.pack_flags();
            state.push(state.a, psw);
        },
        0xf6 => { // ORI D8
            let value: u8 = state.read_memory(program_counter + 1);
            state.ora(value);
            state.increment_program_counter(1);
        },
        0xf7 => { // RST 6
            state.generate_interrupt(6);
        },
        0xf8 => { // RM
            if state.cc.s == Sign::Negative {
                state.return_from_call();
            }
        },
        0xf9 => { // SPHL
            state.sp = state.hl();
        },
        0xfa => { // JM adr
            let target = state.address_operand(program_counter);
            if state.cc.s == Sign::Negative {
                state.set_program_counter(target);
            } else {
                state.increment_program_counter(2);
            }
        },
        0xfb => { // EI
            state.enable_interrupt();
        },
        0xfc => { // CM adr
            let target = state.address_operand(program_counter);
            if state.cc.s == Sign::Negative {
                state.call(target, program_counter);
            } else {
                state.increment_program_counter(2);
            }
        },
        0xfe => { // CPI D8
            let value: u8 = state.read_memory(program_counter + 1);
            state.compare(value);
            state.increment_program_counter(1);
        },
        0xff => { // RST 7
            state.generate_interrupt(7);
        },
        _ => {},
    }
}

/// Executes the instruction that the program counter points at and returns
/// the cycles it took. HLT and the opcodes without an instruction return an
/// error and leave the program counter just behind the opcode.
pub fn emulate_8080_op(state: &mut State8080) -> (result: Result<u32, StepError>)
    requires
        can_step(old(state)@),
    ensures
        final(state)@ == step(old(state)@),
        result == outcome(old(state)@.opcode()),
{
    proof {
        lemma_wrap16_facts();
    }
    let program_counter: usize = state.program_counter() as usize;
    let opcode: u8 = state.read_memory(program_counter);

    state.increment_program_counter(1);

    match opcode {
        0x76 => {
            return Err(StepError::Halt);
        },
        0x10 | 0x28 | 0xcb | 0xd9 | 0xdd | 0xed | 0xfd => {
            return Err(StepError::Unimplemented(opcode));
        },
        0x00..=0x1f => {
            execute_00_to_1f(state, opcode, program_counter, Ghost(old(state)@));
        },
        0x20..=0x3f => {
            execute_20_to_3f(state, opcode, program_counter, Ghost(old(state)@));
        },
        0x40..=0x7f => {
            execute_mov(state, opcode, Ghost(old(state)@));
        },
        0x80..=0xbf => {
            execute_alu(state, opcode, Ghost(old(state)@));
        },
        0xc0..=0xdf => {
            execute_c0_to_df(state, opcode, program_counter, Ghost(old(state)@));
        },
        0xe0..=0xff => {
            execute_e0_to_ff(state, opcode, program_counter, Ghost(old(state)@));
        },
    }
    Ok(cycle_count(opcode))
}

/// Executes instructions until one reports an error or `limit` of them have
/// completed. Returns the error that stopped the run, or `None` when the
/// limit was reached first.
pub fn run(state: &mut State8080, limit: u64) -> (end: Option<StepError>)
    requires
        old(state)@.mem.len() >= 0x10000,
        old(state)@.cc.wf(),
    ensures
        (final(state)@, end) == run_spec(old(state)@, limit as nat),
        final(state)@.mem.len() == old(state)@.mem.len(),
        final(state)@.cc.wf(),
{
    let mut done: u64 = 0;
    while done < limit
        invariant
            done <= limit,
            state@.mem.len() == old(state)@.mem.len(),
            state@.mem.len() >= 0x10000,
            state@.cc.wf(),
            run_spec(old(state)@, limit as nat) == run_spec(state@, (limit - done) as nat),
        decreases limit - done,
    {
        proof {
            lemma_full_memory_can_step(state@);
            lemma_step_preserves(state@);
        }
        match emulate_8080_op(state) {
            Ok(_) => {},
            Err(error) => {
                return Some(error);
            },
        }
        done += 1;
    }
    None
}

} // verus!
