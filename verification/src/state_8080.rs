use crate::parity::{parity_of, Parity};
use crate::sign::{sign_of, Sign};
use vstd::prelude::*;

verus! {

/// The processor's condition flags. `z`, `cy` and `ac` hold one bit each.
#[derive(Debug)]
pub struct ConditionCodes {
    pub z: u8,
    pub s: Sign,
    pub p: Parity,
    pub cy: u8,
    pub ac: u8,
    pub pad: u8,
}

/// Registers, flags and memory of the processor.
#[derive(Debug)]
pub struct State8080 {
    pub a: u8,
    pub b: u8,
    pub c: u8,
    pub d: u8,
    pub e: u8,
    pub h: u8,
    pub l: u8,
    pub sp: u16,
    pub pc: u16,
    pub memory: Vec<u8>,
    pub cc: ConditionCodes,
    pub int_enable: u8,
}

/// The mathematical value of a `State8080`: the same registers and flags, with
/// the memory as a sequence of bytes.
pub struct Machine {
    pub a: u8,
    pub b: u8,
    pub c: u8,
    pub d: u8,
    pub e: u8,
    pub h: u8,
    pub l: u8,
    pub sp: u16,
    pub pc: u16,
    pub mem: Seq<u8>,
    pub cc: ConditionCodes,
    pub int_enable: u8,
}

/// The upper eight bits of a 16-bit value.
#[verifier::opaque]
pub open spec fn high_byte(value: u16) -> u8 {
    (value / 256) as u8
}

/// The lower eight bits of a 16-bit value.
#[verifier::opaque]
pub open spec fn low_byte(value: u16) -> u8 {
    (value % 256) as u8
}

/// The 16-bit value with `high` in its upper and `low` in its lower eight bits.
#[verifier::opaque]
pub open spec fn word(high: u8, low: u8) -> u16 {
    (high * 256 + low) as u16
}

/// `x` reduced to sixteen bits.
#[verifier::opaque]
pub open spec fn wrap16(x: int) -> u16 {
    (x % 0x10000) as u16
}

/// `x` reduced to eight bits.
#[verifier::opaque]
pub open spec fn wrap8(x: int) -> u8 {
    (x % 0x100) as u8
}

/// 1 when `set` holds, else 0.
pub open spec fn flag(set: bool) -> u8 {
    if set {
        1
    } else {
        0
    }
}

impl ConditionCodes {
    /// Each of the flags kept as a number is a single bit.
    pub open spec fn wf(self) -> bool {
        self.z <= 1 && self.cy <= 1 && self.ac <= 1
    }

    /// The flags with zero, sign and parity taken from `result`.
    pub open spec fn with_zsp(self, result: u8) -> ConditionCodes {
        ConditionCodes { z: flag(result == 0), s: sign_of(result), p: parity_of(result), ..self }
    }

    /// The flags after an addition or subtraction whose exact result is
    /// `total`: zero, sign and parity of its low eight bits, and carry when it
    /// lies outside 0..=255.
    pub open spec fn with_arith(self, total: int) -> ConditionCodes {
        ConditionCodes { cy: flag(total < 0 || total > 255), ..self.with_zsp(wrap8(total)) }
    }

    /// The flags after a logical operation that gave `result`: zero, sign and
    /// parity of it, and carry cleared.
    pub open spec fn with_logic(self, result: u8) -> ConditionCodes {
        ConditionCodes { cy: 0, ..self.with_zsp(result) }
    }
}

impl View for State8080 {
    type V = Machine;

    open spec fn view(&self) -> Machine {
        Machine {
            a: self.a,
            b: self.b,
            c: self.c,
            d: self.d,
            e: self.e,
            h: self.h,
            l: self.l,
            sp: self.sp,
            pc: self.pc,
            mem: self.memory@,
            cc: self.cc,
            int_enable: self.int_enable,
        }
    }
}

impl Machine {
    /// The register pair B:C as one value.
    pub open spec fn bc(self) -> u16 {
        word(self.b, self.c)
    }

    /// The register pair D:E as one value.
    pub open spec fn de(self) -> u16 {
        word(self.d, self.e)
    }

    /// The register pair H:L as one value.
    pub open spec fn hl(self) -> u16 {
        word(self.h, self.l)
    }

    /// The machine with `value` in the register pair B:C.
    pub open spec fn with_bc(self, value: u16) -> Machine {
        Machine { b: high_byte(value), c: low_byte(value), ..self }
    }

    /// The machine with `value` in the register pair D:E.
    pub open spec fn with_de(self, value: u16) -> Machine {
        Machine { d: high_byte(value), e: low_byte(value), ..self }
    }

    /// The machine with `value` in the register pair H:L.
    pub open spec fn with_hl(self, value: u16) -> Machine {
        Machine { h: high_byte(value), l: low_byte(value), ..self }
    }

    /// The machine with the program counter at `value`.
    pub open spec fn with_pc(self, value: u16) -> Machine {
        Machine { pc: value, ..self }
    }

    /// The machine with the stack pointer at `value`.
    pub open spec fn with_sp(self, value: u16) -> Machine {
        Machine { sp: value, ..self }
    }

    /// The machine with `value` in the accumulator.
    pub open spec fn with_a(self, value: u8) -> Machine {
        Machine { a: value, ..self }
    }

    /// The machine with the flags `cc`.
    pub open spec fn with_cc(self, cc: ConditionCodes) -> Machine {
        Machine { cc: cc, ..self }
    }

    /// The program counter moved forward by `delta`, wrapping at 16 bits.
    pub open spec fn advance(self, delta: int) -> Machine {
        self.with_pc(wrap16(self.pc + delta))
    }

    /// Whether the memory holds a byte at `address`.
    pub open spec fn mapped(self, address: u16) -> bool {
        address < self.mem.len()
    }

    /// The byte at `address`.
    pub open spec fn read(self, address: u16) -> u8 {
        self.mem[address as int]
    }

    /// The machine with `value` stored at `address`.
    pub open spec fn write(self, address: u16, value: u8) -> Machine {
        Machine { mem: self.mem.update(address as int, value), ..self }
    }

    /// The 16-bit value stored at `address`, low byte first.
    pub open spec fn read_word(self, address: u16) -> u16 {
        word(self.read(wrap16(address + 1)), self.read(address))
    }

    /// The byte that H:L points at.
    pub open spec fn m(self) -> u8 {
        self.read(self.hl())
    }

    /// The accumulator and the flags after an addition or subtraction whose
    /// exact result is `total`.
    pub open spec fn with_sum(self, total: int) -> Machine {
        Machine { a: wrap8(total), cc: self.cc.with_arith(total), ..self }
    }

    /// The accumulator and the flags after a logical operation that gave
    /// `result`.
    pub open spec fn with_logic(self, result: u8) -> Machine {
        Machine { a: result, cc: self.cc.with_logic(result), ..self }
    }

    /// The flags after comparing the accumulator with `value`; the
    /// accumulator stays.
    pub open spec fn compared(self, value: u8) -> Machine {
        Machine { cc: self.cc.with_arith(self.a - value), ..self }
    }

    /// `high` stored just below the stack pointer, `low` below that, and the
    /// stack pointer lowered by two.
    pub open spec fn pushed(self, high: u8, low: u8) -> Machine {
        self.write(wrap16(self.sp - 1), high).write(wrap16(self.sp - 2), low).with_sp(
            wrap16(self.sp - 2),
        )
    }

    /// Whether both bytes that a push writes lie in the memory.
    pub open spec fn can_push(self) -> bool {
        self.mapped(wrap16(self.sp - 1)) && self.mapped(wrap16(self.sp - 2))
    }

    /// Whether both bytes that a pop reads lie in the memory.
    pub open spec fn can_pop(self) -> bool {
        self.mapped(self.sp) && self.mapped(wrap16(self.sp + 1))
    }

    /// The stack pointer raised by two.
    pub open spec fn popped(self) -> Machine {
        self.with_sp(wrap16(self.sp + 2))
    }

    /// The byte a pop returns as the high one.
    pub open spec fn top_high(self) -> u8 {
        self.read(wrap16(self.sp + 1))
    }

    /// The byte a pop returns as the low one.
    pub open spec fn top_low(self) -> u8 {
        self.read(self.sp)
    }

    /// The program counter pushed, and control moved to vector `n`.
    pub open spec fn interrupted(self, n: int) -> Machine {
        self.pushed(high_byte(self.pc), low_byte(self.pc)).with_pc((8 * n) as u16)
    }
}

/// A word is 256 times its high byte plus its low byte.
pub proof fn lemma_word_value(high: u8, low: u8, value: u16)
    ensures
        word(high, low) == 256 * high + low,
        value == 256 * high_byte(value) + low_byte(value),
{
    reveal(word);
    reveal(high_byte);
    reveal(low_byte);
}

/// A word splits into the bytes it was joined from, and joining the bytes of
/// a word gives the word back.
pub proof fn lemma_word_facts()
    ensures
        forall|high: u8, low: u8| #[trigger]
            high_byte(word(high, low)) == high && low_byte(word(high, low)) == low,
        forall|value: u16| #[trigger] word(high_byte(value), low_byte(value)) == value,
{
    reveal(word);
    reveal(high_byte);
    reveal(low_byte);
}

/// Reducing to 16 bits a value that lies less than one range outside them
/// adds or subtracts that range.
pub proof fn lemma_wrap16_facts()
    ensures
        forall|x: int|
            -0x10000 <= x < 0x20000 ==> #[trigger] wrap16(x) == (if x < 0 {
                x + 0x10000
            } else if x >= 0x10000 {
                x - 0x10000
            } else {
                x
            }),
{
    reveal(wrap16);
}

/// Reducing to 8 bits a value that lies less than one range outside them
/// adds or subtracts that range.
pub proof fn lemma_wrap8_facts()
    ensures
        forall|x: int|
            -0x100 <= x < 0x200 ==> #[trigger] wrap8(x) == (if x < 0 {
                x + 0x100
            } else if x >= 0x100 {
                x - 0x100
            } else {
                x
            }),
{
    reveal(wrap8);
}

/// Shifting and masking agree with the arithmetic that `word`, `high_byte` and
/// `low_byte` are written in.
pub proof fn lemma_word_bits(high: u8, low: u8, value: u16)
    ensures
        ((high as u16) << 8) | (low as u16) == word(high, low),
        (value & 0xff00) >> 8 == high_byte(value),
        value & 0x00ff == low_byte(value),
{
    reveal(word);
    reveal(high_byte);
    reveal(low_byte);
    assert(((high as u16) << 8) | (low as u16) == (high as u16) * 256 + (low as u16))
        by (bit_vector);
    assert((value & 0xff00) >> 8 == value / 256) by (bit_vector);
    assert(value & 0x00ff == value % 256) by (bit_vector);
}

/// `high` and `low` joined to a word.
fn join(high: u8, low: u8) -> (value: u16)
    ensures
        value == word(high, low),
{
    proof {
        lemma_word_bits(high, low, 0);
    }
    ((high as u16) << 8) | low as u16
}

/// The high byte of a word.
fn upper(value: u16) -> (high: u8)
    ensures
        high == high_byte(value),
{
    proof {
        lemma_word_bits(0, 0, value);
    }
    ((value & 0xff00) >> 8) as u8
}

/// The low byte of a word.
fn lower(value: u16) -> (low: u8)
    ensures
        low == low_byte(value),
{
    proof {
        lemma_word_bits(0, 0, value);
    }
    (value & 0x00ff) as u8
}

impl State8080 {
    /// The address of the next instruction.
    pub fn program_counter(&self) -> (pc: u16)
        ensures
            pc == self@.pc,
    {
        self.pc
    }

    /// Moves the program counter to `value`.
    pub fn set_program_counter(&mut self, value: u16)
        ensures
            final(self)@ == old(self)@.with_pc(value),
    {
        self.pc = value;
    }

    /// Moves the program counter forward by `delta`, wrapping at 16 bits.
    pub fn increment_program_counter(&mut self, delta: u16)
        ensures
            final(self)@ == old(self)@.advance(delta as int),
    {
        proof {
            lemma_wrap16_facts();
        }
        self.pc = self.pc.wrapping_add(delta);
    }

    /// The register pair B:C as one value, B in the high byte.
    pub fn bc(&self) -> (value: u16)
        ensures
            value == self@.bc(),
    {
        join(self.b, self.c)
    }

    /// Splits `result` over the register pair B:C, the high byte into B.
    pub fn set_bc(&mut self, result: u16)
        ensures
            final(self)@ == old(self)@.with_bc(result),
    {
        self.b = upper(result);
        self.c = lower(result);
    }

    /// The register pair D:E as one value, D in the high byte.
    pub fn de(&self) -> (value: u16)
        ensures
            value == self@.de(),
    {
        join(self.d, self.e)
    }

    /// Splits `result` over the register pair D:E, the high byte into D.
    pub fn set_de(&mut self, result: u16)
        ensures
            final(self)@ == old(self)@.with_de(result),
    {
        self.d = upper(result);
        self.e = lower(result);
    }

    /// The register pair H:L as one value, H in the high byte.
    pub fn hl(&self) -> (value: u16)
        ensures
            value == self@.hl(),
    {
        join(self.h, self.l)
    }

    /// Splits `result` over the register pair H:L, the high byte into H.
    pub fn set_hl(&mut self, result: u16)
        ensures
            final(self)@ == old(self)@.with_hl(result),
    {
        self.h = upper(result);
        self.l = lower(result);
    }

    /// Sets zero, sign and parity from the 8-bit value `total`, and carry
    /// from `carry`.
    fn set_arith_flags(&mut self, total: u16, carry: bool)
        requires
            total < 256,
        ensures
            final(self)@ == old(self)@.with_cc(
                (ConditionCodes { cy: flag(carry), ..old(self).cc.with_zsp(total as u8) }),
            ),
    {
        let answer: u8 = total as u8;
        self.cc.z = if answer == 0 { 1 } else { 0 };
        self.cc.s = Sign::get_sign(answer);
        self.cc.cy = if carry { 1 } else { 0 };
        self.cc.p = Parity::from(answer);
    }

    /// A <- A + value, with zero, sign, parity and carry set from the sum.
    pub fn add(&mut self, value: u8)
        ensures
            final(self)@ == old(self)@.with_sum(old(self).a + value),
    {
        proof {
            reveal(wrap8);
        }
        let answer: u16 = (self.a as u16) + (value as u16);
        let masked_answer: u16 = answer % 0x100;
        self.set_arith_flags(masked_answer, answer > 0xff);
        self.a = masked_answer as u8;
    }

    /// A <- A + value + CY, with zero, sign, parity and carry set from the sum.
    pub fn addc(&mut self, value: u8)
        ensures
            final(self)@ == old(self)@.with_sum(old(self).a + value + old(self).cc.cy),
    {
        proof {
            reveal(wrap8);
        }
        let answer: u16 = (self.a as u16) + (value as u16) + (self.cc.cy as u16);
        let masked_answer: u16 = answer % 0x100;
        self.set_arith_flags(masked_answer, answer > 0xff);
        self.a = masked_answer as u8;
    }

    /// A <- A - value, with zero, sign and parity set from the difference and
    /// carry set when a borrow was needed.
    pub fn sub(&mut self, value: u8)
        ensures
            final(self)@ == old(self)@.with_sum(old(self).a - value),
    {
        proof {
            lemma_wrap8_facts();
        }
        let answer: u8 = self.a.wrapping_sub(value);
        let borrow = self.a < value;
        self.set_arith_flags(answer as u16, borrow);
        self.a = answer;
    }

    /// A <- A - value - CY, with zero, sign and parity set from the difference
    /// and carry set when A is less than value + CY, the sum taken exactly.
    pub fn subb(&mut self, value: u8)
        ensures
            final(self)@ == old(self)@.with_sum(old(self).a - value - old(self).cc.cy),
    {
        proof {
            reveal(wrap8);
        }
        let subtrahend: u16 = value as u16 + self.cc.cy as u16;
        let minuend: u16 = self.a as u16;
        let answer: u16 = if minuend >= subtrahend {
            minuend - subtrahend
        } else if minuend + 0x100 >= subtrahend {
            minuend + 0x100 - subtrahend
        } else {
            minuend + 0x200 - subtrahend
        };
        self.set_arith_flags(answer, minuend < subtrahend);
        self.a = answer as u8;
    }

    /// Sets zero, sign and parity from `answer` and clears carry.
    fn set_logic_flags(&mut self, answer: u8)
        ensures
            final(self)@ == old(self)@.with_cc(old(self).cc.with_logic(answer)),
    {
        self.cc.z = if answer == 0 { 1 } else { 0 };
        self.cc.s = Sign::get_sign(answer);
        self.cc.cy = 0;
        self.cc.p = Parity::from(answer);
    }

    /// A <- A & value, with zero, sign and parity set from it and carry cleared.
    pub fn ana(&mut self, value: u8)
        ensures
            final(self)@ == old(self)@.with_logic(old(self).a & value),
    {
        let answer: u8 = self.a & value;
        self.set_logic_flags(answer);
        self.a = answer;
    }

    /// A <- A ^ value, with zero, sign and parity set from it and carry cleared.
    pub fn xra(&mut self, value: u8)
        ensures
            final(self)@ == old(self)@.with_logic(old(self).a ^ value),
    {
        let answer: u8 = self.a ^ value;
        self.set_logic_flags(answer);
        self.a = answer;
    }

    /// A <- A | value, with zero, sign and parity set from it and carry cleared.
    pub fn ora(&mut self, value: u8)
        ensures
            final(self)@ == old(self)@.with_logic(old(self).a | value),
    {
        let answer: u8 = self.a | value;
        self.set_logic_flags(answer);
        self.a = answer;
    }

    /// Sets the flags as `sub` does and leaves the accumulator as it is.
    pub fn compare(&mut self, value: u8)
        ensures
            final(self)@ == old(self)@.compared(value),
    {
        proof {
            lemma_wrap8_facts();
        }
        let answer: u8 = self.a.wrapping_sub(value);
        let borrow = self.a < value;
        self.set_arith_flags(answer as u16, borrow);
    }

    /// Lowers a register by one, wrapping at zero, and sets zero, sign and
    /// parity from the new value. Carry stays.
    pub fn decrement_register(register_value: &mut u8, cc: &mut ConditionCodes)
        ensures
            *final(register_value) == wrap8(*old(register_value) - 1),
            *final(cc) == old(cc).with_zsp(wrap8(*old(register_value) - 1)),
    {
        proof {
            lemma_wrap8_facts();
        }
        let answer: u8 = register_value.wrapping_sub(1);
        cc.z = if answer == 0 { 1 } else { 0 };
        cc.s = Sign::get_sign(answer);
        cc.p = Parity::from(answer);
        *register_value = answer;
    }

    /// Raises a register by one, wrapping at 255, and sets zero, sign and
    /// parity from the new value. Carry stays.
    pub fn increment_register(register_value: &mut u8, cc: &mut ConditionCodes)
        ensures
            *final(register_value) == wrap8(*old(register_value) + 1),
            *final(cc) == old(cc).with_zsp(wrap8(*old(register_value) + 1)),
    {
        proof {
            lemma_wrap8_facts();
        }
        let answer: u8 = register_value.wrapping_add(1);
        cc.z = if answer == 0 { 1 } else { 0 };
        cc.s = Sign::get_sign(answer);
        cc.p = Parity::from(answer);
        *register_value = answer;
    }

    /// Whether the processor takes interrupts.
    pub fn interrupt_enabled(&self) -> (enabled: bool)
        ensures
            enabled == (self@.int_enable != 0),
    {
        self.int_enable != 0
    }

    /// Lets the processor take interrupts.
    pub fn enable_interrupt(&mut self)
        ensures
            final(self)@ == (Machine { int_enable: 1, ..old(self)@ }),
    {
        self.int_enable = 1;
    }

    /// Stops the processor from taking interrupts.
    pub fn disable_interrupt(&mut self)
        ensures
            final(self)@ == (Machine { int_enable: 0, ..old(self)@ }),
    {
        self.int_enable = 0;
    }

    /// Pushes the program counter, high byte first, and moves control to
    /// vector `interrupt_num`, eight bytes per vector.
    pub fn generate_interrupt(&mut self, interrupt_num: u16)
        requires
            old(self)@.can_push(),
            8 * interrupt_num <= 0xffff,
        ensures
            final(self)@ == old(self)@.interrupted(interrupt_num as int),
    {
        proof {
            lemma_wrap16_facts();
        }
        let high = upper(self.pc);
        let low = lower(self.pc);
        self.push(high, low);
        self.pc = 8 * interrupt_num;
    }

    /// The byte at `address`, of which the low 16 bits count.
    pub fn read_memory(&self, address: usize) -> (value: u8)
        requires
            self@.mapped(wrap16(address as int)),
        ensures
            value == self@.read(wrap16(address as int)),
    {
        proof {
            reveal(wrap16);
        }
        self.memory[address % 0x10000]
    }

    /// Stores `value` at `address`, of which the low 16 bits count.
    pub fn write_memory(&mut self, address: usize, value: u8)
        requires
            old(self)@.mapped(wrap16(address as int)),
        ensures
            final(self)@ == old(self)@.write(wrap16(address as int), value),
    {
        proof {
            reveal(wrap16);
        }
        self.memory.set(address % 0x10000, value);
    }

    /// The byte that H:L points at.
    pub fn m(&self) -> (value: u8)
        requires
            self@.mapped(self@.hl()),
        ensures
            value == self@.m(),
    {
        proof {
            lemma_wrap16_facts();
        }
        self.read_memory(self.hl() as usize)
    }

    /// Stores `value` where H:L points.
    pub fn set_m(&mut self, value: u8)
        requires
            old(self)@.mapped(old(self)@.hl()),
        ensures
            final(self)@ == old(self)@.write(old(self)@.hl(), value),
    {
        proof {
            lemma_wrap16_facts();
        }
        self.write_memory(self.hl() as usize, value);
    }

    /// Stores `high` at SP-1 and `low` at SP-2, then lowers SP by two.
    pub fn push(&mut self, high: u8, low: u8)
        requires
            old(self)@.can_push(),
        ensures
            final(self)@ == old(self)@.pushed(high, low),
    {
        proof {
            lemma_wrap16_facts();
        }
        let first = self.sp.wrapping_sub(1);
        let second = self.sp.wrapping_sub(2);
        self.write_memory(first as usize, high);
        self.write_memory(second as usize, low);
        self.sp = second;
    }

    /// Reads the low byte at SP and the high byte at SP+1, then raises SP by
    /// two. Returns (high, low).
    pub fn pop(&mut self) -> (pair: (u8, u8))
        requires
            old(self)@.can_pop(),
        ensures
            pair == (old(self)@.top_high(), old(self)@.top_low()),
            final(self)@ == old(self)@.popped(),
    {
        proof {
            lemma_wrap16_facts();
        }
        let low = self.read_memory(self.sp as usize);
        let high = self.read_memory(self.sp.wrapping_add(1) as usize);
        self.sp = self.sp.wrapping_add(2);
        (high, low)
    }

    /// The value of `empty_state`: every register and flag cleared, and no
    /// memory.
    pub open spec fn empty_machine() -> Machine {
        Machine {
            a: 0,
            b: 0,
            c: 0,
            d: 0,
            e: 0,
            h: 0,
            l: 0,
            sp: 0,
            pc: 0,
            mem: Seq::<u8>::empty(),
            cc: ConditionCodes { z: 0, s: Sign::Positive, p: Parity::Odd, cy: 0, ac: 0, pad: 0 },
            int_enable: 0,
        }
    }

    /// A state with every register and flag cleared and no memory.
    pub fn empty_state() -> (state: State8080)
        ensures
            state@ == State8080::empty_machine(),
    {
        State8080 {
            a: 0,
            b: 0,
            c: 0,
            d: 0,
            e: 0,
            h: 0,
            l: 0,
            cc: ConditionCodes { ac: 0, cy: 0, p: Parity::Odd, pad: 0, s: Sign::Positive, z: 0 },
            int_enable: 0,
            memory: Vec::new(),
            sp: 0,
            pc: 0,
        }
    }
}

} // verus!
