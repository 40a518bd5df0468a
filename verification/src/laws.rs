use crate::parity::parity_of;
use crate::semantics::{can_step, execute_high, execute_low, field_x, field_y, field_z, step};
use crate::sign::sign_of;
use crate::state_8080::{
    flag, lemma_word_bits, lemma_word_facts, lemma_wrap16_facts, lemma_wrap8_facts, word, wrap16,
    wrap8, ConditionCodes, Machine,
};
use vstd::prelude::*;

verus! {

/// Writing a value into a register pair and reading the pair gives the value
/// back, and the pair made of `high` and `low` reads as `high << 8 | low`,
/// with `high` in the first-named register.
pub proof fn lemma_pair_round_trip(m: Machine, high: u8, low: u8, value: u16)
    ensures
        m.with_bc(value).bc() == value,
        m.with_de(value).de() == value,
        m.with_hl(value).hl() == value,
        word(high, low) == (high as u16) << 8 | (low as u16),
        m.with_bc(word(high, low)).b == high && m.with_bc(word(high, low)).c == low,
        m.with_de(word(high, low)).d == high && m.with_de(word(high, low)).e == low,
        m.with_hl(word(high, low)).h == high && m.with_hl(word(high, low)).l == low,
{
    lemma_word_facts();
    lemma_word_bits(high, low, 0);
}

/// A push followed by a pop gives back the two bytes and the stack pointer,
/// wherever the stack pointer stands, as long as the two bytes below it lie
/// in the memory.
pub proof fn lemma_push_pop(m: Machine, high: u8, low: u8)
    requires
        m.can_push(),
    ensures
        m.pushed(high, low).can_pop(),
        m.pushed(high, low).top_high() == high,
        m.pushed(high, low).top_low() == low,
        m.pushed(high, low).popped().sp == m.sp,
        m.pushed(high, low).sp == wrap16(m.sp - 2),
{
    lemma_wrap16_facts();
}

/// With a memory that covers the whole address space and flags that are
/// single bits, every instruction can be executed.
pub proof fn lemma_full_memory_can_step(m: Machine)
    requires
        m.mem.len() >= 0x10000,
        m.cc.wf(),
    ensures
        can_step(m),
{
}

/// Whether `op` is an arithmetic or logical instruction on the accumulator,
/// with a register, memory or immediate operand.
pub open spec fn is_alu_opcode(op: u8) -> bool {
    field_x(op) == 2 || (field_x(op) == 3 && field_z(op) == 6)
}

/// The operand of the arithmetic or logical instruction that `m` is about to
/// execute: a register, the byte that H:L points at, or the byte behind the
/// opcode.
pub open spec fn alu_operand(m: Machine) -> u8 {
    if field_x(m.opcode()) == 2 {
        m.reg(field_z(m.opcode()))
    } else {
        m.read(wrap16(m.pc + 1))
    }
}

/// The exact result of operation `k` on accumulator `a` and operand `v` with
/// carry `cy`, before it is cut to eight bits: ADD, ADC, SUB, SBB, ANA, XRA,
/// ORA, CMP.
pub open spec fn alu_total(k: int, a: u8, v: u8, cy: u8) -> int {
    if k == 0 {
        a + v
    } else if k == 1 {
        a + v + cy
    } else if k == 2 || k == 7 {
        a - v
    } else if k == 3 {
        a - v - cy
    } else if k == 4 {
        (a & v) as int
    } else if k == 5 {
        (a ^ v) as int
    } else {
        (a | v) as int
    }
}

/// After an arithmetic or logical instruction the zero flag says whether the
/// 8-bit result is 0, the sign flag is its bit 7 and the parity flag is its
/// parity. Additions set carry when the sum passes 255, subtractions and
/// compare when the accumulator is less than what is taken from it, and the
/// logical instructions clear it. All but compare leave the result in the
/// accumulator.
pub proof fn lemma_flag_closure(m: Machine)
    requires
        is_alu_opcode(m.opcode()),
        m.cc.wf(),
    ensures
        ({
            let k = field_y(m.opcode());
            let a = m.a;
            let v = alu_operand(m);
            let cy = m.cc.cy;
            let result = wrap8(alu_total(k, a, v, cy));
            let after = step(m);
            &&& after.cc.z == flag(result == 0)
            &&& after.cc.s == sign_of(result)
            &&& after.cc.p == parity_of(result)
            &&& after.cc.wf()
            &&& k == 0 ==> after.cc.cy == flag(a + v > 255)
            &&& k == 1 ==> after.cc.cy == flag(a + v + cy > 255)
            &&& k == 2 || k == 7 ==> after.cc.cy == flag(a < v)
            &&& k == 3 ==> after.cc.cy == flag(a < v + cy)
            &&& 4 <= k <= 6 ==> after.cc.cy == 0
            &&& after.a == if k == 7 {
                a
            } else {
                result
            }
        }),
{
    lemma_wrap8_facts();
    lemma_wrap16_facts();
    reveal(execute_high);
}

/// JMP leaves the program counter at its 16-bit operand and changes nothing
/// else, whatever the flags hold.
pub proof fn lemma_jump(m: Machine)
    requires
        m.opcode() == 0xc3,
    ensures
        step(m) == m.with_pc(word(m.read(wrap16(m.pc + 2)), m.read(wrap16(m.pc + 1)))),
{
    lemma_wrap16_facts();
    reveal(execute_high);
}

/// Whether `m` is about to execute CALL, or a conditional call whose
/// condition holds.
pub open spec fn is_call(m: Machine) -> bool {
    let op = m.opcode();
    op == 0xcd || (field_x(op) == 3 && field_z(op) == 4 && m.condition(field_y(op)))
}

/// Whether `m` is about to execute RET, or a conditional return whose
/// condition holds.
pub open spec fn is_return(m: Machine) -> bool {
    let op = m.opcode();
    op == 0xc9 || (field_x(op) == 3 && field_z(op) == 0 && m.condition(field_y(op)))
}

/// A call moves control to its operand and lowers the stack pointer by two.
/// A return that finds the stack as the call left it moves control to the
/// address behind the call's three bytes and restores the stack pointer.
pub proof fn lemma_call_return(m: Machine, r: Machine)
    requires
        is_call(m),
        m.can_push(),
        is_return(r),
        r.sp == step(m).sp,
        r.top_low() == step(m).top_low(),
        r.top_high() == step(m).top_high(),
    ensures
        step(m).pc == word(m.read(wrap16(m.pc + 2)), m.read(wrap16(m.pc + 1))),
        step(m).sp == wrap16(m.sp - 2),
        step(r).pc == wrap16(m.pc + 3),
        step(r).sp == m.sp,
{
    lemma_wrap16_facts();
    lemma_word_facts();
    reveal(execute_high);
}

/// An instruction leaves the memory as large as it was and the flags single
/// bits.
pub proof fn lemma_step_preserves(m: Machine)
    requires
        can_step(m),
    ensures
        step(m).mem.len() == m.mem.len(),
        step(m).cc.wf(),
{
    let op = m.opcode();
    if field_x(op) == 0 {
        reveal(execute_low);
    } else if field_x(op) == 3 {
        reveal(execute_high);
    }
}

/// Packing the flags into a byte and unpacking the byte gives the flags
/// back, as long as each flag is a single bit.
pub proof fn lemma_psw_round_trip(cc: ConditionCodes)
    requires
        cc.wf(),
    ensures
        cc.from_psw(cc.psw()) == cc,
        cc.psw() % 2 == cc.cy,
        cc.psw() / 2 % 2 == 0,
        cc.psw() / 8 % 2 == 0,
        cc.psw() / 32 % 2 == 0,
{
}

} // verus!
