use crate::parity::{parity_bit, Parity};
use crate::sign::{sign_bit, Sign};
use crate::state_8080::{flag, high_byte, low_byte, word, wrap16, wrap8, ConditionCodes, Machine};
use vstd::prelude::*;

verus! {

/// Why an instruction did not complete.
#[derive(Debug, PartialEq, Eq, Clone, Copy, Structural)]
pub enum StepError {
    /// The instruction was HLT.
    Halt,
    /// The opcode, carried here, has no instruction behind it.
    Unimplemented(u8),
}

/// Bits 7 and 6 of an opcode: the quarter of the opcode table it lies in.
pub open spec fn field_x(op: u8) -> int {
    (op / 64) as int
}

/// Bits 5 to 3 of an opcode: a destination register, a condition or an
/// operation.
pub open spec fn field_y(op: u8) -> int {
    (op / 8 % 8) as int
}

/// Bits 2 to 0 of an opcode: a source register or the kind of instruction.
pub open spec fn field_z(op: u8) -> int {
    (op % 8) as int
}

/// Bits 5 and 4 of an opcode: a register pair.
pub open spec fn field_p(op: u8) -> int {
    (op / 16 % 4) as int
}

/// Bit 3 of an opcode.
pub open spec fn field_q(op: u8) -> int {
    (op / 8 % 2) as int
}

/// The opcodes that stop the interpreter with `StepError::Unimplemented`.
pub open spec fn unimplemented(op: u8) -> bool {
    op == 0x10 || op == 0x28 || op == 0xcb || op == 0xd9 || op == 0xdd || op == 0xed || op == 0xfd
}

/// The number of bytes an instruction occupies, its opcode included.
pub open spec fn instruction_length(op: u8) -> int {
    let x = field_x(op);
    let y = field_y(op);
    let z = field_z(op);
    if unimplemented(op) {
        1
    } else if x == 0 {
        if z == 1 && field_q(op) == 0 {
            3
        } else if z == 2 && y >= 4 {
            3
        } else if z == 6 {
            2
        } else {
            1
        }
    } else if x == 3 {
        if z == 2 || z == 4 || op == 0xc3 || op == 0xcd {
            3
        } else if z == 6 || op == 0xd3 || op == 0xdb {
            2
        } else {
            1
        }
    } else {
        1
    }
}

/// Whether the instruction reads or writes the byte that H:L points at.
pub open spec fn uses_m(op: u8) -> bool {
    let x = field_x(op);
    let y = field_y(op);
    let z = field_z(op);
    if x == 0 {
        y == 6 && (z == 4 || z == 5 || z == 6)
    } else if x == 1 {
        op != 0x76 && (y == 6 || z == 6)
    } else if x == 2 {
        z == 6
    } else {
        false
    }
}

/// The published number of clock cycles of an instruction. Conditional calls
/// and returns count as taken.
pub open spec fn cycles(op: u8) -> u32 {
    let x = field_x(op);
    let y = field_y(op);
    let z = field_z(op);
    let p = field_p(op);
    let q = field_q(op);
    if x == 0 {
        if z == 0 || z == 7 {
            4
        } else if z == 1 {
            10
        } else if z == 2 {
            if y < 4 {
                7
            } else if y < 6 {
                16
            } else {
                13
            }
        } else if z == 3 {
            5
        } else if z == 6 {
            if y == 6 {
                10
            } else {
                7
            }
        } else if y == 6 {
            10
        } else {
            5
        }
    } else if x == 1 {
        if y == 6 || z == 6 {
            7
        } else {
            5
        }
    } else if x == 2 {
        if z == 6 {
            7
        } else {
            4
        }
    } else if z == 0 || z == 7 {
        11
    } else if z == 1 {
        if q == 0 || p < 2 {
            10
        } else {
            5
        }
    } else if z == 2 {
        10
    } else if z == 3 {
        if y < 4 {
            10
        } else if y == 4 {
            18
        } else if y == 5 {
            5
        } else {
            4
        }
    } else if z == 4 {
        17
    } else if z == 5 {
        if q == 0 {
            11
        } else {
            17
        }
    } else {
        7
    }
}

/// What interpreting the instruction with opcode `op` reports: the cycles it
/// took, or why it did not complete.
pub open spec fn outcome(op: u8) -> Result<u32, StepError> {
    if op == 0x76 {
        Err(StepError::Halt)
    } else if unimplemented(op) {
        Err(StepError::Unimplemented(op))
    } else {
        Ok(cycles(op))
    }
}

impl ConditionCodes {
    /// The flags packed into one byte: carry in bit 0, parity in bit 2,
    /// auxiliary carry in bit 4, zero in bit 6 and sign in bit 7.
    pub open spec fn psw(self) -> u8 {
        (self.cy + 4 * parity_bit(self.p) + 16 * self.ac + 64 * self.z + 128 * sign_bit(
            self.s,
        )) as u8
    }

    /// The flags that a packed byte holds.
    pub open spec fn from_psw(self, psw: u8) -> ConditionCodes {
        ConditionCodes {
            cy: flag(psw % 2 == 1),
            p: if psw / 4 % 2 == 1 {
                Parity::Even
            } else {
                Parity::Odd
            },
            ac: flag(psw / 16 % 2 == 1),
            z: flag(psw / 64 % 2 == 1),
            s: if psw / 128 == 1 {
                Sign::Negative
            } else {
                Sign::Positive
            },
            ..self
        }
    }
}

impl Machine {
    /// The opcode that the program counter points at.
    pub open spec fn opcode(self) -> u8 {
        self.read(self.pc)
    }

    /// The byte operand of the instruction whose opcode lies just before the
    /// program counter.
    pub open spec fn immediate(self) -> u8 {
        self.read(self.pc)
    }

    /// The 16-bit operand of the instruction whose opcode lies just before
    /// the program counter, low byte first.
    pub open spec fn immediate_word(self) -> u16 {
        word(self.read(wrap16(self.pc + 1)), self.read(self.pc))
    }

    /// The value of register `r`, numbered as in an opcode: B, C, D, E, H, L,
    /// the byte that H:L points at, A.
    pub open spec fn reg(self, r: int) -> u8 {
        if r == 0 {
            self.b
        } else if r == 1 {
            self.c
        } else if r == 2 {
            self.d
        } else if r == 3 {
            self.e
        } else if r == 4 {
            self.h
        } else if r == 5 {
            self.l
        } else if r == 6 {
            self.m()
        } else {
            self.a
        }
    }

    /// The machine with `value` in register `r`.
    pub open spec fn with_reg(self, r: int, value: u8) -> Machine {
        if r == 0 {
            Machine { b: value, ..self }
        } else if r == 1 {
            Machine { c: value, ..self }
        } else if r == 2 {
            Machine { d: value, ..self }
        } else if r == 3 {
            Machine { e: value, ..self }
        } else if r == 4 {
            Machine { h: value, ..self }
        } else if r == 5 {
            Machine { l: value, ..self }
        } else if r == 6 {
            self.write(self.hl(), value)
        } else {
            Machine { a: value, ..self }
        }
    }

    /// The value of register pair `rp`, numbered as in an opcode: BC, DE, HL,
    /// SP.
    pub open spec fn pair(self, rp: int) -> u16 {
        if rp == 0 {
            self.bc()
        } else if rp == 1 {
            self.de()
        } else if rp == 2 {
            self.hl()
        } else {
            self.sp
        }
    }

    /// The machine with `value` in register pair `rp`.
    pub open spec fn with_pair(self, rp: int, value: u16) -> Machine {
        if rp == 0 {
            self.with_bc(value)
        } else if rp == 1 {
            self.with_de(value)
        } else if rp == 2 {
            self.with_hl(value)
        } else {
            self.with_sp(value)
        }
    }

    /// Whether condition `c` holds, numbered as in an opcode: NZ, Z, NC, C,
    /// PO, PE, P, M.
    pub open spec fn condition(self, c: int) -> bool {
        if c == 0 {
            self.cc.z == 0
        } else if c == 1 {
            self.cc.z != 0
        } else if c == 2 {
            self.cc.cy == 0
        } else if c == 3 {
            self.cc.cy != 0
        } else if c == 4 {
            self.cc.p == Parity::Odd
        } else if c == 5 {
            self.cc.p == Parity::Even
        } else if c == 6 {
            self.cc.s == Sign::Positive
        } else {
            self.cc.s == Sign::Negative
        }
    }

    /// The machine after arithmetic or logical operation `k` on the
    /// accumulator and `value`, numbered as in an opcode: ADD, ADC, SUB, SBB,
    /// ANA, XRA, ORA, CMP.
    pub open spec fn alu(self, k: int, value: u8) -> Machine {
        if k == 0 {
            self.with_sum(self.a + value)
        } else if k == 1 {
            self.with_sum(self.a + value + self.cc.cy)
        } else if k == 2 {
            self.with_sum(self.a - value)
        } else if k == 3 {
            self.with_sum(self.a - value - self.cc.cy)
        } else if k == 4 {
            self.with_logic(self.a & value)
        } else if k == 5 {
            self.with_logic(self.a ^ value)
        } else if k == 6 {
            self.with_logic(self.a | value)
        } else {
            self.compared(value)
        }
    }

    /// Register `r` raised (`delta` = 1) or lowered (`delta` = -1) by one,
    /// with zero, sign and parity set from the new value.
    pub open spec fn stepped_reg(self, r: int, delta: int) -> Machine {
        let value = wrap8(self.reg(r) + delta);
        self.with_cc(self.cc.with_zsp(value)).with_reg(r, value)
    }

    /// HL <- HL + `value`, with carry set when the sum passes 16 bits.
    pub open spec fn double_added(self, value: u16) -> Machine {
        let total = self.hl() + value;
        self.with_hl(wrap16(total)).with_cc((ConditionCodes { cy: flag(total > 0xffff), ..self.cc }))
    }

    /// The accumulator rotated or adjusted by operation `k`, numbered as in
    /// an opcode: RLC, RRC, RAL, RAR, DAA, CMA, STC, CMC.
    pub open spec fn accumulator_op(self, k: int) -> Machine {
        let a = self.a;
        let cy = self.cc.cy;
        if k == 0 {
            Machine {
                a: wrap8(a * 2 + a / 128),
                cc: ConditionCodes { cy: a / 128, ..self.cc },
                ..self
            }
        } else if k == 1 {
            Machine {
                a: (a / 2 + 128 * (a % 2)) as u8,
                cc: ConditionCodes { cy: a % 2, ..self.cc },
                ..self
            }
        } else if k == 2 {
            Machine { a: wrap8(a * 2 + cy), cc: ConditionCodes { cy: a / 128, ..self.cc }, ..self }
        } else if k == 3 {
            Machine {
                a: (a / 2 + 128 * cy) as u8,
                cc: ConditionCodes { cy: a % 2, ..self.cc },
                ..self
            }
        } else if k == 4 {
            self.decimal_adjusted()
        } else if k == 5 {
            Machine { a: (255 - a) as u8, ..self }
        } else if k == 6 {
            Machine { cc: ConditionCodes { cy: 1, ..self.cc }, ..self }
        } else {
            Machine { cc: ConditionCodes { cy: flag(cy == 0), ..self.cc }, ..self }
        }
    }

    /// The accumulator after decimal adjust: 6 is added when the low digit
    /// is above 9 or auxiliary carry is set, then 0x60 when the high digit
    /// is above 9 or carry is set. Each addition sets its flag when its
    /// digit passes 15.
    pub open spec fn decimal_adjusted(self) -> Machine {
        let low = self.a % 16;
        let fix_low = low > 9 || self.cc.ac != 0;
        let a1 = if fix_low {
            wrap8(self.a + 6)
        } else {
            self.a
        };
        let ac = if fix_low {
            flag(low + 6 > 15)
        } else {
            self.cc.ac
        };
        let high = a1 / 16;
        let fix_high = high > 9 || self.cc.cy != 0;
        let a2 = if fix_high {
            wrap8(a1 + 0x60)
        } else {
            a1
        };
        let cy = if fix_high {
            flag(high + 6 > 15)
        } else {
            self.cc.cy
        };
        Machine { a: a2, cc: ConditionCodes { ac: ac, cy: cy, ..self.cc }, ..self }
    }

    /// The 16-bit value on top of the stack.
    pub open spec fn top(self) -> u16 {
        word(self.top_high(), self.top_low())
    }

    /// Control moved to the address on top of the stack, which is removed.
    pub open spec fn returned(self) -> Machine {
        self.popped().with_pc(self.top())
    }

    /// The address behind the 16-bit operand pushed, and control moved to
    /// the operand.
    pub open spec fn called(self) -> Machine {
        let back = wrap16(self.pc + 2);
        self.pushed(high_byte(back), low_byte(back)).with_pc(self.immediate_word())
    }
}

/// The instructions in the first quarter of the opcode table: loads, stores,
/// 16-bit arithmetic, increments and the accumulator operations. `n` is the
/// machine with the program counter already behind the opcode `op`.
#[verifier::opaque]
pub open spec fn execute_low(n: Machine, op: u8) -> Machine {
    let y = field_y(op);
    let z = field_z(op);
    let p = field_p(op);
    let q = field_q(op);
    let address = n.immediate_word();
    if z == 0 {
        n
    } else if z == 1 {
        if q == 0 {
            n.with_pair(p, address).advance(2)
        } else {
            n.double_added(n.pair(p))
        }
    } else if z == 2 {
        if y == 0 {
            n.write(n.bc(), n.a)
        } else if y == 1 {
            n.with_a(n.read(n.bc()))
        } else if y == 2 {
            n.write(n.de(), n.a)
        } else if y == 3 {
            n.with_a(n.read(n.de()))
        } else if y == 4 {
            n.write(address, n.l).write(wrap16(address + 1), n.h).advance(2)
        } else if y == 5 {
            n.with_hl(n.read_word(address)).advance(2)
        } else if y == 6 {
            n.write(address, n.a).advance(2)
        } else {
            n.with_a(n.read(address)).advance(2)
        }
    } else if z == 3 {
        if q == 0 {
            n.with_pair(p, wrap16(n.pair(p) + 1))
        } else {
            n.with_pair(p, wrap16(n.pair(p) - 1))
        }
    } else if z == 4 {
        n.stepped_reg(y, 1)
    } else if z == 5 {
        n.stepped_reg(y, -1)
    } else if z == 6 {
        n.with_reg(y, n.immediate()).advance(1)
    } else {
        n.accumulator_op(y)
    }
}

/// The instructions in the last quarter of the opcode table: jumps, calls,
/// returns, the stack, immediate arithmetic and the rest. `n` is the machine
/// with the program counter already behind the opcode `op`.
#[verifier::opaque]
pub open spec fn execute_high(n: Machine, op: u8) -> Machine {
    let y = field_y(op);
    let z = field_z(op);
    let p = field_p(op);
    let q = field_q(op);
    if z == 0 {
        if n.condition(y) {
            n.returned()
        } else {
            n
        }
    } else if z == 1 {
        if q == 0 {
            if p == 3 {
                n.with_a(n.top_high()).with_cc(n.cc.from_psw(n.top_low())).popped()
            } else {
                n.with_pair(p, n.top()).popped()
            }
        } else if p == 0 {
            n.returned()
        } else if p == 2 {
            n.with_pc(n.hl())
        } else {
            n.with_sp(n.hl())
        }
    } else if z == 2 {
        if n.condition(y) {
            n.with_pc(n.immediate_word())
        } else {
            n.advance(2)
        }
    } else if z == 3 {
        if y == 0 {
            n.with_pc(n.immediate_word())
        } else if y == 2 || y == 3 {
            n.advance(1)
        } else if y == 4 {
            n.write(n.sp, n.l).write(wrap16(n.sp + 1), n.h).with_hl(n.top())
        } else if y == 5 {
            n.with_hl(n.de()).with_de(n.hl())
        } else if y == 6 {
            Machine { int_enable: 0, ..n }
        } else {
            Machine { int_enable: 1, ..n }
        }
    } else if z == 4 {
        if n.condition(y) {
            n.called()
        } else {
            n.advance(2)
        }
    } else if z == 5 {
        if q == 1 {
            n.called()
        } else if p == 3 {
            n.pushed(n.a, n.cc.psw())
        } else {
            n.pushed(high_byte(n.pair(p)), low_byte(n.pair(p)))
        }
    } else if z == 6 {
        n.alu(y, n.immediate()).advance(1)
    } else {
        n.interrupted(y)
    }
}

/// The machine after the instruction that the program counter points at: the
/// program counter moves behind the opcode, then the instruction does its
/// work, which may move the program counter further or replace it. HLT and
/// the opcodes without an instruction do nothing more.
pub open spec fn step(m: Machine) -> Machine {
    let op = m.opcode();
    let x = field_x(op);
    let n = m.advance(1);
    if op == 0x76 || unimplemented(op) {
        n
    } else if x == 0 {
        execute_low(n, op)
    } else if x == 1 {
        n.with_reg(field_y(op), n.reg(field_z(op)))
    } else if x == 2 {
        n.alu(field_y(op), n.reg(field_z(op)))
    } else {
        execute_high(n, op)
    }
}

/// Whether the instruction reads the two bytes on top of the stack.
pub open spec fn reads_stack(m: Machine) -> bool {
    let op = m.opcode();
    field_x(op) == 3 && !unimplemented(op) && ((field_z(op) == 0 && m.condition(field_y(op)))
        || (field_z(op) == 1 && field_q(op) == 0) || op == 0xc9 || op == 0xe3)
}

/// Whether the instruction writes two bytes below the stack pointer.
pub open spec fn writes_stack(m: Machine) -> bool {
    let op = m.opcode();
    field_x(op) == 3 && !unimplemented(op) && ((field_z(op) == 4 && m.condition(field_y(op)))
        || field_z(op) == 5 || field_z(op) == 7)
}

/// Whether every byte that the next instruction touches lies in the memory,
/// and the flags are single bits: the states from which `step` is defined.
pub open spec fn can_step(m: Machine) -> bool {
    let op = m.opcode();
    let length = instruction_length(op);
    let n = m.advance(1);
    let address = n.immediate_word();
    &&& m.cc.wf()
    &&& m.mapped(m.pc)
    &&& (length >= 2 ==> m.mapped(n.pc))
    &&& (length == 3 ==> m.mapped(wrap16(n.pc + 1)))
    &&& (uses_m(op) ==> m.mapped(m.hl()))
    &&& (op == 0x02 || op == 0x0a ==> m.mapped(m.bc()))
    &&& (op == 0x12 || op == 0x1a ==> m.mapped(m.de()))
    &&& (op == 0x22 || op == 0x2a || op == 0x32 || op == 0x3a ==> m.mapped(address))
    &&& (op == 0x22 || op == 0x2a ==> m.mapped(wrap16(address + 1)))
    &&& (reads_stack(m) ==> m.can_pop())
    &&& (writes_stack(m) ==> m.can_push())
}

/// The machine after instructions are executed from `m` until one reports
/// an error or `limit` of them have completed, and the error that stopped
/// the run, if one did.
pub open spec fn run_spec(m: Machine, limit: nat) -> (Machine, Option<StepError>)
    decreases limit,
{
    if limit == 0 {
        (m, None)
    } else {
        match outcome(m.opcode()) {
            Err(error) => (step(m), Some(error)),
            Ok(_) => run_spec(step(m), (limit - 1) as nat),
        }
    }
}

} // verus!
