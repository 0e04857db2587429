use vstd::prelude::*;

use crate::flags::{even_parity, Flags};

verus! {

/// Index of the accumulator in the register file.
pub const REG_A: usize = 0;
/// Index of register B.
pub const REG_B: usize = 1;
/// Index of register C.
pub const REG_C: usize = 2;
/// Index of register D.
pub const REG_D: usize = 3;
/// Index of register E.
pub const REG_E: usize = 4;
/// Index of register H (high byte of the memory pointer).
pub const REG_H: usize = 5;
/// Index of register L (low byte of the memory pointer).
pub const REG_L: usize = 6;
/// Operand index that names the memory byte addressed by H and L.
pub const OPERAND_M: usize = 7;

/// The abstract state of the processor: the seven byte registers
/// (A, B, C, D, E, H, L in that order), the stack pointer, the program
/// counter, the memory, the flags and the interrupt enable byte.
#[verifier::ext_equal]
pub struct State8080View {
    pub reg: Seq<u8>,
    pub sp: usize,
    pub pc: usize,
    pub memory: Seq<u8>,
    pub flags: Flags,
    pub int_enable: u8,
}

/// 1 for a set carry, 0 for a clear one.
pub open spec fn bit(b: bool) -> int {
    if b {
        1
    } else {
        0
    }
}

/// Sign flag of a byte: its top bit.
pub open spec fn sign(x: u8) -> bool {
    x >= 0x80
}

/// The 16-bit address `most * 256 + least`.
pub open spec fn address(least: u8, most: u8) -> int {
    most * 256 + least
}

/// Result and flags of adding `n` (and one more when `carry_in`) to `acc`.
pub open spec fn add_result(acc: u8, n: u8, carry_in: bool, f: Flags) -> (u8, Flags) {
    let sum = acc + n + bit(carry_in);
    let r = (sum % 256) as u8;
    (r, Flags { z: r == 0, s: sign(r), p: even_parity(r), cy: sum > 0xff, ac: acc % 16 + n % 16 > 0x0f })
}

/// Result and flags of subtracting `n` (and one more when `borrow_in`)
/// from `acc`, modulo 256.
pub open spec fn sub_result(acc: u8, n: u8, borrow_in: bool, f: Flags) -> (u8, Flags) {
    let r = ((acc - n - bit(borrow_in)) % 256) as u8;
    (r, Flags { z: r == 0, s: sign(r), p: even_parity(r), cy: n > acc, ac: n % 16 > acc % 16 })
}

/// Flags after comparing `acc` with `n`: those of the subtraction
/// `acc - n`, whose result is discarded.
pub open spec fn compare_flags(acc: u8, n: u8, f: Flags) -> Flags {
    sub_result(acc, n, false, f).1
}

/// Flags after a logical instruction leaves `r` in the accumulator:
/// carry cleared, auxiliary carry kept.
pub open spec fn logic_flags(r: u8, f: Flags) -> Flags {
    Flags { z: r == 0, s: sign(r), p: even_parity(r), cy: false, ac: f.ac }
}

/// Flags after an increment or decrement leaves `r`: carry kept,
/// auxiliary carry cleared.
pub open spec fn inc_dec_flags(r: u8, f: Flags) -> Flags {
    Flags { z: r == 0, s: sign(r), p: even_parity(r), cy: f.cy, ac: false }
}

/// Decimal adjustment of `acc` as the 8080 performs it: add 6 when the low
/// digit exceeds 9 or the auxiliary carry is set, then add 0x60 when the high
/// digit (counting any carry out of the first step) now exceeds 9 or the
/// carry is set, keeping the low eight bits. The auxiliary carry tells
/// whether the first step carried out of the low digit; the carry is set
/// when the second step carried out of the high digit and is otherwise kept.
pub open spec fn decimal_adjust_result(acc: u8, f: Flags) -> (u8, Flags) {
    let a1: int = if acc % 16 > 9 || f.ac { acc + 6 } else { acc as int };
    let a2: int = if a1 / 16 > 9 || f.cy { a1 + 0x60 } else { a1 };
    ((a2 % 256) as u8, Flags { ac: acc % 16 > 9, cy: f.cy || a1 / 16 > 9, ..f })
}

impl State8080View {
    /// The accumulator.
    pub open spec fn acc(self) -> u8 {
        self.reg[REG_A as int]
    }

    /// The memory index formed by H (high byte) and L (low byte).
    pub open spec fn hl_index(self) -> int {
        address(self.reg[REG_L as int], self.reg[REG_H as int])
    }

    /// Register `r` (0 to 6).
    pub open spec fn reg_at(self, r: usize) -> u8 {
        self.reg[r as int]
    }

    /// The memory byte addressed by H and L.
    pub open spec fn hl_byte(self) -> u8 {
        self.memory[self.hl_index()]
    }

    /// H and L address a byte of memory.
    pub open spec fn hl_in_memory(self) -> bool {
        self.hl_index() < self.memory.len()
    }

    /// Operand `r`: a register, or for 7 the memory byte at HL.
    pub open spec fn read(self, r: int) -> u8 {
        if r == OPERAND_M {
            self.hl_byte()
        } else {
            self.reg[r]
        }
    }

    /// The state with operand `r` set to `v`.
    pub open spec fn write(self, r: int, v: u8) -> State8080View {
        if r == OPERAND_M {
            State8080View { memory: self.memory.update(self.hl_index(), v), ..self }
        } else {
            State8080View { reg: self.reg.update(r, v), ..self }
        }
    }

    /// Operand `r` can be read and written.
    pub open spec fn operand_ok(self, r: int) -> bool {
        &&& 0 <= r <= OPERAND_M
        &&& r == OPERAND_M ==> self.hl_in_memory()
    }

    pub open spec fn with_flags(self, f: Flags) -> State8080View {
        State8080View { flags: f, ..self }
    }

    pub open spec fn with_acc(self, v: u8) -> State8080View {
        self.write(REG_A as int, v)
    }

    /// Accumulator and flags set from an ALU outcome.
    pub open spec fn with_outcome(self, outcome: (u8, Flags)) -> State8080View {
        self.with_acc(outcome.0).with_flags(outcome.1)
    }

    pub open spec fn add_op(self, n: u8, use_carry: bool) -> State8080View {
        self.with_outcome(add_result(self.acc(), n, use_carry && self.flags.cy, self.flags))
    }

    pub open spec fn sub_op(self, n: u8, use_carry: bool) -> State8080View {
        self.with_outcome(sub_result(self.acc(), n, use_carry && self.flags.cy, self.flags))
    }

    pub open spec fn cmp_op(self, n: u8) -> State8080View {
        self.with_flags(compare_flags(self.acc(), n, self.flags))
    }

    pub open spec fn and_op(self, n: u8) -> State8080View {
        let r = n & self.acc();
        self.with_acc(r).with_flags(logic_flags(r, self.flags))
    }

    pub open spec fn xor_op(self, n: u8) -> State8080View {
        let r = n ^ self.acc();
        self.with_acc(r).with_flags(logic_flags(r, self.flags))
    }

    pub open spec fn or_op(self, n: u8) -> State8080View {
        let r = n | self.acc();
        self.with_acc(r).with_flags(logic_flags(r, self.flags))
    }

    /// Operand `r` incremented modulo 256.
    pub open spec fn increment_op(self, r: int) -> State8080View {
        let v = ((self.read(r) + 1) % 256) as u8;
        self.write(r, v).with_flags(inc_dec_flags(v, self.flags))
    }

    /// Operand `r` decremented modulo 256.
    pub open spec fn decrement_op(self, r: int) -> State8080View {
        let v = ((self.read(r) - 1) % 256) as u8;
        self.write(r, v).with_flags(inc_dec_flags(v, self.flags))
    }

    pub open spec fn complement_acc_op(self) -> State8080View {
        self.with_acc((255 - self.acc()) as u8)
    }

    pub open spec fn set_carry_op(self, b: bool) -> State8080View {
        self.with_flags(Flags { cy: b, ..self.flags })
    }

    pub open spec fn complement_carry_op(self) -> State8080View {
        self.set_carry_op(!self.flags.cy)
    }

    /// Rotate left: the top bit goes to the carry; the bit entering at the
    /// bottom is the old carry when `use_carry`, else the old top bit.
    pub open spec fn rotate_left_op(self, use_carry: bool) -> State8080View {
        let a = self.acc();
        let low = if use_carry { bit(self.flags.cy) } else { bit(a >= 0x80) };
        self.with_acc(((a % 128) * 2 + low) as u8).set_carry_op(a >= 0x80)
    }

    /// Rotate right: the bottom bit goes to the carry; the bit entering at
    /// the top is the old carry when `use_carry`, else the old bottom bit.
    pub open spec fn rotate_right_op(self, use_carry: bool) -> State8080View {
        let a = self.acc();
        let high: int = if use_carry { bit(self.flags.cy) } else { (a % 2) as int };
        self.with_acc((a / 2 + high * 128) as u8).set_carry_op(a % 2 == 1)
    }

    pub open spec fn decimal_adjust_op(self) -> State8080View {
        self.with_outcome(decimal_adjust_result(self.acc(), self.flags))
    }

    /// A call can push its return address.
    pub open spec fn can_call(self) -> bool {
        self.can_push() && self.pc + 3 <= usize::MAX
    }

    /// The jump when `taken`, else nothing.
    pub open spec fn jump_if_op(self, taken: bool, least: u8, most: u8) -> State8080View {
        if taken {
            self.jump_op(least, most)
        } else {
            self
        }
    }

    /// The call when `taken`, else nothing.
    pub open spec fn call_if_op(self, taken: bool, least: u8, most: u8) -> State8080View {
        if taken {
            self.call_op(least, most)
        } else {
            self
        }
    }

    /// The return when `taken`, else nothing.
    pub open spec fn ret_if_op(self, taken: bool) -> State8080View {
        if taken {
            self.ret_op()
        } else {
            self
        }
    }

    pub open spec fn jump_op(self, least: u8, most: u8) -> State8080View {
        State8080View { pc: address(least, most) as usize, ..self }
    }

    pub open spec fn mov_op(self, source: int, dest: int) -> State8080View {
        self.write(dest, self.read(source))
    }

    /// The stack has room for two more bytes below `sp`.
    pub open spec fn can_push(self) -> bool {
        2 <= self.sp <= self.memory.len()
    }

    /// Two bytes can be read at `sp` and `sp + 1`.
    pub open spec fn can_pop(self) -> bool {
        self.sp + 1 < self.memory.len()
    }

    /// `most` stored at `sp - 1`, `least` at `sp - 2`, and `sp` lowered by two.
    pub open spec fn push_op(self, least: u8, most: u8) -> State8080View {
        State8080View {
            memory: self.memory.update(self.sp - 1, most).update(self.sp - 2, least),
            sp: (self.sp - 2) as usize,
            ..self
        }
    }

    /// L loaded from `sp`, H from `sp + 1`, and `sp` raised by two.
    pub open spec fn pop_op(self) -> State8080View {
        State8080View {
            reg: self.reg.update(REG_L as int, self.memory[self.sp as int]).update(
                REG_H as int,
                self.memory[self.sp + 1],
            ),
            sp: (self.sp + 2) as usize,
            ..self
        }
    }

    /// The pair `first`, `first + 1` pushed, `first` as the high byte.
    pub open spec fn push_reg_op(self, first: int) -> State8080View {
        self.push_op(self.reg[first + 1], self.reg[first])
    }

    /// The address of the instruction after a three-byte call, as 16 bits.
    pub open spec fn return_address(self) -> int {
        (self.pc + 3) % 0x10000
    }

    pub open spec fn call_op(self, least: u8, most: u8) -> State8080View {
        let ra = self.return_address();
        self.push_op((ra % 256) as u8, (ra / 256) as u8).jump_op(least, most)
    }

    pub open spec fn ret_op(self) -> State8080View {
        let t = self.pop_op();
        State8080View { pc: t.hl_index() as usize, ..t }
    }

    pub open spec fn advance_op(self, n: u8) -> State8080View {
        State8080View { pc: (self.pc + n) as usize, ..self }
    }
}

} // verus!
