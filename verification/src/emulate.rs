use vstd::prelude::*;

use crate::semantics::{State8080View, OPERAND_M};
use crate::state::{if_not_zero, if_zero, State8080};

verus! {

/// The operand index named by a three-bit register code of the
/// instruction set (B, C, D, E, H, L, M, A).
pub open spec fn operand_index(code: int) -> int {
    if code == 6 {
        OPERAND_M as int
    } else if code == 7 {
        0
    } else {
        code + 1
    }
}

/// Length in bytes of the instruction with the given opcode: the amount the
/// program counter moves past it.
pub open spec fn instruction_length(op: u8) -> u8 {
    let row = op / 16;
    let col = op % 16;
    if op < 0x40 {
        if col == 1 || (row >= 2 && (col == 2 || col == 0xA)) {
            3
        } else if col == 6 || col == 0xE {
            2
        } else {
            1
        }
    } else if op < 0xC0 {
        1
    } else if col == 2 || col == 4 || col == 0xA || col == 0xC || col == 0xD || op == 0xC3 || op
        == 0xCB {
        3
    } else if col == 6 || col == 0xE || op == 0xD3 || op == 0xDB {
        2
    } else {
        1
    }
}

/// The number of bytes the program counter moves past an instruction with
/// this opcode.
pub fn instruction_length_of(opcode: u8) -> (n: u8)
    ensures
        n == instruction_length(opcode),
{
    match opcode {
        0x01 | 0x11 | 0x21 | 0x31 | 0x22 | 0x2A | 0x32 | 0x3A => 3,
        0xC2 | 0xC3 | 0xC4 | 0xCA | 0xCB | 0xCC | 0xCD => 3,
        0xD2 | 0xD4 | 0xDA | 0xDC | 0xDD => 3,
        0xE2 | 0xE4 | 0xEA | 0xEC | 0xED => 3,
        0xF2 | 0xF4 | 0xFA | 0xFC | 0xFD => 3,
        0x06 | 0x0E | 0x16 | 0x1E | 0x26 | 0x2E | 0x36 | 0x3E => 2,
        0xC6 | 0xCE | 0xD6 | 0xDE | 0xE6 | 0xEE | 0xF6 | 0xFE => 2,
        0xD3 | 0xDB => 2,
        _ => 1,
    }
}

impl State8080View {
    /// The accumulator instruction of group `group` (add, add with carry,
    /// subtract, subtract with borrow, and, xor, or, compare) on `n`.
    pub open spec fn alu_op(self, group: int, n: u8) -> State8080View {
        if group == 0 {
            self.add_op(n, false)
        } else if group == 1 {
            self.add_op(n, true)
        } else if group == 2 {
            self.sub_op(n, false)
        } else if group == 3 {
            self.sub_op(n, true)
        } else if group == 4 {
            self.and_op(n)
        } else if group == 5 {
            self.xor_op(n)
        } else if group == 6 {
            self.or_op(n)
        } else {
            self.cmp_op(n)
        }
    }

    /// The effect of opcode `op` with operand bytes `second` and `third`,
    /// before the program counter moves past the instruction. Opcodes the
    /// emulator does not implement leave the state unchanged.
    pub open spec fn execute(self, op: u8, second: u8, third: u8) -> State8080View {
        let row: int = ((op / 8) % 8) as int;
        let col: int = (op % 8) as int;
        if op < 0x40 {
            if col == 4 {
                self.increment_op(operand_index(row))
            } else if col == 5 {
                self.decrement_op(operand_index(row))
            } else if op == 0x07 {
                self.rotate_left_op(false)
            } else if op == 0x0F {
                self.rotate_right_op(false)
            } else if op == 0x17 {
                self.rotate_left_op(true)
            } else if op == 0x1F {
                self.rotate_right_op(true)
            } else if op == 0x27 {
                self.decimal_adjust_op()
            } else if op == 0x2F {
                self.complement_acc_op()
            } else if op == 0x37 {
                self.set_carry_op(true)
            } else if op == 0x3F {
                self.complement_carry_op()
            } else {
                self
            }
        } else if op < 0x80 {
            if op == 0x76 {
                self
            } else {
                self.mov_op(operand_index(row), operand_index(col))
            }
        } else if op < 0xC0 {
            self.alu_op(row, self.read(operand_index(col)))
        } else if col == 6 {
            self.alu_op(row, second)
        } else if op == 0xC2 {
            self.jump_if_op(!self.flags.z, second, third)
        } else if op == 0xC3 || op == 0xCB {
            self.jump_op(second, third)
        } else if op == 0xC4 {
            self.call_if_op(!self.flags.z, second, third)
        } else if op == 0xC5 {
            self.push_reg_op(1)
        } else if op == 0xC9 {
            self.ret_op()
        } else if op == 0xCA {
            self.jump_if_op(self.flags.z, second, third)
        } else if op == 0xCC {
            self.call_if_op(self.flags.z, second, third)
        } else if op == 0xCD {
            self.call_op(second, third)
        } else {
            self
        }
    }

    /// Opcode `op` can run without reaching outside memory or the stack:
    /// operands at HL lie in memory, a push has room, a pop has bytes.
    pub open spec fn can_execute(self, op: u8) -> bool {
        let row: int = ((op / 8) % 8) as int;
        let col: int = (op % 8) as int;
        &&& (op < 0x40 && (col == 4 || col == 5)) ==> self.operand_ok(operand_index(row))
        &&& (0x40 <= op < 0x80 && op != 0x76) ==> self.operand_ok(operand_index(row))
            && self.operand_ok(operand_index(col))
        &&& (0x80 <= op < 0xC0) ==> self.operand_ok(operand_index(col))
        &&& op == 0xC4 ==> (!self.flags.z ==> self.can_call())
        &&& op == 0xCC ==> (self.flags.z ==> self.can_call())
        &&& op == 0xCD ==> self.can_call()
        &&& op == 0xC5 ==> self.can_push()
        &&& op == 0xC9 ==> self.can_pop()
    }

    /// The byte `offset` places after the program counter, or 0 past the
    /// end of memory.
    pub open spec fn fetch(self, offset: int) -> u8 {
        if self.pc + offset < self.memory.len() {
            self.memory[self.pc + offset]
        } else {
            0
        }
    }

    /// The opcode at the program counter.
    pub open spec fn opcode(self) -> u8 {
        self.memory[self.pc as int]
    }

    /// The state after the instruction at the program counter has run,
    /// before the program counter moves past it.
    pub open spec fn executed(self) -> State8080View {
        self.execute(self.opcode(), self.fetch(1), self.fetch(2))
    }

    /// The instruction `op` puts a new address in the program counter: an
    /// unconditional jump, call or return, or a conditional one whose
    /// condition holds.
    pub open spec fn transfers_control(self, op: u8) -> bool {
        ||| op == 0xC3 || op == 0xCB || op == 0xCD || op == 0xC9
        ||| (op == 0xC2 || op == 0xC4) && !self.flags.z
        ||| (op == 0xCA || op == 0xCC) && self.flags.z
    }

    /// One instruction can be emulated from this state.
    pub open spec fn can_step(self) -> bool {
        &&& self.pc < self.memory.len()
        &&& self.can_execute(self.opcode())
        &&& !self.transfers_control(self.opcode()) ==> self.pc + instruction_length(self.opcode())
            <= usize::MAX
    }

    /// The state after one instruction: a jump, call or return that takes
    /// place leaves the program counter at its target; any other
    /// instruction moves it past the instruction's bytes.
    pub open spec fn step(self) -> State8080View {
        if self.transfers_control(self.opcode()) {
            self.executed()
        } else {
            self.executed().advance_op(instruction_length(self.opcode()))
        }
    }
}

/// Runs the increments, decrements, rotations, decimal adjustment and carry operations.
#[verifier::rlimit(50)]
fn execute_low(state: &mut State8080, opcode: u8, second: u8, third: u8)
    requires
        0x00 <= opcode < 0x40,
        old(state)@.can_execute(opcode),
    ensures
        final(state)@ == old(state)@.execute(opcode, second, third),
{
    match opcode {
        0x00 => (),
        0x04 => state.increment(1),
        0x05 => state.decrement(1),
        0x07 => state.rotate_acc_left(false),
        0x0C => state.increment(2),
        0x0D => state.decrement(2),
        0x0F => state.rotate_acc_right(false),
        0x14 => state.increment(3),
        0x15 => state.decrement(3),
        0x17 => state.rotate_acc_left(true),
        0x1C => state.increment(4),
        0x1D => state.decrement(4),
        0x1F => state.rotate_acc_right(true),
        0x24 => state.increment(5),
        0x25 => state.decrement(5),
        0x27 => state.decimal_adjust_acc(),  // DAA
        0x2C => state.increment(6),
        0x2D => state.decrement(6),
        0x2F => state.complement_acc(),
        0x34 => state.increment(7),
        0x35 => state.decrement(7),
        0x37 => state.set_carry(true),
        0x3C => state.increment(0),
        0x3D => state.decrement(0),
        0x3F => state.complement_carry(),
        _ => (),
    };
}

/// Runs the moves between registers and memory.
#[verifier::rlimit(50)]
fn execute_move(state: &mut State8080, opcode: u8, second: u8, third: u8)
    requires
        0x40 <= opcode < 0x80,
        old(state)@.can_execute(opcode),
    ensures
        final(state)@ == old(state)@.execute(opcode, second, third),
{
    match opcode {
        //mov codes
        0x40 => state.mov(1, 1),
        0x41 => state.mov(1, 2),
        0x42 => state.mov(1, 3),
        0x43 => state.mov(1, 4),
        0x44 => state.mov(1, 5),
        0x45 => state.mov(1, 6),
        0x46 => state.mov(1, 7),  // mov to HL
        0x47 => state.mov(1, 0),
        0x48 => state.mov(2, 1),
        0x49 => state.mov(2, 2),
        0x4A => state.mov(2, 3),
        0x4B => state.mov(2, 4),
        0x4C => state.mov(2, 5),
        0x4D => state.mov(2, 6),
        0x4E => state.mov(2, 7),  // mov to HL
        0x4F => state.mov(2, 0),
        0x50 => state.mov(3, 1),
        0x51 => state.mov(3, 2),
        0x52 => state.mov(3, 3),
        0x53 => state.mov(3, 4),
        0x54 => state.mov(3, 5),
        0x55 => state.mov(3, 6),
        0x56 => state.mov(3, 7),  // mov to HL
        0x57 => state.mov(3, 0),
        0x58 => state.mov(4, 1),
        0x59 => state.mov(4, 2),
        0x5A => state.mov(4, 3),
        0x5B => state.mov(4, 4),
        0x5C => state.mov(4, 5),
        0x5D => state.mov(4, 6),
        0x5E => state.mov(4, 7),  // mov to HL
        0x5F => state.mov(4, 0),
        0x60 => state.mov(5, 1),
        0x61 => state.mov(5, 2),
        0x62 => state.mov(5, 3),
        0x63 => state.mov(5, 4),
        0x64 => state.mov(5, 5),
        0x65 => state.mov(5, 6),
        0x66 => state.mov(5, 7),  // mov to HL
        0x67 => state.mov(5, 0),
        0x68 => state.mov(6, 1),
        0x69 => state.mov(6, 2),
        0x6A => state.mov(6, 3),
        0x6B => state.mov(6, 4),
        0x6C => state.mov(6, 5),
        0x6D => state.mov(6, 6),
        0x6E => state.mov(6, 7),  // mov to HL
        0x6F => state.mov(6, 0),
        0x70 => state.mov(7, 1),
        0x71 => state.mov(7, 2),
        0x72 => state.mov(7, 3),
        0x73 => state.mov(7, 4),
        0x74 => state.mov(7, 5),
        0x75 => state.mov(7, 6),
        0x76 => (),  // HLT: halting is not emulated
        0x77 => state.mov(7, 0),
        0x78 => state.mov(0, 1),
        0x79 => state.mov(0, 2),
        0x7A => state.mov(0, 3),
        0x7B => state.mov(0, 4),
        0x7C => state.mov(0, 5),
        0x7D => state.mov(0, 6),
        0x7E => state.mov(0, 7),  // mov to HL
        0x7F => state.mov(0, 0),
        _ => (),
    };
}

/// Runs the additions of a register or the byte at HL.
#[verifier::rlimit(50)]
fn execute_add(state: &mut State8080, opcode: u8, second: u8, third: u8)
    requires
        0x80 <= opcode < 0x90,
        old(state)@.can_execute(opcode),
    ensures
        final(state)@ == old(state)@.execute(opcode, second, third),
{
    match opcode {
        //8 bit arithmetic / logic
        0x80 => state.add_reg(1, false),  // Add B
        0x81 => state.add_reg(2, false),
        0x82 => state.add_reg(3, false),
        0x83 => state.add_reg(4, false),  // Add E
        0x84 => state.add_reg(5, false),
        0x85 => state.add_reg(6, false),  // Add L
        0x86 => state.add_hl(false),  // Add (HL)
        0x87 => state.add_reg(0, false),  // Add A
        0x88 => state.add_reg(1, true),  // ADC B
        0x89 => state.add_reg(2, true),
        0x8A => state.add_reg(3, true),
        0x8B => state.add_reg(4, true),
        0x8C => state.add_reg(5, true),
        0x8D => state.add_reg(6, true),
        0x8E => state.add_hl(true),
        0x8F => state.add_reg(0, true),
        _ => (),
    };
}

/// Runs the subtractions of a register or the byte at HL.
#[verifier::rlimit(50)]
fn execute_sub(state: &mut State8080, opcode: u8, second: u8, third: u8)
    requires
        0x90 <= opcode < 0xA0,
        old(state)@.can_execute(opcode),
    ensures
        final(state)@ == old(state)@.execute(opcode, second, third),
{
    match opcode {
        0x90 => state.sub_reg(1, false),  // sub B
        0x91 => state.sub_reg(2, false),
        0x92 => state.sub_reg(3, false),
        0x93 => state.sub_reg(4, false),  // sub E
        0x94 => state.sub_reg(5, false),
        0x95 => state.sub_reg(6, false),  // sub L
        0x96 => state.sub_hl(false),  // sub (HL)
        0x97 => state.sub_reg(0, false),  // sub A
        0x98 => state.sub_reg(1, true),  // SBB B
        0x99 => state.sub_reg(2, true),
        0x9A => state.sub_reg(3, true),
        0x9B => state.sub_reg(4, true),
        0x9C => state.sub_reg(5, true),
        0x9D => state.sub_reg(6, true),
        0x9E => state.sub_hl(true),
        0x9F => state.sub_reg(0, true),
        _ => (),
    };
}

/// Runs the ands and exclusive ors with a register or the byte at HL.
#[verifier::rlimit(50)]
fn execute_and_xor(state: &mut State8080, opcode: u8, second: u8, third: u8)
    requires
        0xA0 <= opcode < 0xB0,
        old(state)@.can_execute(opcode),
    ensures
        final(state)@ == old(state)@.execute(opcode, second, third),
{
    match opcode {
        0xA0 => state.log_and_reg(1),
        0xA1 => state.log_and_reg(2),
        0xA2 => state.log_and_reg(3),
        0xA3 => state.log_and_reg(4),
        0xA4 => state.log_and_reg(5),
        0xA5 => state.log_and_reg(6),
        0xA6 => state.log_and_hl(),
        0xA7 => state.log_and_reg(0),
        0xA8 => state.log_xor_reg(1),
        0xA9 => state.log_xor_reg(2),
        0xAA => state.log_xor_reg(3),
        0xAB => state.log_xor_reg(4),
        0xAC => state.log_xor_reg(5),
        0xAD => state.log_xor_reg(6),
        0xAE => state.log_xor_hl(),
        0xAF => state.log_xor_reg(0),
        _ => (),
    };
}

/// Runs the ors and comparisons with a register or the byte at HL.
#[verifier::rlimit(50)]
fn execute_or_compare(state: &mut State8080, opcode: u8, second: u8, third: u8)
    requires
        0xB0 <= opcode < 0xC0,
        old(state)@.can_execute(opcode),
    ensures
        final(state)@ == old(state)@.execute(opcode, second, third),
{
    match opcode {
        0xB0 => state.log_or_reg(1),
        0xB1 => state.log_or_reg(2),
        0xB2 => state.log_or_reg(3),
        0xB3 => state.log_or_reg(4),
        0xB4 => state.log_or_reg(5),
        0xB5 => state.log_or_reg(6),
        0xB6 => state.log_or_hl(),
        0xB7 => state.log_or_reg(0),
        0xB8 => state.cmp_reg(1),
        0xB9 => state.cmp_reg(2),
        0xBA => state.cmp_reg(3),
        0xBB => state.cmp_reg(4),
        0xBC => state.cmp_reg(5),
        0xBD => state.cmp_reg(6),
        0xBE => state.cmp_hl(),
        0xBF => state.cmp_reg(0),
        _ => (),
    };
}

/// Runs the jumps, calls, returns, pushes and accumulator operations on an immediate byte.
#[verifier::rlimit(50)]
fn execute_high(state: &mut State8080, opcode: u8, second: u8, third: u8)
    requires
        0xC0 <= opcode,
        old(state)@.can_execute(opcode),
    ensures
        final(state)@ == old(state)@.execute(opcode, second, third),
{
    match opcode {
        0xC2 => state.jump_if(second, third, if_not_zero),
        0xC3 => state.jump(second, third),
        0xC4 => state.call_if(second, third, if_not_zero),
        0xC5 => state.push_reg(1),
        0xC6 => state.add(second, false),
        0xC9 => state.ret(),
        0xCA => state.jump_if(second, third, if_zero),
        0xCB => state.jump(second, third),  // Repeat of 0xC3, usage of this is not advised
        0xCC => state.call_if(second, third, if_zero),
        0xCD => state.call(second, third),
        0xCE => state.add(second, true),
        0xD6 => state.sub(second, false),
        0xDE => state.sub(second, true),
        0xE6 => state.log_and(second),
        0xEE => state.log_xor(second),
        0xF6 => state.log_or(second),
        0xFE => state.cmp(second),
        _ => (),
    };
}

/// The operand index for a three-bit register code.
fn operand_of(code: u8) -> (r: usize)
    requires
        code < 8,
    ensures
        r == operand_index(code as int),
{
    if code == 6 {
        OPERAND_M
    } else if code == 7 {
        0
    } else {
        code as usize + 1
    }
}

/// Operand `r` (a register, or 7 for the byte at HL) can be used.
fn operand_available(state: &State8080, r: usize) -> (ok: bool)
    requires
        r <= OPERAND_M,
    ensures
        ok == state@.operand_ok(r as int),
{
    r != OPERAND_M || state.hl_in_memory()
}

/// A call from this state can push its return address.
fn call_possible(state: &State8080) -> (ok: bool)
    ensures
        ok == state@.can_call(),
{
    state.can_push() && state.pc() <= usize::MAX - 3
}

/// Whether the instruction `opcode` puts a new address in the program
/// counter when run from this state.
fn transfers_control(state: &State8080, opcode: u8) -> (b: bool)
    ensures
        b == state@.transfers_control(opcode),
{
    let not_zero = if_not_zero(state);
    opcode == 0xC3 || opcode == 0xCB || opcode == 0xCD || opcode == 0xC9 || ((opcode == 0xC2
        || opcode == 0xC4) && not_zero) || ((opcode == 0xCA || opcode == 0xCC) && !not_zero)
}

/// Whether `emulate` can run on this state: the program counter lies in
/// memory, the instruction's operands lie in memory and the stack, and the
/// program counter can move past it.
pub fn can_emulate(state: &State8080) -> (ok: bool)
    ensures
        ok == state@.can_step(),
{
    let pc = state.pc();
    let memory = state.memory();
    if pc >= memory.len() {
        return false;
    }
    let opcode = memory[pc];
    let row = (opcode / 8) % 8;
    let col = opcode % 8;
    let operands_ok = if opcode < 0x40 {
        (col != 4 && col != 5) || operand_available(state, operand_of(row))
    } else if opcode < 0x80 {
        opcode == 0x76 || (operand_available(state, operand_of(row)) && operand_available(
            state,
            operand_of(col),
        ))
    } else if opcode < 0xC0 {
        operand_available(state, operand_of(col))
    } else if opcode == 0xC4 {
        !if_not_zero(state) || call_possible(state)
    } else if opcode == 0xCC {
        !if_zero(state) || call_possible(state)
    } else if opcode == 0xCD {
        call_possible(state)
    } else if opcode == 0xC5 {
        state.can_push()
    } else if opcode == 0xC9 {
        state.can_pop()
    } else {
        true
    };
    if !operands_ok {
        return false;
    }
    // A jump, a call or a return that takes place leaves the program
    // counter at its target; any other instruction moves it forward.
    transfers_control(state, opcode) || pc <= usize::MAX - instruction_length_of(opcode) as usize
}

/// Emulates the instruction at the program counter.
pub fn emulate(state: &mut State8080)
    requires
        old(state)@.can_step(),
    ensures
        final(state)@ == old(state)@.step(),
{
    let pc = state.pc();
    let memory = state.memory();
    let opcode = memory[pc];  //Should never be out of bounds
    let second = if memory.len() - pc > 1 { memory[pc + 1] } else { 0 };
    let third = if memory.len() - pc > 2 { memory[pc + 2] } else { 0 };
    let moves_pc = transfers_control(state, opcode);
    if opcode < 0x40 {
        execute_low(state, opcode, second, third);
    } else if opcode < 0x80 {
        execute_move(state, opcode, second, third);
    } else if opcode < 0x90 {
        execute_add(state, opcode, second, third);
    } else if opcode < 0xA0 {
        execute_sub(state, opcode, second, third);
    } else if opcode < 0xB0 {
        execute_and_xor(state, opcode, second, third);
    } else if opcode < 0xC0 {
        execute_or_compare(state, opcode, second, third);
    } else {
        execute_high(state, opcode, second, third);
    }
    if !moves_pc {
        state.advance(instruction_length_of(opcode));
    }
}

} // verus!
