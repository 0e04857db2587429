use vstd::prelude::*;

use crate::emulate::{instruction_length, operand_index};
use crate::semantics::{
    State8080View, OPERAND_M, REG_A, REG_B, REG_C, REG_D, REG_E, REG_H, REG_L,
};

verus! {

/// The operand named by a three-bit register code of the 8080's
/// instruction encoding, in the order B, C, D, E, H, L, the byte at HL, A.
pub open spec fn register_for_code(code: int) -> int {
    seq![
        REG_B as int,
        REG_C as int,
        REG_D as int,
        REG_E as int,
        REG_H as int,
        REG_L as int,
        OPERAND_M as int,
        REG_A as int,
    ][code]
}

proof fn lemma_register_codes(code: int)
    requires
        0 <= code < 8,
    ensures
        operand_index(code) == register_for_code(code),
{
    if code == 0 {
    } else if code == 1 {
    } else if code == 2 {
    } else if code == 3 {
    } else if code == 4 {
    } else if code == 5 {
    } else if code == 6 {
    } else {
    }
}

/// Bits 0 to 2 of an opcode, the code of its (second) operand.
pub open spec fn low_code(op: u8) -> int {
    (op % 8) as int
}

/// Bits 3 to 5 of an opcode below 0x40, the code of its operand.
pub open spec fn row_code(op: u8) -> int {
    (op / 8) as int
}

/// The program counter `k` bytes on.
pub open spec fn pc_after(s: State8080View, k: int) -> usize {
    (s.pc + k) as usize
}

/// The address formed by the two bytes after the opcode, low byte first.
pub open spec fn operand_address(s: State8080View) -> int {
    s.fetch(2) * 256 + s.fetch(1)
}

/// JNZ (0xC2) and JZ (0xCA): when the zero flag is clear for JNZ, or set
/// for JZ, the program counter becomes the operand address; otherwise it
/// moves past the three-byte instruction. Nothing else changes.
pub proof fn law_step_conditional_jump(s: State8080View)
    requires
        s.can_step(),
        s.opcode() == 0xC2 || s.opcode() == 0xCA,
    ensures
        (s.opcode() == 0xCA) == s.flags.z ==> s.step() == (State8080View {
            pc: operand_address(s) as usize,
            ..s
        }),
        (s.opcode() == 0xCA) != s.flags.z ==> s.step() == (State8080View {
            pc: (s.pc + 3) as usize,
            ..s
        }),
{
}

/// JMP (0xC3, and its duplicate 0xCB) makes the operand address the program
/// counter and changes nothing else.
pub proof fn law_step_jump(s: State8080View)
    requires
        s.can_step(),
        s.opcode() == 0xC3 || s.opcode() == 0xCB,
    ensures
        s.step() == (State8080View { pc: operand_address(s) as usize, ..s }),
{
}

/// CALL (0xCD), and CNZ (0xC4) with the zero flag clear or CZ (0xCC) with
/// it set: the 16-bit address of the next instruction is stored below the
/// stack pointer, high byte above low byte, the stack pointer drops by two
/// and the program counter becomes the operand address. CNZ and CZ whose
/// condition fails only move past the three-byte instruction.
pub proof fn law_step_call(s: State8080View)
    requires
        s.can_step(),
        s.opcode() == 0xCD || s.opcode() == 0xC4 || s.opcode() == 0xCC,
    ensures
        ({
            let taken = s.opcode() == 0xCD || (s.opcode() == 0xC4 && !s.flags.z) || (s.opcode()
                == 0xCC && s.flags.z);
            let next = (s.pc + 3) % 0x10000;
            &&& taken ==> s.step() == (State8080View {
                pc: operand_address(s) as usize,
                sp: (s.sp - 2) as usize,
                memory: s.memory.update(s.sp - 1, (next / 256) as u8).update(
                    s.sp - 2,
                    (next % 256) as u8,
                ),
                ..s
            })
            &&& !taken ==> s.step() == (State8080View { pc: (s.pc + 3) as usize, ..s })
        }),
{
}

/// RET (0xC9): the program counter becomes the address stored at the stack
/// pointer (low byte first), that address is left in L and H, and the stack
/// pointer rises by two.
pub proof fn law_step_return(s: State8080View)
    requires
        s.reg.len() == 7,
        s.can_step(),
        s.opcode() == 0xC9,
    ensures
        s.step() == (State8080View {
            pc: (s.memory[s.sp + 1] * 256 + s.memory[s.sp as int]) as usize,
            sp: (s.sp + 2) as usize,
            reg: s.reg.update(REG_L as int, s.memory[s.sp as int]).update(
                REG_H as int,
                s.memory[s.sp + 1],
            ),
            ..s
        }),
{
}

/// PUSH B (0xC5): B is stored just below the stack pointer and C below it,
/// the stack pointer drops by two and the program counter moves one byte.
pub proof fn law_step_push_bc(s: State8080View)
    requires
        s.can_step(),
        s.opcode() == 0xC5,
    ensures
        s.step() == (State8080View {
            pc: (s.pc + 1) as usize,
            sp: (s.sp - 2) as usize,
            memory: s.memory.update(s.sp - 1, s.reg[REG_B as int]).update(
                s.sp - 2,
                s.reg[REG_C as int],
            ),
            ..s
        }),
{
}

/// The instructions with an immediate byte (ADI, ACI, SUI, SBI, ANI, XRI,
/// ORI, CPI) apply their operation to the byte after the opcode and move
/// the program counter past both bytes.
pub proof fn law_step_immediate(s: State8080View)
    requires
        s.can_step(),
        s.opcode() >= 0xC0,
        s.opcode() % 8 == 6,
    ensures
        ({
            let op = s.opcode();
            let b = s.fetch(1);
            let next = pc_after(s, 2);
            &&& op == 0xC6 ==> s.step() == (State8080View { pc: next, ..s.add_op(b, false) })
            &&& op == 0xCE ==> s.step() == (State8080View { pc: next, ..s.add_op(b, true) })
            &&& op == 0xD6 ==> s.step() == (State8080View { pc: next, ..s.sub_op(b, false) })
            &&& op == 0xDE ==> s.step() == (State8080View { pc: next, ..s.sub_op(b, true) })
            &&& op == 0xE6 ==> s.step() == (State8080View { pc: next, ..s.and_op(b) })
            &&& op == 0xEE ==> s.step() == (State8080View { pc: next, ..s.xor_op(b) })
            &&& op == 0xF6 ==> s.step() == (State8080View { pc: next, ..s.or_op(b) })
            &&& op == 0xFE ==> s.step() == (State8080View { pc: next, ..s.cmp_op(b) })
        }),
{
}

/// The accumulator instructions 0x80 to 0xBF: bits 3 to 5 choose add, add
/// with carry, subtract, subtract with borrow, and, exclusive or, or,
/// compare; bits 0 to 2 name the operand. The program counter moves one
/// byte.
pub proof fn law_step_register_alu(s: State8080View)
    requires
        s.can_step(),
        0x80 <= s.opcode() < 0xC0,
    ensures
        ({
            let op = s.opcode();
            let n = s.read(register_for_code(low_code(op)));
            let group = (op - 0x80) / 8;
            let next = pc_after(s, 1);
            &&& group == 0 ==> s.step() == (State8080View { pc: next, ..s.add_op(n, false) })
            &&& group == 1 ==> s.step() == (State8080View { pc: next, ..s.add_op(n, true) })
            &&& group == 2 ==> s.step() == (State8080View { pc: next, ..s.sub_op(n, false) })
            &&& group == 3 ==> s.step() == (State8080View { pc: next, ..s.sub_op(n, true) })
            &&& group == 4 ==> s.step() == (State8080View { pc: next, ..s.and_op(n) })
            &&& group == 5 ==> s.step() == (State8080View { pc: next, ..s.xor_op(n) })
            &&& group == 6 ==> s.step() == (State8080View { pc: next, ..s.or_op(n) })
            &&& group == 7 ==> s.step() == (State8080View { pc: next, ..s.cmp_op(n) })
        }),
{
    lemma_register_codes(low_code(s.opcode()));
}

/// The moves 0x40 to 0x7F other than 0x76: the operand named by bits 3 to 5
/// is copied into the operand named by bits 0 to 2, and the program counter
/// moves one byte.
pub proof fn law_step_move(s: State8080View)
    requires
        s.can_step(),
        0x40 <= s.opcode() < 0x80,
        s.opcode() != 0x76,
    ensures
        s.step() == (State8080View {
            pc: (s.pc + 1) as usize,
            ..s.mov_op(
                register_for_code((s.opcode() - 0x40) / 8),
                register_for_code(low_code(s.opcode())),
            )
        }),
{
    lemma_register_codes((s.opcode() - 0x40) / 8);
    lemma_register_codes(low_code(s.opcode()));
}

/// Increments (0x04 + 8k) and decrements (0x05 + 8k) of the operand named
/// by bits 3 to 5; the program counter moves one byte.
pub proof fn law_step_increment_decrement(s: State8080View)
    requires
        s.can_step(),
        s.opcode() < 0x40,
        s.opcode() % 8 == 4 || s.opcode() % 8 == 5,
    ensures
        ({
            let r = register_for_code(row_code(s.opcode()));
            let next = pc_after(s, 1);
            &&& s.opcode() % 8 == 4 ==> s.step() == (State8080View { pc: next, ..s.increment_op(r) })
            &&& s.opcode() % 8 == 5 ==> s.step() == (State8080View { pc: next, ..s.decrement_op(r) })
        }),
{
    lemma_register_codes(row_code(s.opcode()));
}

/// The one-byte accumulator and carry instructions: RLC, RRC, RAL, RAR,
/// DAA, CMA, STC, CMC.
pub proof fn law_step_accumulator_and_carry(s: State8080View)
    requires
        s.can_step(),
    ensures
        ({
            let op = s.opcode();
            let next = pc_after(s, 1);
            &&& op == 0x07 ==> s.step() == (State8080View { pc: next, ..s.rotate_left_op(false) })
            &&& op == 0x0F ==> s.step() == (State8080View { pc: next, ..s.rotate_right_op(false) })
            &&& op == 0x17 ==> s.step() == (State8080View { pc: next, ..s.rotate_left_op(true) })
            &&& op == 0x1F ==> s.step() == (State8080View { pc: next, ..s.rotate_right_op(true) })
            &&& op == 0x27 ==> s.step() == (State8080View { pc: next, ..s.decimal_adjust_op() })
            &&& op == 0x2F ==> s.step() == (State8080View { pc: next, ..s.complement_acc_op() })
            &&& op == 0x37 ==> s.step() == (State8080View { pc: next, ..s.set_carry_op(true) })
            &&& op == 0x3F ==> s.step() == (State8080View { pc: next, ..s.complement_carry_op() })
        }),
{
}

/// The opcodes the emulator does not implement, NOP and HLT only move the
/// program counter past the instruction.
pub proof fn law_step_no_effect(s: State8080View)
    requires
        s.can_step(),
        ({
            let op = s.opcode();
            ||| op == 0x76
            ||| op < 0x40 && (op % 8 == 0 || op % 8 == 1 || op % 8 == 2 || op % 8 == 3 || op % 8
                == 6)
            ||| op >= 0xC0 && op % 8 != 6 && op != 0xC2 && op != 0xC3 && op != 0xC4 && op != 0xC5
                && op != 0xC9 && op != 0xCA && op != 0xCB && op != 0xCC && op != 0xCD
        }),
    ensures
        s.step() == (State8080View { pc: (s.pc + instruction_length(s.opcode())) as usize, ..s }),
{
}

/// The operand bytes are those right after the opcode, low byte first.
pub proof fn law_operand_bytes(s: State8080View)
    requires
        s.pc + 2 < s.memory.len(),
    ensures
        s.fetch(1) == s.memory[s.pc + 1],
        s.fetch(2) == s.memory[s.pc + 2],
        operand_address(s) == s.memory[s.pc + 2] * 256 + s.memory[s.pc + 1],
{
}

/// Instruction lengths: the moves and the register accumulator
/// instructions take one byte, the instructions with an immediate byte two,
/// and the jumps and calls three.
pub proof fn law_instruction_lengths(op: u8)
    ensures
        0x40 <= op < 0xC0 ==> instruction_length(op) == 1,
        (op % 8 == 6 && (op < 0x40 || op >= 0xC0)) ==> instruction_length(op) == 2,
        (op == 0xC2 || op == 0xC3 || op == 0xC4 || op == 0xCA || op == 0xCB || op == 0xCC || op
            == 0xCD) ==> instruction_length(op) == 3,
        (op == 0x00 || op == 0xC5 || op == 0xC9 || (op < 0x40 && (op % 8 == 4 || op % 8 == 5
            || op % 8 == 7))) ==> instruction_length(op) == 1,
{
}

} // verus!
