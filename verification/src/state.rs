use vstd::prelude::*;

use crate::flags::{even_parity, lemma_ones_bounded, ones, Flags};
use crate::semantics::{
    inc_dec_flags, logic_flags, State8080View, OPERAND_M, REG_A, REG_H, REG_L,
};

verus! {

/// Facts about masking a byte, used to relate the bitwise tests of the
/// instructions to the arithmetic of their specifications.
proof fn lemma_byte_bits(x: u8)
    by (bit_vector)
    ensures
        x & 0x0f == x % 16,
        (x & 0x80 != 0) == (x >= 0x80),
        (x & 0x80 == 0x80) == (x >= 0x80),
        (x & 0x01 == 0x01) == (x % 2 == 1),
        x & 0xff == x,
{
}

/// Complementing a byte subtracts it from 255.
proof fn lemma_complement_bits(x: u8)
    by (bit_vector)
    ensures
        !x == 255 - x,
{
}

/// Facts about shifting a byte by one place and setting the bit shifted in.
proof fn lemma_shift_bits(x: u8)
    by (bit_vector)
    ensures
        x << 1u32 == (x % 128) * 2,
        (x << 1u32) | 0x01 == (x % 128) * 2 + 1,
        x >> 1u32 == x / 2,
        (x >> 1u32) | 0x80 == x / 2 + 128,
{
}

/// Facts about the low byte of a sum of two bytes and a carry.
proof fn lemma_sum_bits(x: u16)
    by (bit_vector)
    requires
        x < 512,
    ensures
        x & 0xff == x % 256,
        (x & 0x80 != 0) == (x % 256 >= 0x80),
{
}

/// The 8080 processor: registers, stack pointer, program counter, memory
/// and flags.
pub struct State8080 {
    /// a, b, c, d, e, h, l
    pub(crate) reg: [u8; 7],
    /// stack pointer
    pub(crate) sp: usize,
    /// program counter
    pub(crate) pc: usize,
    pub(crate) memory: Vec<u8>,
    pub(crate) flags: Flags,
    pub(crate) int_enable: u8,
}

impl View for State8080 {
    type V = State8080View;

    closed spec fn view(&self) -> State8080View {
        State8080View {
            reg: self.reg@,
            sp: self.sp,
            pc: self.pc,
            memory: self.memory@,
            flags: self.flags,
            int_enable: self.int_enable,
        }
    }
}

impl State8080 {
    /// A processor with the given memory, all registers, the stack pointer,
    /// the program counter and the flags zero.
    pub fn new(vec: Vec<u8>) -> (state: State8080)
        ensures
            state@ == (State8080View {
                reg: Seq::new(7, |i: int| 0u8),
                sp: 0,
                pc: 0,
                memory: vec@,
                flags: Flags::cleared(),
                int_enable: 0,
            }),
    {
        let state = State8080 {
            reg: [0, 0, 0, 0, 0, 0, 0],
            sp: 0,
            pc: 0,
            memory: vec,
            flags: Flags::new(),
            int_enable: 0,
        };
        assert(state.reg@ =~= Seq::new(7, |i: int| 0u8));
        state
    }

    /// The register file always holds seven bytes, and the memory no more
    /// bytes than a `usize` counts.
    pub proof fn lemma_register_count(&self)
        ensures
            self@.reg.len() == 7,
            self@.memory.len() <= usize::MAX,
    {
        assert(self.memory@.len() == self.memory.len());
    }

    /*
    Utility functions
    */

    /// Returns true if the number of 1s in the given number is even, else false.
    pub fn parity(number: u8) -> (even: bool)
        ensures
            even == even_parity(number),
    {
        let mut rest: u8 = number;
        let mut count: u8 = 0;
        proof {
            lemma_ones_bounded(number as nat);
        }
        while rest > 0
            invariant
                count + ones(rest as nat) == ones(number as nat),
                ones(number as nat) <= number,
            decreases rest,
        {
            count = count + rest % 2;
            rest = rest / 2;
        }
        count % 2 == 0
    }

    /// Moves the memory pointer forward by the given number of positions.
    pub fn advance(&mut self, value: u8)
        requires
            old(self)@.pc + value <= usize::MAX,
        ensures
            final(self)@ == old(self)@.advance_op(value),
    {
        self.pc = self.pc + value as usize;
    }

    /// The memory index formed by H (high byte) and L (low byte).
    fn get_hl_index(&self) -> (index: usize)
        ensures
            index == self@.hl_index(),
    {
        (self.reg[REG_H] as usize) * 256 + self.reg[REG_L] as usize
    }

    /// The memory byte addressed by H and L.
    fn get_hl(&self) -> (value: u8)
        requires
            self@.hl_in_memory(),
        ensures
            value == self@.hl_byte(),
    {
        let index = self.get_hl_index();
        self.memory[index]
    }

    /// Stores `value` in the memory byte addressed by H and L.
    fn set_hl(&mut self, value: u8)
        requires
            old(self)@.hl_in_memory(),
        ensures
            final(self)@ == old(self)@.write(OPERAND_M as int, value),
    {
        let index = self.get_hl_index();
        self.memory.set(index, value);
    }

    /*
    8 bit arithmetic/logical instructions
    Functions ending with reg use values from the registers. Functions ending in hl use registers
    h and l as a 16-bit pointer to an 8-bit value in memory.
    */

    /// Adds `number`, and the carry when `use_carry` and the carry is set, to
    /// the accumulator.
    pub fn add(&mut self, number: u8, use_carry: bool)
        ensures
            final(self)@ == old(self)@.add_op(number, use_carry),
    {
        let acc = self.reg[REG_A];
        let mut answer: u16 = acc as u16 + number as u16;
        if use_carry {
            if self.flags.cy {
                answer += 0x01;
            }
        }
        proof {
            lemma_sum_bits(answer);
            lemma_byte_bits(acc);
            lemma_byte_bits(number);
        }
        self.flags.z = (answer & 0xff) == 0;
        self.flags.s = (answer & 0x80) != 0;
        self.flags.cy = answer > 0xff;
        self.flags.ac = ((acc & 0x0f) + (number & 0x0f)) > 0x0f;
        let result = (answer & 0xff) as u8;
        self.flags.p = State8080::parity(result);
        self.reg[REG_A] = result;
    }

    /// Adds the value from the memory index referenced by H and L combined as a 16-bit pointer to
    /// the accumulator.
    pub fn add_hl(&mut self, use_carry: bool)
        requires
            old(self)@.hl_in_memory(),
        ensures
            final(self)@ == old(self)@.add_op(old(self)@.hl_byte(), use_carry),
    {
        let number = self.get_hl();
        self.add(number, use_carry);
    }

    /// Adds the value from the given register index to the accumulator register.
    pub fn add_reg(&mut self, reg_num: usize, use_carry: bool)
        requires
            reg_num < OPERAND_M,
        ensures
            final(self)@ == old(self)@.add_op(old(self)@.reg_at(reg_num), use_carry),
    {
        let number = self.reg[reg_num];
        self.add(number, use_carry);
    }

    /// Compares `number` with the accumulator: the flags are set as for a
    /// subtraction and the accumulator keeps its value.
    pub fn cmp(&mut self, number: u8)
        ensures
            final(self)@ == old(self)@.cmp_op(number),
    {
        let acc = self.reg[REG_A];  //saving this value
        self.sub(number, false);  //carry ignored
        self.reg[REG_A] = acc;  //reverting this
        proof {
            assert(self.reg@ =~= old(self)@.reg);
        }
    }

    /// Compares the byte at HL with the accumulator.
    pub fn cmp_hl(&mut self)
        requires
            old(self)@.hl_in_memory(),
        ensures
            final(self)@ == old(self)@.cmp_op(old(self)@.hl_byte()),
    {
        let number = self.get_hl();
        self.cmp(number);
    }

    /// Compares the given register with the accumulator.
    pub fn cmp_reg(&mut self, reg_num: usize)
        requires
            reg_num < OPERAND_M,
        ensures
            final(self)@ == old(self)@.cmp_op(old(self)@.reg_at(reg_num)),
    {
        let number = self.reg[reg_num];
        self.cmp(number);
    }

    /// Subtracts `number`, and one more when `use_carry` and the carry is
    /// set, from the accumulator, modulo 256.
    pub fn sub(&mut self, number: u8, use_carry: bool)
        ensures
            final(self)@ == old(self)@.sub_op(number, use_carry),
    {
        let acc = self.reg[REG_A];
        let mut answer = acc.wrapping_sub(number);
        if use_carry {
            if self.flags.cy {
                answer = answer.wrapping_sub(1);
            }
        }
        proof {
            lemma_byte_bits(answer);
            lemma_byte_bits(acc);
            lemma_byte_bits(number);
        }
        self.flags.z = (answer & 0xff) == 0;
        self.flags.s = (answer & 0x80) != 0;
        self.flags.cy = number > acc;
        self.flags.ac = (number & 0x0f) > (acc & 0x0f);
        self.flags.p = State8080::parity(answer);
        self.reg[REG_A] = answer;
    }

    /// Subtracts the byte at HL from the accumulator.
    pub fn sub_hl(&mut self, use_carry: bool)
        requires
            old(self)@.hl_in_memory(),
        ensures
            final(self)@ == old(self)@.sub_op(old(self)@.hl_byte(), use_carry),
    {
        let number = self.get_hl();
        self.sub(number, use_carry);
    }

    /// Subtracts the given register from the accumulator.
    pub fn sub_reg(&mut self, reg_num: usize, use_carry: bool)
        requires
            reg_num < OPERAND_M,
        ensures
            final(self)@ == old(self)@.sub_op(old(self)@.reg_at(reg_num), use_carry),
    {
        let number = self.reg[reg_num];
        self.sub(number, use_carry);
    }
    /// Ands `number` into the accumulator.
    pub fn log_and(&mut self, number: u8)
        ensures
            final(self)@ == old(self)@.and_op(number),
    {
        let answer = number & self.reg[REG_A];  //and with acc
        self.set_logic_flags(answer);
        self.reg[REG_A] = answer;
    }

    /// Ands the byte at HL into the accumulator.
    pub fn log_and_hl(&mut self)
        requires
            old(self)@.hl_in_memory(),
        ensures
            final(self)@ == old(self)@.and_op(old(self)@.hl_byte()),
    {
        let number = self.get_hl();
        self.log_and(number);
    }

    /// Ands the given register into the accumulator.
    pub fn log_and_reg(&mut self, reg_num: usize)
        requires
            reg_num < OPERAND_M,
        ensures
            final(self)@ == old(self)@.and_op(old(self)@.reg_at(reg_num)),
    {
        let number = self.reg[reg_num];
        self.log_and(number);
    }

    /// Exclusive-ors `number` into the accumulator.
    pub fn log_xor(&mut self, number: u8)
        ensures
            final(self)@ == old(self)@.xor_op(number),
    {
        let answer = number ^ self.reg[REG_A];
        self.set_logic_flags(answer);
        self.reg[REG_A] = answer;
    }

    /// Exclusive-ors the byte at HL into the accumulator.
    pub fn log_xor_hl(&mut self)
        requires
            old(self)@.hl_in_memory(),
        ensures
            final(self)@ == old(self)@.xor_op(old(self)@.hl_byte()),
    {
        let number = self.get_hl();
        self.log_xor(number);
    }

    /// Exclusive-ors the given register into the accumulator.
    pub fn log_xor_reg(&mut self, reg_num: usize)
        requires
            reg_num < OPERAND_M,
        ensures
            final(self)@ == old(self)@.xor_op(old(self)@.reg_at(reg_num)),
    {
        let number = self.reg[reg_num];
        self.log_xor(number);
    }

    /// Ors `number` into the accumulator.
    pub fn log_or(&mut self, number: u8)
        ensures
            final(self)@ == old(self)@.or_op(number),
    {
        let answer = number | self.reg[REG_A];
        self.set_logic_flags(answer);
        self.reg[REG_A] = answer;
    }

    /// Ors the byte at HL into the accumulator.
    pub fn log_or_hl(&mut self)
        requires
            old(self)@.hl_in_memory(),
        ensures
            final(self)@ == old(self)@.or_op(old(self)@.hl_byte()),
    {
        let number = self.get_hl();
        self.log_or(number);
    }

    /// Ors the given register into the accumulator.
    pub fn log_or_reg(&mut self, reg_num: usize)
        requires
            reg_num < OPERAND_M,
        ensures
            final(self)@ == old(self)@.or_op(old(self)@.reg_at(reg_num)),
    {
        let number = self.reg[reg_num];
        self.log_or(number);
    }

    fn set_logic_flags(&mut self, answer: u8)
        ensures
            final(self)@ == old(self)@.with_flags(logic_flags(answer, old(self)@.flags)),
    {
        proof {
            lemma_byte_bits(answer);
        }
        self.flags.z = (answer & 0xff) == 0;
        self.flags.s = (answer & 0x80) != 0;
        self.flags.cy = false;  //Carry always reset
        self.flags.p = State8080::parity(answer);
    }

    /// Increments the given register, or the byte at HL if 7, modulo 256.
    pub fn increment(&mut self, reg_num: usize)
        requires
            old(self)@.operand_ok(reg_num as int),
        ensures
            final(self)@ == old(self)@.increment_op(reg_num as int),
    {
        if reg_num == OPERAND_M {
            let hl = self.get_hl();
            self.set_hl(hl.wrapping_add(1));
            let answer = self.get_hl();
            self.inc_dec_flags(answer);
        } else {
            self.reg[reg_num] = self.reg[reg_num].wrapping_add(1);
            let answer = self.reg[reg_num];
            self.inc_dec_flags(answer);
        }
    }

    /// Decrements the given register, or the byte at HL if 7, modulo 256.
    pub fn decrement(&mut self, reg_num: usize)
        requires
            old(self)@.operand_ok(reg_num as int),
        ensures
            final(self)@ == old(self)@.decrement_op(reg_num as int),
    {
        if reg_num == OPERAND_M {
            let hl = self.get_hl();
            self.set_hl(hl.wrapping_sub(1));
            let answer = self.get_hl();
            self.inc_dec_flags(answer);
        } else {
            self.reg[reg_num] = self.reg[reg_num].wrapping_sub(1);
            let answer = self.reg[reg_num];
            self.inc_dec_flags(answer);
        }
    }

    /// Sets the flags for the increment and decrement operations.
    fn inc_dec_flags(&mut self, answer: u8)
        ensures
            final(self)@ == old(self)@.with_flags(inc_dec_flags(answer, old(self)@.flags)),
    {
        proof {
            lemma_byte_bits(answer);
        }
        self.flags.s = (answer & 0x80) == 0x80;
        self.flags.z = answer == 0;
        self.flags.p = State8080::parity(answer);
        self.flags.ac = (answer > 0x0F) && (answer - 1 < 0x0F);
    }

    /// Bitwise not to the accumulator.
    pub fn complement_acc(&mut self)
        ensures
            final(self)@ == old(self)@.complement_acc_op(),
    {
        let acc = self.reg[REG_A];
        proof {
            lemma_complement_bits(acc);
        }
        self.reg[REG_A] = !acc;
    }

    /// Reverses the carry bit.
    pub fn complement_carry(&mut self)
        ensures
            final(self)@ == old(self)@.complement_carry_op(),
    {
        self.flags.cy = !self.flags.cy;
    }

    /// Sets the carry bit to 1. The argument does not matter.
    pub fn set_carry(&mut self, _b: bool)
        ensures
            final(self)@ == old(self)@.set_carry_op(true),
    {
        self.flags.cy = true;
    }

    /// Rotates the acc one bit to the left. If use_carry is true, then the carry is used as an
    /// additional bit. If it is false, then carry is still affected, but the most significant bit
    /// wraps to the least significant location anyway.
    pub fn rotate_acc_left(&mut self, use_carry: bool)
        ensures
            final(self)@ == old(self)@.rotate_left_op(use_carry),
    {
        let mut acc = self.reg[REG_A];
        proof {
            lemma_byte_bits(acc);
            lemma_shift_bits(acc);
        }
        if use_carry {
            let carry = self.flags.cy;
            self.flags.cy = (acc & 0x80) == 0x80;
            acc = acc.wrapping_shl(1);
            if carry {
                acc = acc | 0x01;
            }
        } else {
            self.flags.cy = (acc & 0x80) == 0x80;  //most sig bit is moved into carry
            acc = acc.wrapping_shl(1);
            if self.flags.cy {
                acc = acc | 0x01;  //The sig bit is still wrapped around
            }
        }
        self.reg[REG_A] = acc;
    }

    /// Rotates the acc one bit to the right. If use_carry is true, then the carry is used as an
    /// additional bit. If it is false, then carry is still affected, but the least significant bit
    /// wraps to the most significant location anyway.
    pub fn rotate_acc_right(&mut self, use_carry: bool)
        ensures
            final(self)@ == old(self)@.rotate_right_op(use_carry),
    {
        let mut acc = self.reg[REG_A];
        proof {
            lemma_byte_bits(acc);
            lemma_shift_bits(acc);
        }
        if use_carry {
            let carry = self.flags.cy;
            self.flags.cy = (acc & 0x01) == 0x01;
            acc = acc.wrapping_shr(1);
            if carry {
                acc = acc | 0x80;
            }
        } else {
            self.flags.cy = (acc & 0x01) == 0x01;
            acc = acc.wrapping_shr(1);
            if self.flags.cy {
                acc = acc | 0x80;  //The least sig bit is still wrapped around
            }
        }
        self.reg[REG_A] = acc;
    }

    /// Transforms acc into binary-coded decimal form using the 8080's
    /// decimal adjustment: six is added when the low digit exceeds 9 or the
    /// auxiliary carry is set, then 0x60 when the high digit exceeds 9 or
    /// the carry is set.
    pub fn decimal_adjust_acc(&mut self)
        ensures
            final(self)@ == old(self)@.decimal_adjust_op(),
    {
        let acc = self.reg[REG_A];
        let least_sig = acc & 0x0F;
        proof {
            lemma_byte_bits(acc);
        }
        let mut adjusted: u16 = acc as u16;
        if least_sig > 9 || self.flags.ac {
            adjusted = adjusted + 6;
        }
        self.flags.ac = least_sig > 9;
        let most_sig = adjusted / 16;
        if most_sig > 9 || self.flags.cy {
            adjusted = adjusted + 0x60;
        }
        if most_sig > 9 {
            self.flags.cy = true;
        }
        proof {
            lemma_sum_bits(adjusted);
        }
        self.reg[REG_A] = (adjusted & 0xFF) as u8;
    }

    /*
    jumps and calls
    */
    /// Moves pc to the given location, directing the program to that byte of memory.
    pub fn jump(&mut self, least_sig: u8, most_sig: u8)
        ensures
            final(self)@ == old(self)@.jump_op(least_sig, most_sig),
    {
        let location: usize = (most_sig as usize) * 256 + least_sig as usize;
        self.pc = location;
    }

    /// Jumps if the given conditional function returns true.
    pub fn jump_if<F: Fn(&State8080) -> bool>(&mut self, least_sig: u8, most_sig: u8, f: F)
        requires
            call_requires(f, (&*old(self),)),
        ensures
            exists|taken: bool|
                call_ensures(f, (&*old(self),), taken) && final(self)@ == old(self)@.jump_if_op(
                    taken,
                    least_sig,
                    most_sig,
                ),
    {
        let taken = f(&*self);
        proof {
            assert(call_ensures(f, (&*old(self),), taken));
        }
        if taken {
            self.jump(least_sig, most_sig);
        }
        assert(self@ == old(self)@.jump_if_op(taken, least_sig, most_sig));
    }

    /*
    load, store, mov codes
    */
    /// Takes the source reg or hl and moves it to the destination reg or hl, overriding the old
    /// value. The index value of 7 is considered to be HL. The source value is unchanged.
    pub fn mov(&mut self, source: usize, dest: usize)
        requires
            old(self)@.operand_ok(source as int),
            old(self)@.operand_ok(dest as int),
        ensures
            final(self)@ == old(self)@.mov_op(source as int, dest as int),
    {
        let source_value: u8;
        if source == OPERAND_M {
            source_value = self.get_hl();
        } else {
            source_value = self.reg[source];
        }
        if dest == OPERAND_M {
            self.set_hl(source_value);
        } else {
            self.reg[dest] = source_value;
        }
    }

    /// Pushes the given bytes onto the stack.
    pub fn stack_push(&mut self, least_sig: u8, most_sig: u8)
        requires
            old(self)@.can_push(),
        ensures
            final(self)@ == old(self)@.push_op(least_sig, most_sig),
    {
        self.memory.set(self.sp - 1, most_sig);
        self.memory.set(self.sp - 2, least_sig);
        self.sp -= 2;
    }

    /// Pops the given bytes from the stack, placing the least significant in L and the most
    /// significant in H.
    pub fn stack_pop(&mut self)
        requires
            old(self)@.can_pop(),
        ensures
            final(self)@ == old(self)@.pop_op(),
    {
        let depth = self.memory.len();
        assert(self.sp + 1 < depth);
        self.reg[REG_L] = self.memory[self.sp];
        self.reg[REG_H] = self.memory[self.sp + 1];
        self.sp += 2;
    }

    /// Pushes a 16-bit register pair onto the stack. The number supplied is the first in the pair.
    pub fn push_reg(&mut self, first: usize)
        requires
            first + 1 < OPERAND_M,
            old(self)@.can_push(),
        ensures
            final(self)@ == old(self)@.push_reg_op(first as int),
    {
        let value1 = self.reg[first + 1];
        let value2 = self.reg[first];
        self.stack_push(value1, value2);  //first is most significant
    }

    /// Calls a subroutine by jumping to the given location in memory, but pushes the memory location
    /// after the call onto the stack, so it can be popped off when the subroutine has ended.
    pub fn call(&mut self, least_sig: u8, most_sig: u8)
        requires
            old(self)@.can_push(),
            old(self)@.pc + 3 <= usize::MAX,
        ensures
            final(self)@ == old(self)@.call_op(least_sig, most_sig),
    {
        let address: usize = (self.pc + 3) % 0x10000;
        self.stack_push((address % 256) as u8, (address / 256) as u8);
        self.jump(least_sig, most_sig);
    }

    /// Calls a subroutine if the condition function returns true.
    pub fn call_if<F: Fn(&State8080) -> bool>(&mut self, least_sig: u8, most_sig: u8, f: F)
        requires
            call_requires(f, (&*old(self),)),
            forall|taken: bool|
                call_ensures(f, (&*old(self),), taken) && taken ==> old(self)@.can_call(),
        ensures
            exists|taken: bool|
                call_ensures(f, (&*old(self),), taken) && final(self)@ == old(self)@.call_if_op(
                    taken,
                    least_sig,
                    most_sig,
                ),
    {
        let taken = f(&*self);
        proof {
            assert(call_ensures(f, (&*old(self),), taken));
        }
        if taken {
            self.call(least_sig, most_sig);
        }
        assert(self@ == old(self)@.call_if_op(taken, least_sig, most_sig));
    }

    /// Returns from a subroutine call.
    pub fn ret(&mut self)
        requires
            old(self)@.can_pop(),
        ensures
            final(self)@ == old(self)@.ret_op(),
    {
        self.stack_pop();  //Pop the memory location off the stack
        self.pc = self.get_hl_index();  //and set pc to that location
    }

    /// Returns from a subroutine call if the condition function returns true.
    pub fn ret_if<F: Fn(&State8080) -> bool>(&mut self, f: F)
        requires
            call_requires(f, (&*old(self),)),
            forall|taken: bool| call_ensures(f, (&*old(self),), taken) && taken ==> old(self)@.can_pop(),
        ensures
            exists|taken: bool|
                call_ensures(f, (&*old(self),), taken) && final(self)@ == old(self)@.ret_if_op(taken),
    {
        let taken = f(&*self);
        proof {
            assert(call_ensures(f, (&*old(self),), taken));
        }
        if taken {
            self.ret();
        }
        assert(self@ == old(self)@.ret_if_op(taken));
    }
}

impl State8080 {
    /*
    access to the state
    */
    /// The program counter.
    pub fn pc(&self) -> (pc: usize)
        ensures
            pc == self@.pc,
    {
        self.pc
    }

    /// The stack pointer.
    pub fn sp(&self) -> (sp: usize)
        ensures
            sp == self@.sp,
    {
        self.sp
    }

    /// The memory.
    pub fn memory(&self) -> (memory: &Vec<u8>)
        ensures
            memory@ == self@.memory,
    {
        &self.memory
    }

    /// Register `index` (0 to 6: A, B, C, D, E, H, L).
    pub fn register(&self, index: usize) -> (value: u8)
        requires
            index < OPERAND_M,
        ensures
            value == self@.reg_at(index),
    {
        self.reg[index]
    }

    /// The flags.
    pub fn flags(&self) -> (flags: Flags)
        ensures
            flags == self@.flags,
    {
        self.flags
    }

    /// The interrupt enable byte.
    pub fn int_enable(&self) -> (value: u8)
        ensures
            value == self@.int_enable,
    {
        self.int_enable
    }

    /// H and L address a byte of memory.
    pub fn hl_in_memory(&self) -> (b: bool)
        ensures
            b == self@.hl_in_memory(),
    {
        self.get_hl_index() < self.memory.len()
    }

    /// The stack has room to push two bytes.
    pub fn can_push(&self) -> (b: bool)
        ensures
            b == self@.can_push(),
    {
        2 <= self.sp && self.sp <= self.memory.len()
    }

    /// Two bytes can be popped from the stack.
    pub fn can_pop(&self) -> (b: bool)
        ensures
            b == self@.can_pop(),
    {
        self.sp < self.memory.len() && self.memory.len() - self.sp > 1
    }

    /// Sets register `index` (0 to 6) to `value`.
    pub fn set_register(&mut self, index: usize, value: u8)
        requires
            index < OPERAND_M,
        ensures
            final(self)@ == old(self)@.write(index as int, value),
    {
        self.reg[index] = value;
    }

    /// Sets the stack pointer.
    pub fn set_stack_pointer(&mut self, sp: usize)
        ensures
            final(self)@ == (State8080View { sp: sp, ..old(self)@ }),
    {
        self.sp = sp;
    }
}

/// The zero flag is set.
pub fn if_zero(state: &State8080) -> (b: bool)
    ensures
        b == state@.flags.z,
{
    state.flags.z
}

/// The zero flag is clear.
pub fn if_not_zero(state: &State8080) -> (b: bool)
    ensures
        b == !state@.flags.z,
{
    !state.flags.z
}

/// The carry flag is set.
pub fn if_carry(state: &State8080) -> (b: bool)
    ensures
        b == state@.flags.cy,
{
    state.flags.cy
}

/// The carry flag is clear.
pub fn if_not_carry(state: &State8080) -> (b: bool)
    ensures
        b == !state@.flags.cy,
{
    !state.flags.cy
}

/// The parity flag is set.
pub fn if_parity(state: &State8080) -> (b: bool)
    ensures
        b == state@.flags.p,
{
    state.flags.p
}

/// The parity flag is clear.
pub fn if_not_parity(state: &State8080) -> (b: bool)
    ensures
        b == !state@.flags.p,
{
    !state.flags.p
}

} // verus!
