use vstd::prelude::*;

use crate::flags::{even_parity, ones, Flags};
use crate::semantics::{State8080View, OPERAND_M, REG_A, REG_H, REG_L};

verus! {

/// Bit `i` (0 = least significant) of `x` is one.
pub open spec fn bit_is_set(x: u8, i: u8) -> bool {
    (x >> i) & 1 == 1
}

proof fn lemma_and_bits(a: u8, n: u8, i: u8)
    by (bit_vector)
    requires
        i < 8,
    ensures
        ((n & a) >> i) & 1 == 1 <==> ((a >> i) & 1 == 1 && (n >> i) & 1 == 1),
{
}

proof fn lemma_or_bits(a: u8, n: u8, i: u8)
    by (bit_vector)
    requires
        i < 8,
    ensures
        ((n | a) >> i) & 1 == 1 <==> ((a >> i) & 1 == 1 || (n >> i) & 1 == 1),
{
}

proof fn lemma_xor_bits(a: u8, n: u8, i: u8)
    by (bit_vector)
    requires
        i < 8,
    ensures
        ((n ^ a) >> i) & 1 == 1 <==> ((a >> i) & 1 == 1) != ((n >> i) & 1 == 1),
{
}

/// `x` as a byte, for `0 <= x < 256`.
pub open spec fn to_byte(x: int) -> u8 {
    x as u8
}

/// The flags a result `r` gives its zero, sign and parity flags.
pub open spec fn result_flags_match(f: Flags, r: u8) -> bool {
    &&& f.z == (r == 0)
    &&& f.s == (r >= 0x80)
    &&& f.p == even_parity(r)
}

/// Adding `n` (plus one when `use_carry` and the carry is set) leaves the
/// sum modulo 256 in the accumulator; the carry tells whether the sum
/// passed 255, the auxiliary carry whether the low digits passed 15, and
/// zero, sign and parity describe the result. Nothing else changes. With
/// the carry clear, adding with carry is a plain addition.
pub proof fn law_add(s: State8080View, n: u8, use_carry: bool)
    requires
        s.reg.len() == 7,
    ensures
        ({
            let k: int = if use_carry && s.flags.cy { 1 } else { 0 };
            let total: int = s.acc() + n + k;
            let t = s.add_op(n, use_carry);
            &&& t.acc() == total % 256
            &&& t.flags.cy == (total > 255)
            &&& t.flags.ac == (s.acc() % 16 + n % 16 > 15)
            &&& result_flags_match(t.flags, t.acc())
            &&& t.reg == s.reg.update(REG_A as int, t.acc())
            &&& t.memory == s.memory && t.pc == s.pc && t.sp == s.sp
            &&& t.int_enable == s.int_enable
        }),
        !s.flags.cy ==> s.add_op(n, true) == s.add_op(n, false),
{
}

/// Subtracting `n` (plus one more when `use_carry` and the carry is set)
/// leaves the difference modulo 256 in the accumulator; the carry is set
/// when `n` exceeds the accumulator, the auxiliary carry when `n`'s low
/// digit exceeds the accumulator's, and zero, sign and parity describe the
/// result. Nothing else changes. With the carry clear, subtracting with
/// borrow is a plain subtraction.
pub proof fn law_sub(s: State8080View, n: u8, use_carry: bool)
    requires
        s.reg.len() == 7,
    ensures
        ({
            let k: int = if use_carry && s.flags.cy { 1 } else { 0 };
            let diff: int = s.acc() - n - k;
            let t = s.sub_op(n, use_carry);
            &&& t.acc() == (if diff >= 0 { diff } else { diff + 256 })
            &&& t.flags.cy == (n > s.acc())
            &&& t.flags.ac == (n % 16 > s.acc() % 16)
            &&& result_flags_match(t.flags, t.acc())
            &&& t.reg == s.reg.update(REG_A as int, t.acc())
            &&& t.memory == s.memory && t.pc == s.pc && t.sp == s.sp
            &&& t.int_enable == s.int_enable
        }),
        !s.flags.cy ==> s.sub_op(n, true) == s.sub_op(n, false),
{
}

/// A comparison keeps everything but the flags, which are those of the
/// subtraction `acc - n`: zero when equal, carry when `n` is larger, sign
/// and parity of the difference modulo 256, auxiliary carry when `n`'s low
/// digit is larger.
pub proof fn law_compare(s: State8080View, n: u8)
    ensures
        ({
            let a = s.acc();
            let d: int = if a >= n { a - n } else { a - n + 256 };
            let t = s.cmp_op(n);
            &&& t.flags.z == (a == n)
            &&& t.flags.cy == (n > a)
            &&& t.flags.s == (d >= 0x80)
            &&& t.flags.p == even_parity(to_byte(d))
            &&& t.flags.ac == (n % 16 > a % 16)
            &&& t == State8080View { flags: t.flags, ..s }
        }),
{
}

/// And leaves in the accumulator the bits set in both operands; the carry
/// is cleared, the auxiliary carry kept, and zero, sign and parity describe
/// the result. Nothing else changes.
pub proof fn law_and(s: State8080View, n: u8)
    requires
        s.reg.len() == 7,
    ensures
        forall|i: u8|
            i < 8 ==> #[trigger] bit_is_set(s.and_op(n).acc(), i) == (bit_is_set(s.acc(), i)
                && bit_is_set(n, i)),
        !s.and_op(n).flags.cy,
        s.and_op(n).flags.ac == s.flags.ac,
        result_flags_match(s.and_op(n).flags, s.and_op(n).acc()),
        s.and_op(n).reg == s.reg.update(REG_A as int, s.and_op(n).acc()),
        s.and_op(n).memory == s.memory && s.and_op(n).pc == s.pc && s.and_op(n).sp == s.sp,
{
    assert forall|i: u8| i < 8 implies #[trigger] bit_is_set(s.and_op(n).acc(), i) == (
    bit_is_set(s.acc(), i) && bit_is_set(n, i)) by {
        lemma_and_bits(s.acc(), n, i);
    }
}

/// Or leaves in the accumulator the bits set in either operand; the carry
/// is cleared, the auxiliary carry kept, and zero, sign and parity describe
/// the result. Nothing else changes.
pub proof fn law_or(s: State8080View, n: u8)
    requires
        s.reg.len() == 7,
    ensures
        forall|i: u8|
            i < 8 ==> #[trigger] bit_is_set(s.or_op(n).acc(), i) == (bit_is_set(s.acc(), i)
                || bit_is_set(n, i)),
        !s.or_op(n).flags.cy,
        s.or_op(n).flags.ac == s.flags.ac,
        result_flags_match(s.or_op(n).flags, s.or_op(n).acc()),
        s.or_op(n).reg == s.reg.update(REG_A as int, s.or_op(n).acc()),
        s.or_op(n).memory == s.memory && s.or_op(n).pc == s.pc && s.or_op(n).sp == s.sp,
{
    assert forall|i: u8| i < 8 implies #[trigger] bit_is_set(s.or_op(n).acc(), i) == (
    bit_is_set(s.acc(), i) || bit_is_set(n, i)) by {
        lemma_or_bits(s.acc(), n, i);
    }
}

/// Exclusive or leaves in the accumulator the bits set in exactly one
/// operand; the carry is cleared, the auxiliary carry kept, and zero, sign
/// and parity describe the result. Nothing else changes.
pub proof fn law_xor(s: State8080View, n: u8)
    requires
        s.reg.len() == 7,
    ensures
        forall|i: u8|
            i < 8 ==> #[trigger] bit_is_set(s.xor_op(n).acc(), i) == (bit_is_set(s.acc(), i)
                != bit_is_set(n, i)),
        !s.xor_op(n).flags.cy,
        s.xor_op(n).flags.ac == s.flags.ac,
        result_flags_match(s.xor_op(n).flags, s.xor_op(n).acc()),
        s.xor_op(n).reg == s.reg.update(REG_A as int, s.xor_op(n).acc()),
        s.xor_op(n).memory == s.memory && s.xor_op(n).pc == s.pc && s.xor_op(n).sp == s.sp,
{
    assert forall|i: u8| i < 8 implies #[trigger] bit_is_set(s.xor_op(n).acc(), i) == (
    bit_is_set(s.acc(), i) != bit_is_set(n, i)) by {
        lemma_xor_bits(s.acc(), n, i);
    }
}

proof fn lemma_not_bits(a: u8, i: u8)
    by (bit_vector)
    requires
        i < 8,
    ensures
        (((255 - a) as u8) >> i) & 1 == 1 <==> !((a >> i) & 1 == 1),
{
}

proof fn lemma_rotate_left_bits(a: u8, r: u8, low: u8, i: u8)
    by (bit_vector)
    requires
        low < 2,
        r == (a % 128) * 2 + low,
        1 <= i < 8,
    ensures
        (r >> i) & 1 == 1 <==> (a >> ((i - 1) as u8)) & 1 == 1,
        (r >> 0u8) & 1 == low,
        (a >> 7u8) & 1 == 1 <==> a >= 128,
{
}

proof fn lemma_rotate_right_bits(a: u8, r: u8, high: u8, i: u8)
    by (bit_vector)
    requires
        high < 2,
        r == a / 2 + high * 128,
        i < 7,
    ensures
        (r >> i) & 1 == 1 <==> (a >> ((i + 1) as u8)) & 1 == 1,
        (r >> 7u8) & 1 == high,
        (a >> 0u8) & 1 == a % 2,
{
}

/// Incrementing an operand leaves its value plus one modulo 256 there;
/// zero, sign and parity describe the new value, the auxiliary carry is
/// cleared and the carry kept. Nothing else changes.
pub proof fn law_increment(s: State8080View, r: int)
    requires
        s.reg.len() == 7,
        s.operand_ok(r),
    ensures
        ({
            let v: int = if s.read(r) == 255 { 0 } else { s.read(r) + 1 };
            let t = s.increment_op(r);
            &&& t.read(r) == v
            &&& result_flags_match(t.flags, t.read(r))
            &&& t.flags.cy == s.flags.cy && !t.flags.ac
            &&& r == OPERAND_M ==> t.reg == s.reg && t.memory == s.memory.update(
                s.hl_index(),
                t.read(r),
            )
            &&& r != OPERAND_M ==> t.memory == s.memory && t.reg == s.reg.update(r, t.read(r))
            &&& t.pc == s.pc && t.sp == s.sp
        }),
{
}

/// Decrementing an operand leaves its value minus one modulo 256 there;
/// zero, sign and parity describe the new value, the auxiliary carry is
/// cleared and the carry kept. Nothing else changes.
pub proof fn law_decrement(s: State8080View, r: int)
    requires
        s.reg.len() == 7,
        s.operand_ok(r),
    ensures
        ({
            let v: int = if s.read(r) == 0 { 255 } else { s.read(r) - 1 };
            let t = s.decrement_op(r);
            &&& t.read(r) == v
            &&& result_flags_match(t.flags, t.read(r))
            &&& t.flags.cy == s.flags.cy && !t.flags.ac
            &&& r == OPERAND_M ==> t.reg == s.reg && t.memory == s.memory.update(
                s.hl_index(),
                t.read(r),
            )
            &&& r != OPERAND_M ==> t.memory == s.memory && t.reg == s.reg.update(r, t.read(r))
            &&& t.pc == s.pc && t.sp == s.sp
        }),
{
}

/// Complementing the accumulator flips each of its bits; nothing else
/// changes.
pub proof fn law_complement_acc(s: State8080View)
    requires
        s.reg.len() == 7,
    ensures
        forall|i: u8|
            i < 8 ==> #[trigger] bit_is_set(s.complement_acc_op().acc(), i) == !bit_is_set(
                s.acc(),
                i,
            ),
        s.complement_acc_op().acc() + s.acc() == 255,
        s.complement_acc_op() == (State8080View {
            reg: s.reg.update(REG_A as int, s.complement_acc_op().acc()),
            ..s
        }),
{
    assert forall|i: u8| i < 8 implies #[trigger] bit_is_set(s.complement_acc_op().acc(), i)
        == !bit_is_set(s.acc(), i) by {
        lemma_not_bits(s.acc(), i);
    }
}

/// Setting the carry makes it one, complementing it flips it; nothing else
/// changes.
pub proof fn law_carry_operations(s: State8080View)
    ensures
        s.set_carry_op(true) == s.with_flags(Flags { cy: true, ..s.flags }),
        s.complement_carry_op() == s.with_flags(Flags { cy: !s.flags.cy, ..s.flags }),
        s.with_flags(s.flags) == s,
{
}

/// Rotating left moves every bit of the accumulator one place up; the top
/// bit goes to the carry, and the bit entering at the bottom is the old
/// carry when rotating through it, else the old top bit. Nothing but the
/// accumulator and the carry changes.
pub proof fn law_rotate_left(s: State8080View, use_carry: bool)
    requires
        s.reg.len() == 7,
    ensures
        ({
            let a = s.acc();
            let t = s.rotate_left_op(use_carry);
            &&& forall|i: u8|
                1 <= i < 8 ==> #[trigger] bit_is_set(t.acc(), i) == bit_is_set(a, (i - 1) as u8)
            &&& bit_is_set(t.acc(), 0) == (if use_carry { s.flags.cy } else { bit_is_set(a, 7) })
            &&& t.flags == Flags { cy: bit_is_set(a, 7), ..s.flags }
            &&& t.reg == s.reg.update(REG_A as int, t.acc())
            &&& t.memory == s.memory && t.pc == s.pc && t.sp == s.sp
        }),
{
    let a = s.acc();
    let t = s.rotate_left_op(use_carry);
    let low: u8 = if use_carry {
        if s.flags.cy { 1 } else { 0 }
    } else {
        if a >= 128 { 1 } else { 0 }
    };
    assert(t.acc() == (a % 128) * 2 + low);
    lemma_rotate_left_bits(a, t.acc(), low, 1);
    assert forall|i: u8| 1 <= i < 8 implies #[trigger] bit_is_set(t.acc(), i) == bit_is_set(
        a,
        (i - 1) as u8,
    ) by {
        lemma_rotate_left_bits(a, t.acc(), low, i);
    }
}

/// Rotating right moves every bit of the accumulator one place down; the
/// bottom bit goes to the carry, and the bit entering at the top is the old
/// carry when rotating through it, else the old bottom bit. Nothing but the
/// accumulator and the carry changes.
pub proof fn law_rotate_right(s: State8080View, use_carry: bool)
    requires
        s.reg.len() == 7,
    ensures
        ({
            let a = s.acc();
            let t = s.rotate_right_op(use_carry);
            &&& forall|i: u8|
                i < 7 ==> #[trigger] bit_is_set(t.acc(), i) == bit_is_set(a, (i + 1) as u8)
            &&& bit_is_set(t.acc(), 7) == (if use_carry { s.flags.cy } else { bit_is_set(a, 0) })
            &&& t.flags == Flags { cy: bit_is_set(a, 0), ..s.flags }
            &&& t.reg == s.reg.update(REG_A as int, t.acc())
            &&& t.memory == s.memory && t.pc == s.pc && t.sp == s.sp
        }),
{
    let a = s.acc();
    let t = s.rotate_right_op(use_carry);
    let high: u8 = if use_carry {
        if s.flags.cy { 1 } else { 0 }
    } else {
        a % 2
    };
    assert(t.acc() == a / 2 + high * 128);
    lemma_rotate_right_bits(a, t.acc(), high, 0);
    assert forall|i: u8| i < 7 implies #[trigger] bit_is_set(t.acc(), i) == bit_is_set(
        a,
        (i + 1) as u8,
    ) by {
        lemma_rotate_right_bits(a, t.acc(), high, i);
    }
}

proof fn lemma_low_bit_flip(x: u8)
    by (bit_vector)
    ensures
        (x ^ 1) / 2 == x / 2,
        (x ^ 1) % 2 == 1 - x % 2,
{
}

/// Zero has even parity, and flipping the lowest bit of a byte flips its
/// parity.
pub proof fn law_parity(x: u8)
    ensures
        even_parity(0),
        even_parity(x ^ 1) != even_parity(x),
{
    lemma_low_bit_flip(x);
    assert(ones((x ^ 1) as nat) == (x ^ 1) % 2 + ones(((x ^ 1) / 2) as nat));
    assert(ones(x as nat) == x % 2 + ones((x / 2) as nat));
}

/// Decimal adjustment leaves a byte of two decimal digits alone when
/// neither carry is set, and never touches zero, sign, parity or anything
/// but the accumulator and the two carries; the auxiliary carry tells
/// whether the low digit was above 9.
pub proof fn law_decimal_adjust_frame(s: State8080View)
    requires
        s.reg.len() == 7,
    ensures
        ({
            let t = s.decimal_adjust_op();
            &&& t.flags.z == s.flags.z && t.flags.s == s.flags.s && t.flags.p == s.flags.p
            &&& t.flags.ac == (s.acc() % 16 > 9)
            &&& s.flags.cy ==> t.flags.cy
            &&& t.reg == s.reg.update(REG_A as int, t.acc())
            &&& t.memory == s.memory && t.pc == s.pc && t.sp == s.sp
            &&& (s.acc() % 16 <= 9 && s.acc() / 16 <= 9 && !s.flags.ac && !s.flags.cy) ==> t == s
        }),
{
    let t = s.decimal_adjust_op();
    if s.acc() % 16 <= 9 && s.acc() / 16 <= 9 && !s.flags.ac && !s.flags.cy {
        assert(t.reg =~= s.reg);
    }
}

/// A move copies the source operand into the destination and changes
/// nothing else: a register destination changes only that register, the
/// destination HL changes only the byte H and L address.
pub proof fn law_move(s: State8080View, source: int, dest: int)
    requires
        s.reg.len() == 7,
        s.operand_ok(source),
        s.operand_ok(dest),
    ensures
        dest != OPERAND_M ==> s.mov_op(source, dest) == (State8080View {
            reg: s.reg.update(dest, s.read(source)),
            ..s
        }),
        dest == OPERAND_M ==> s.mov_op(source, dest) == (State8080View {
            memory: s.memory.update(s.reg[REG_H as int] * 256 + s.reg[REG_L as int], s.read(source)),
            ..s
        }),
        source != OPERAND_M ==> s.read(source) == s.reg[source],
        source == OPERAND_M ==> s.read(source) == s.memory[s.reg[REG_H as int] * 256
            + s.reg[REG_L as int]],
{
}

/// Pushing stores the high byte just below the stack pointer and the low
/// byte below it, lowering the stack pointer by two; popping loads L from
/// the stack pointer and H from the byte above and raises it by two.
/// Nothing else changes.
pub proof fn law_stack_operations(s: State8080View, least: u8, most: u8)
    ensures
        s.can_push() ==> s.push_op(least, most) == (State8080View {
            memory: s.memory.update(s.sp - 1, most).update(s.sp - 2, least),
            sp: (s.sp - 2) as usize,
            ..s
        }),
        s.can_pop() ==> s.pop_op() == (State8080View {
            reg: s.reg.update(REG_L as int, s.memory[s.sp as int]).update(
                REG_H as int,
                s.memory[s.sp + 1],
            ),
            sp: (s.sp + 2) as usize,
            ..s
        }),
        s.advance_op(least) == (State8080View { pc: (s.pc + least) as usize, ..s }),
{
}

/// A conditional jump, call or return acts only when its condition holds.
pub proof fn law_conditional_operations(s: State8080View, taken: bool, least: u8, most: u8)
    ensures
        !taken ==> s.jump_if_op(taken, least, most) == s && s.call_if_op(taken, least, most) == s
            && s.ret_if_op(taken) == s,
        taken ==> s.jump_if_op(taken, least, most) == (State8080View {
            pc: (most * 256 + least) as usize,
            ..s
        }),
        taken ==> s.call_if_op(taken, least, most) == s.call_op(least, most),
        taken ==> s.ret_if_op(taken) == s.ret_op(),
{
}

} // verus!
