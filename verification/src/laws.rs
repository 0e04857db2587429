use vstd::prelude::*;

use vstd::arithmetic::div_mod::lemma_fundamental_div_mod_converse;

use crate::flags::Flags;
use crate::semantics::{add_result, bit, inc_dec_flags, State8080View, OPERAND_M, REG_H, REG_L};

verus! {

/// Popping right after a push reads back the two bytes pushed: the least
/// significant lands in L, the most significant in H, the stack pointer is
/// where it was before the push, and the memory keeps the pushed bytes.
pub proof fn law_pop_undoes_push(s: State8080View, least: u8, most: u8)
    requires
        s.can_push(),
    ensures
        s.push_op(least, most).can_pop(),
        s.push_op(least, most).pop_op() == (State8080View {
            reg: s.reg.update(REG_L as int, least).update(REG_H as int, most),
            sp: s.sp,
            ..s.push_op(least, most)
        }),
{
    let t = s.push_op(least, most);
    assert(t.memory[t.sp as int] == least);
    assert(t.memory[t.sp + 1] == most);
    assert(t.pop_op().reg =~= s.reg.update(REG_L as int, least).update(REG_H as int, most));
}

/// Pushing the pair H, L and popping it again leaves every register as it
/// was and the stack pointer where it started.
pub proof fn law_pop_undoes_push_hl(s: State8080View)
    requires
        s.can_push(),
        s.reg.len() == 7,
    ensures
        s.push_reg_op(REG_H as int).can_pop(),
        s.push_reg_op(REG_H as int).pop_op().reg == s.reg,
        s.push_reg_op(REG_H as int).pop_op().sp == s.sp,
{
    assert(s.push_reg_op(REG_H as int).pop_op().reg =~= s.reg);
}

/// A return right after a call resumes at the instruction after the
/// three-byte call (as a 16-bit address), with the stack pointer back where
/// it was before the call.
pub proof fn law_return_after_call(s: State8080View, least: u8, most: u8)
    requires
        s.can_call(),
        s.reg.len() == 7,
    ensures
        s.call_op(least, most).can_pop(),
        s.call_op(least, most).ret_op().pc == (s.pc + 3) % 0x10000,
        s.call_op(least, most).ret_op().sp == s.sp,
{
    let ra = s.return_address();
    let t = s.call_op(least, most).pop_op();
    assert(t.reg[REG_L as int] == (ra % 256) as u8);
    assert(t.reg[REG_H as int] == (ra / 256) as u8);
}

/// A jump makes the given 16-bit address the program counter.
pub proof fn law_jump_target(s: State8080View, least: u8, most: u8)
    ensures
        s.jump_op(least, most).pc == most * 256 + least,
{
}

/// Complementing the accumulator twice restores the state.
pub proof fn law_complement_acc_involution(s: State8080View)
    requires
        s.reg.len() == 7,
    ensures
        s.complement_acc_op().complement_acc_op() == s,
{
    assert(s.complement_acc_op().complement_acc_op().reg =~= s.reg);
}

/// Complementing the carry twice restores the state.
pub proof fn law_complement_carry_involution(s: State8080View)
    ensures
        s.complement_carry_op().complement_carry_op() == s,
{
}

/// Rotating left through the carry and then right through the carry
/// restores the whole state, and so does the reverse order.
pub proof fn law_rotate_through_carry_round_trip(s: State8080View)
    requires
        s.reg.len() == 7,
    ensures
        s.rotate_left_op(true).rotate_right_op(true) == s,
        s.rotate_right_op(true).rotate_left_op(true) == s,
{
    assert(s.rotate_left_op(true).rotate_right_op(true).reg =~= s.reg);
    assert(s.rotate_right_op(true).rotate_left_op(true).reg =~= s.reg);
}

/// Rotating left and then right without the carry restores the
/// accumulator (and the reverse order too); the carry ends as the bit that
/// went round.
pub proof fn law_rotate_round_trip(s: State8080View)
    requires
        s.reg.len() == 7,
    ensures
        s.rotate_left_op(false).rotate_right_op(false) == s.set_carry_op(s.acc() >= 0x80),
        s.rotate_right_op(false).rotate_left_op(false) == s.set_carry_op(s.acc() % 2 == 1),
{
    assert(s.rotate_left_op(false).rotate_right_op(false).reg =~= s.reg);
    assert(s.rotate_right_op(false).rotate_left_op(false).reg =~= s.reg);
}

/// Adding a byte and then subtracting it restores the accumulator.
pub proof fn law_sub_undoes_add(s: State8080View, n: u8)
    requires
        s.reg.len() == 7,
    ensures
        s.add_op(n, false).sub_op(n, false).acc() == s.acc(),
{
    let a = s.acc();
    let sum: int = a + n;
    let r: u8 = (sum % 256) as u8;
    if sum < 256 {
        assert(r == sum);
    } else {
        assert(r == sum - 256);
    }
    assert((r - n) % 256 == a as int);
    assert(s.add_op(n, false).acc() == r);
}

/// The accumulator and carry after an addition hold the full sum: result
/// plus 256 times the carry equals the two bytes plus the carry in.
pub proof fn law_add_carry_is_overflow(acc: u8, n: u8, carry_in: bool, f: Flags)
    ensures
        add_result(acc, n, carry_in, f).0 + 256 * bit(add_result(acc, n, carry_in, f).1.cy) == acc
            + n + bit(carry_in),
{
}

/// A comparison leaves all but the flags as they were, sets the zero flag
/// exactly when the accumulator equals the byte compared, and the carry
/// exactly when the accumulator is below it.
pub proof fn law_compare_keeps_state(s: State8080View, n: u8)
    ensures
        s.cmp_op(n) == s.with_flags(s.cmp_op(n).flags),
        s.cmp_op(n).flags.z == (s.acc() == n),
        s.cmp_op(n).flags.cy == (s.acc() < n),
{
}

/// Exclusive-or of the accumulator with itself clears it, sets the zero
/// and parity flags and clears the carry.
pub proof fn law_xor_self_clears(s: State8080View)
    requires
        s.reg.len() == 7,
    ensures
        s.xor_op(s.acc()).acc() == 0,
        s.xor_op(s.acc()).flags.z,
        s.xor_op(s.acc()).flags.p,
        !s.xor_op(s.acc()).flags.cy,
{
    let a = s.acc();
    assert(a ^ a == 0) by (bit_vector);
}

/// Incrementing an operand and then decrementing it restores the state
/// but for the flags, which describe the restored value.
pub proof fn law_decrement_undoes_increment(s: State8080View, r: int)
    requires
        s.reg.len() == 7,
        s.operand_ok(r),
    ensures
        s.increment_op(r).operand_ok(r),
        s.increment_op(r).decrement_op(r) == s.with_flags(inc_dec_flags(s.read(r), s.flags)),
{
    let t = s.increment_op(r).decrement_op(r);
    if r == 7 {
        assert(t.memory =~= s.memory);
    } else {
        assert(t.reg =~= s.reg);
    }
}

/// A move leaves the source's value in the destination and keeps the
/// source as it was, unless the source is the byte at HL and the move
/// overwrites H or L, which changes the byte that HL names.
pub proof fn law_move_copies_source(s: State8080View, source: int, dest: int)
    requires
        s.reg.len() == 7,
        s.operand_ok(source),
        s.operand_ok(dest),
    ensures
        s.mov_op(source, dest).read(dest) == s.read(source),
        !(source == OPERAND_M && (dest == REG_H || dest == REG_L)) ==> s.mov_op(source, dest).read(
            source,
        ) == s.read(source),
{
}

/// Moving an operand onto itself changes nothing.
pub proof fn law_move_to_self(s: State8080View, r: int)
    requires
        s.reg.len() == 7,
        s.operand_ok(r),
    ensures
        s.mov_op(r, r) == s,
{
    if r == 7 {
        assert(s.mov_op(r, r).memory =~= s.memory);
    } else {
        assert(s.mov_op(r, r).reg =~= s.reg);
    }
}

/// Emulating a taken jump leaves the program counter at its target.
pub proof fn law_step_jump_lands_on_target(s: State8080View)
    requires
        s.can_step(),
        s.opcode() == 0xC3,
    ensures
        s.step().pc == s.fetch(2) * 256 + s.fetch(1),
{
}

/// Emulating a call and then a return at the called address resumes right
/// after the three-byte call, with the stack pointer back where it was.
pub proof fn law_step_return_after_call(s: State8080View)
    requires
        s.reg.len() == 7,
        s.can_step(),
        s.opcode() == 0xCD,
        s.step().can_step(),
        s.step().opcode() == 0xC9,
    ensures
        s.step().step().pc == (s.pc + 3) % 0x10000,
        s.step().step().sp == s.sp,
{
    law_return_after_call(s, s.fetch(1), s.fetch(2));
}

/// Every instruction keeps the size of memory and of the register file.
pub proof fn law_step_keeps_sizes(s: State8080View)
    requires
        s.reg.len() == 7,
        s.can_step(),
    ensures
        s.step().memory.len() == s.memory.len(),
        s.step().reg.len() == 7,
{
}

/// Both digits of the byte are decimal digits.
pub open spec fn is_bcd(v: u8) -> bool {
    v % 16 <= 9 && v / 16 <= 9
}

/// The number a binary-coded decimal byte stands for.
pub open spec fn bcd_value(v: u8) -> int {
    10 * (v / 16) + v % 16
}

/// A byte given by its two hexadecimal digits.
proof fn lemma_digits(v: int, h: int, l: int)
    requires
        v == 16 * h + l,
        0 <= h < 16,
        0 <= l < 16,
    ensures
        v % 256 == v,
        (v + 256) % 256 == v,
        v / 16 == h,
        v % 16 == l,
{
    lemma_fundamental_div_mod_converse(v, 256, 0, v);
    lemma_fundamental_div_mod_converse(v + 256, 256, 1, v);
    lemma_fundamental_div_mod_converse(v, 16, h, l);
}

/// Decimal adjustment after a binary addition, on the two digit sums:
/// `high` and `low` are the sums of the high and of the low decimal digits
/// of the two bytes added, `raw` the binary sum, `a1` and `a2` the values
/// after the two correction steps.
proof fn lemma_decimal_adjust_digits(high: int, low: int, raw: int, a1: int, a2: int)
    requires
        0 <= high <= 18,
        0 <= low <= 18,
        raw == 16 * high + low,
        a1 == (if raw % 256 % 16 > 9 || low > 15 { raw % 256 + 6 } else { raw % 256 }),
        a2 == (if a1 / 16 > 9 || raw > 255 { a1 + 0x60 } else { a1 }),
    ensures
        a2 % 256 % 16 <= 9,
        a2 % 256 / 16 <= 9,
        10 * (a2 % 256 / 16) + a2 % 256 % 16 == (10 * high + low) % 100,
        (raw > 255 || a1 / 16 > 9) == (10 * high + low >= 100),
{
    // the binary sum as a byte, with its digits
    let (rh, rl) = if low <= 15 {
        (high % 16, low)
    } else {
        ((high + 1) % 16, low - 16)
    };
    let r = 16 * rh + rl;
    lemma_digits(r, rh, rl);
    if low <= 15 && high <= 15 {
        assert(raw == r);
    } else if low <= 15 {
        assert(raw == r + 256);
    } else if high <= 14 {
        assert(raw == r);
    } else {
        assert(raw == r + 256);
    }
    assert(raw % 256 == r);
    // after the first step
    let (h1, l1) = if rl > 9 {
        (rh + 1, rl - 10)
    } else if low > 15 {
        (rh, rl + 6)
    } else {
        (rh, rl)
    };
    assert(a1 == 16 * h1 + l1);
    lemma_fundamental_div_mod_converse(a1, 16, h1, l1);
    // after the second step
    let step2 = h1 > 9 || raw > 255;
    let h2 = if !step2 {
        h1
    } else if h1 + 6 >= 16 {
        h1 + 6 - 16
    } else {
        h1 + 6
    };
    lemma_digits(16 * h2 + l1, h2, l1);
    if step2 && h1 + 6 >= 16 {
        assert(a2 == 16 * h2 + l1 + 256);
    } else {
        assert(a2 == 16 * h2 + l1);
    }
    assert(a2 % 256 == 16 * h2 + l1);
}

/// Adding two binary-coded decimal bytes and then adjusting the
/// accumulator gives the binary-coded decimal form of their sum modulo 100,
/// with the carry set exactly when the sum reached 100.
pub proof fn law_decimal_adjust_after_add(s: State8080View, n: u8)
    requires
        s.reg.len() == 7,
        is_bcd(s.acc()),
        is_bcd(n),
    ensures
        is_bcd(s.add_op(n, false).decimal_adjust_op().acc()),
        bcd_value(s.add_op(n, false).decimal_adjust_op().acc()) == (bcd_value(s.acc()) + bcd_value(
            n,
        )) % 100,
        s.add_op(n, false).decimal_adjust_op().flags.cy == (bcd_value(s.acc()) + bcd_value(n)
            >= 100),
{
    let x = s.acc();
    let t = s.add_op(n, false);
    let r = t.acc();
    let high: int = x / 16 + n / 16;
    let low: int = x % 16 + n % 16;
    let raw: int = x + n;
    assert(raw == 16 * high + low);
    assert(r == raw % 256);
    assert(t.flags.ac == (low > 15));
    assert(t.flags.cy == (raw > 255));
    let a1: int = if r % 16 > 9 || t.flags.ac { r + 6 } else { r as int };
    let a2: int = if a1 / 16 > 9 || t.flags.cy { a1 + 0x60 } else { a1 };
    lemma_decimal_adjust_digits(high, low, raw, a1, a2);
    assert(bcd_value(x) + bcd_value(n) == 10 * high + low);
}

} // verus!
