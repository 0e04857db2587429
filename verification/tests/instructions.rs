use cpu8080::state::{if_carry, if_not_carry, if_not_parity, if_not_zero, if_parity, if_zero};
use cpu8080::{Flags, State8080};

const A: usize = 0;
const B: usize = 1;
const C: usize = 2;
const H: usize = 5;
const L: usize = 6;
const M: usize = 7;

fn state_with_acc(acc: u8) -> State8080 {
    let mut s = State8080::new(vec![0; 16]);
    s.set_register(A, acc);
    s
}

#[test]
fn new_state_is_cleared() {
    let s = State8080::new(vec![1, 2, 3]);
    for i in 0..7 {
        assert_eq!(s.register(i), 0);
    }
    assert_eq!(s.pc(), 0);
    assert_eq!(s.sp(), 0);
    assert_eq!(s.int_enable(), 0);
    assert_eq!(s.memory(), &vec![1, 2, 3]);
    assert_eq!(s.flags(), Flags { z: false, s: false, p: false, cy: false, ac: false });
    assert_eq!(Flags::new(), s.flags());
}

#[test]
fn parity_counts_one_bits() {
    assert!(State8080::parity(0));
    assert!(!State8080::parity(1));
    assert!(State8080::parity(3));
    assert!(!State8080::parity(0x07));
    assert!(State8080::parity(0xFF));
    assert!(!State8080::parity(0xA2));
}

#[test]
fn advance_moves_pc() {
    let mut s = State8080::new(vec![]);
    s.advance(3);
    s.advance(2);
    assert_eq!(s.pc(), 5);
}

#[test]
fn add_sets_result_and_flags() {
    let mut s = state_with_acc(0x2E);
    s.add(0x74, false);
    assert_eq!(s.register(A), 0xA2);
    let f = s.flags();
    assert!(f.s && !f.z && !f.cy && f.ac && !f.p);
}

#[test]
fn add_overflow_sets_carry_and_zero() {
    let mut s = state_with_acc(0xFF);
    s.add(0x01, false);
    assert_eq!(s.register(A), 0);
    let f = s.flags();
    assert!(f.z && f.cy && f.ac && f.p && !f.s);
}

#[test]
fn add_with_carry_uses_carry_only_when_asked() {
    let mut s = state_with_acc(0x10);
    s.set_carry(true);
    s.add(0x05, false);
    assert_eq!(s.register(A), 0x15);
    s.set_carry(true);
    s.add(0x05, true);
    assert_eq!(s.register(A), 0x1B);
}

#[test]
fn add_reg_and_add_hl() {
    let mut s = State8080::new(vec![0; 0x300]);
    s.set_register(A, 1);
    s.set_register(B, 2);
    s.add_reg(B, false);
    assert_eq!(s.register(A), 3);
    // HL = 0x0201
    s.set_register(H, 0x02);
    s.set_register(L, 0x01);
    let mut mem = State8080::new(vec![0; 0x300]);
    mem.set_register(H, 0x02);
    mem.set_register(L, 0x01);
    mem.increment(M);
    assert_eq!(mem.memory()[0x201], 1);
    mem.increment(M);
    mem.set_register(A, 5);
    mem.add_hl(false);
    assert_eq!(mem.register(A), 7);
}

#[test]
fn sub_wraps_and_sets_borrow() {
    let mut s = state_with_acc(0x01);
    s.sub(0x02, false);
    assert_eq!(s.register(A), 0xFF);
    let f = s.flags();
    assert!(f.cy && f.s && !f.z && f.ac && f.p);
}

#[test]
fn sub_with_borrow() {
    let mut s = state_with_acc(0x10);
    s.set_carry(true);
    s.sub(0x01, true);
    assert_eq!(s.register(A), 0x0E);
    let mut t = state_with_acc(0x00);
    t.set_carry(true);
    t.sub(0x00, true);
    assert_eq!(t.register(A), 0xFF);
    assert!(!t.flags().cy);
}

#[test]
fn sub_reg_self_is_zero() {
    let mut s = state_with_acc(0x3E);
    s.sub_reg(A, false);
    assert_eq!(s.register(A), 0);
    assert!(s.flags().z);
    assert!(s.flags().p);
}

#[test]
fn sub_hl_reads_memory() {
    let mut s = State8080::new(vec![0, 0, 7]);
    s.set_register(L, 2);
    s.set_register(A, 10);
    s.sub_hl(false);
    assert_eq!(s.register(A), 3);
}

#[test]
fn compare_keeps_accumulator() {
    let mut s = state_with_acc(0x0A);
    s.cmp(0x0A);
    assert_eq!(s.register(A), 0x0A);
    assert!(s.flags().z);
    assert!(!s.flags().cy);
    s.cmp(0x05);
    assert!(!s.flags().z);
    assert!(!s.flags().cy);
    s.cmp(0x20);
    assert!(s.flags().cy);
    assert_eq!(s.register(A), 0x0A);
}

#[test]
fn compare_carry_ignores_sign() {
    // 0x0A < 0x90: the carry is set although the two differ in sign
    let mut s = state_with_acc(0x0A);
    s.cmp(0x90);
    assert!(s.flags().cy);
    let mut t = state_with_acc(0x80);
    t.set_register(B, 0x01);
    t.cmp_reg(B);
    assert!(!t.flags().cy);
    assert_eq!(t.register(A), 0x80);
}

#[test]
fn compare_with_register_and_memory() {
    let mut s = State8080::new(vec![0x42]);
    s.set_register(A, 0x42);
    s.set_register(C, 0x42);
    s.cmp_reg(C);
    assert!(s.flags().z);
    s.set_register(A, 0x41);
    s.cmp_hl();
    assert!(!s.flags().z);
    assert!(s.flags().cy);
}

#[test]
fn logical_operations() {
    let mut s = state_with_acc(0b1100_1010);
    s.set_carry(true);
    s.log_and(0b1010_0110);
    assert_eq!(s.register(A), 0b1000_0010);
    assert!(!s.flags().cy && s.flags().s && s.flags().p);
    s.log_or(0b0000_0001);
    assert_eq!(s.register(A), 0b1000_0011);
    assert!(!s.flags().p);
    s.log_xor(0b1000_0011);
    assert_eq!(s.register(A), 0);
    assert!(s.flags().z);
}

#[test]
fn logical_operations_on_registers_and_memory() {
    let mut s = State8080::new(vec![0x0F]);
    s.set_register(A, 0x3C);
    s.set_register(B, 0xF0);
    s.log_and_reg(B);
    assert_eq!(s.register(A), 0x30);
    s.log_or_hl();
    assert_eq!(s.register(A), 0x3F);
    s.log_xor_hl();
    assert_eq!(s.register(A), 0x30);
    s.log_and_hl();
    assert_eq!(s.register(A), 0x00);
    s.log_or_reg(B);
    assert_eq!(s.register(A), 0xF0);
    s.log_xor_reg(B);
    assert_eq!(s.register(A), 0x00);
}

#[test]
fn xor_with_itself_clears() {
    let mut s = state_with_acc(0x5A);
    s.set_carry(true);
    s.log_xor_reg(A);
    assert_eq!(s.register(A), 0);
    assert!(s.flags().z && s.flags().p && !s.flags().cy);
}

#[test]
fn increment_and_decrement_wrap() {
    let mut s = State8080::new(vec![0xFF]);
    s.set_register(B, 0xFF);
    s.increment(B);
    assert_eq!(s.register(B), 0);
    assert!(s.flags().z);
    s.decrement(B);
    assert_eq!(s.register(B), 0xFF);
    assert!(s.flags().s);
    s.increment(M);
    assert_eq!(s.memory()[0], 0);
    s.decrement(M);
    assert_eq!(s.memory()[0], 0xFF);
}

#[test]
fn increment_keeps_carry() {
    let mut s = state_with_acc(0x0F);
    s.set_carry(true);
    s.increment(A);
    assert_eq!(s.register(A), 0x10);
    assert!(s.flags().cy);
    assert!(!s.flags().ac);
}

#[test]
fn decrement_undoes_increment() {
    let mut s = State8080::new(vec![7]);
    s.set_register(C, 0x41);
    s.increment(C);
    s.decrement(C);
    assert_eq!(s.register(C), 0x41);
    s.increment(M);
    s.decrement(M);
    assert_eq!(s.memory()[0], 7);
}

#[test]
fn complement_accumulator_twice() {
    let mut s = state_with_acc(0x51);
    s.complement_acc();
    assert_eq!(s.register(A), 0xAE);
    s.complement_acc();
    assert_eq!(s.register(A), 0x51);
}

#[test]
fn carry_operations() {
    let mut s = State8080::new(vec![]);
    s.complement_carry();
    assert!(s.flags().cy);
    s.complement_carry();
    assert!(!s.flags().cy);
    s.set_carry(true);
    assert!(s.flags().cy);
    s.complement_carry();
    s.set_carry(false);
    assert!(s.flags().cy);
}

#[test]
fn rotate_left() {
    let mut s = state_with_acc(0xF2);
    s.rotate_acc_left(false);
    assert_eq!(s.register(A), 0xE5);
    assert!(s.flags().cy);
    let mut t = state_with_acc(0xB5);
    t.rotate_acc_left(true);
    assert_eq!(t.register(A), 0x6A);
    assert!(t.flags().cy);
}

#[test]
fn rotate_right() {
    let mut s = state_with_acc(0xF2);
    s.rotate_acc_right(false);
    assert_eq!(s.register(A), 0x79);
    assert!(!s.flags().cy);
    let mut t = state_with_acc(0x01);
    t.rotate_acc_right(false);
    assert_eq!(t.register(A), 0x80);
    assert!(t.flags().cy);
    let mut u = state_with_acc(0x6A);
    u.set_carry(true);
    u.rotate_acc_right(true);
    assert_eq!(u.register(A), 0xB5);
    assert!(!u.flags().cy);
}

#[test]
fn rotate_through_carry_round_trip() {
    for acc in [0x00u8, 0x01, 0x80, 0xB5, 0xFF] {
        for carry in [false, true] {
            let mut s = state_with_acc(acc);
            s.set_carry(true);
            if !carry {
                s.complement_carry();
            }
            s.rotate_acc_left(true);
            s.rotate_acc_right(true);
            assert_eq!(s.register(A), acc);
            assert_eq!(s.flags().cy, carry);
        }
    }
}

#[test]
fn rotate_round_trip() {
    for acc in [0x00u8, 0x01, 0x80, 0xB5, 0xFF] {
        let mut s = state_with_acc(acc);
        s.rotate_acc_left(false);
        s.rotate_acc_right(false);
        assert_eq!(s.register(A), acc);
        assert_eq!(s.flags().cy, acc >= 0x80);
    }
}

#[test]
fn decimal_adjust_after_add() {
    let mut s = state_with_acc(0x38);
    s.add(0x45, false);
    s.decimal_adjust_acc();
    assert_eq!(s.register(A), 0x83);
    assert!(!s.flags().cy);

    let mut t = state_with_acc(0x99);
    t.add(0x01, false);
    t.decimal_adjust_acc();
    assert_eq!(t.register(A), 0x00);
    assert!(t.flags().cy);

    let mut u = state_with_acc(0x61);
    u.add(0x99, false);
    u.decimal_adjust_acc();
    assert_eq!(u.register(A), 0x60);
    assert!(u.flags().cy);
}

#[test]
fn decimal_adjust_all_bcd_sums() {
    for x in 0..100u32 {
        for y in 0..100u32 {
            let bx = ((x / 10) * 16 + x % 10) as u8;
            let by = ((y / 10) * 16 + y % 10) as u8;
            let mut s = state_with_acc(bx);
            s.add(by, false);
            s.decimal_adjust_acc();
            let sum = (x + y) % 100;
            assert_eq!(s.register(A), ((sum / 10) * 16 + sum % 10) as u8);
            assert_eq!(s.flags().cy, x + y >= 100);
        }
    }
}

#[test]
fn decimal_adjust_intel_example() {
    // the accumulator holds 0x9B with both carries clear
    let mut s = state_with_acc(0x9B);
    s.decimal_adjust_acc();
    assert_eq!(s.register(A), 0x01);
    assert!(s.flags().cy);
    assert!(s.flags().ac);
}

#[test]
fn jump_and_conditional_jump() {
    let mut s = State8080::new(vec![]);
    s.jump(0x34, 0x12);
    assert_eq!(s.pc(), 0x1234);
    s.jump_if(0x00, 0x20, if_zero);
    assert_eq!(s.pc(), 0x1234);
    s.jump_if(0x00, 0x20, if_not_zero);
    assert_eq!(s.pc(), 0x2000);
    s.set_carry(true);
    s.jump_if(0x01, 0x00, if_carry);
    assert_eq!(s.pc(), 0x0001);
    s.jump_if(0x02, 0x00, if_not_carry);
    assert_eq!(s.pc(), 0x0001);
    s.jump_if(0x03, 0x00, if_not_parity);
    assert_eq!(s.pc(), 0x0003);
    s.jump_if(0x04, 0x00, if_parity);
    assert_eq!(s.pc(), 0x0003);
    s.jump_if(0x05, 0x00, |st: &State8080| st.register(A) == 0);
    assert_eq!(s.pc(), 0x0005);
}

#[test]
fn conditions_read_flags() {
    let mut s = state_with_acc(0);
    s.add(0, false);
    assert!(if_zero(&s));
    assert!(!if_not_zero(&s));
    assert!(!if_carry(&s));
    assert!(if_not_carry(&s));
    assert!(if_parity(&s));
    assert!(!if_not_parity(&s));
}

#[test]
fn move_between_registers_and_memory() {
    let mut s = State8080::new(vec![0; 4]);
    s.set_register(B, 9);
    s.mov(B, C);
    assert_eq!(s.register(C), 9);
    assert_eq!(s.register(B), 9);
    s.set_register(L, 3);
    s.mov(C, M);
    assert_eq!(s.memory()[3], 9);
    s.mov(M, A);
    assert_eq!(s.register(A), 9);
    s.mov(A, A);
    assert_eq!(s.register(A), 9);
}

#[test]
fn push_then_pop() {
    let mut s = State8080::new(vec![0; 8]);
    s.set_stack_pointer(6);
    s.stack_push(0x34, 0x12);
    assert_eq!(s.sp(), 4);
    assert_eq!(s.memory()[5], 0x12);
    assert_eq!(s.memory()[4], 0x34);
    s.stack_pop();
    assert_eq!(s.sp(), 6);
    assert_eq!(s.register(L), 0x34);
    assert_eq!(s.register(H), 0x12);
}

#[test]
fn push_register_pair() {
    let mut s = State8080::new(vec![0; 8]);
    s.set_stack_pointer(8);
    s.set_register(B, 0xAB);
    s.set_register(C, 0xCD);
    s.push_reg(B);
    assert_eq!(s.sp(), 6);
    assert_eq!(s.memory()[7], 0xAB);
    assert_eq!(s.memory()[6], 0xCD);
}

#[test]
fn push_hl_then_pop_restores_registers() {
    let mut s = State8080::new(vec![0; 8]);
    s.set_stack_pointer(8);
    s.set_register(H, 0x12);
    s.set_register(L, 0x34);
    s.push_reg(H);
    s.set_register(H, 0);
    s.set_register(L, 0);
    s.stack_pop();
    assert_eq!(s.register(H), 0x12);
    assert_eq!(s.register(L), 0x34);
    assert_eq!(s.sp(), 8);
}

#[test]
fn return_after_call() {
    let mut s = State8080::new(vec![0; 16]);
    s.set_stack_pointer(16);
    s.jump(0x05, 0x01);
    s.call(0x00, 0x40);
    assert_eq!(s.pc(), 0x4000);
    assert_eq!(s.sp(), 14);
    assert_eq!(s.memory()[15], 0x01);
    assert_eq!(s.memory()[14], 0x08);
    s.ret();
    assert_eq!(s.pc(), 0x0108);
    assert_eq!(s.sp(), 16);
}

#[test]
fn conditional_call_and_return() {
    let mut s = State8080::new(vec![0; 16]);
    s.set_stack_pointer(16);
    s.call_if(0x00, 0x40, if_carry);
    assert_eq!(s.pc(), 0);
    assert_eq!(s.sp(), 16);
    s.call_if(0x00, 0x40, if_not_carry);
    assert_eq!(s.pc(), 0x4000);
    s.ret_if(if_carry);
    assert_eq!(s.pc(), 0x4000);
    s.ret_if(if_not_carry);
    assert_eq!(s.pc(), 3);
    assert_eq!(s.sp(), 16);
}

#[test]
fn state_probes() {
    let mut s = State8080::new(vec![0; 4]);
    assert!(s.hl_in_memory());
    assert!(!s.can_push());
    assert!(s.can_pop());
    s.set_register(L, 4);
    assert!(!s.hl_in_memory());
    s.set_stack_pointer(4);
    assert!(s.can_push());
    assert!(!s.can_pop());
}
