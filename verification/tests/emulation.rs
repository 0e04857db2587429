use cpu8080::emulate::instruction_length_of;
use cpu8080::{can_emulate, emulate, State8080};

const A: usize = 0;
const B: usize = 1;
const H: usize = 5;
const L: usize = 6;

fn run(state: &mut State8080, steps: usize) {
    for _ in 0..steps {
        assert!(can_emulate(state));
        emulate(state);
    }
}

#[test]
fn nop_moves_one_byte() {
    let mut s = State8080::new(vec![0; 8]);
    run(&mut s, 3);
    assert_eq!(s.pc(), 3);
}

#[test]
fn increments_and_rotation() {
    // INR A, INR A, RLC
    let mut s = State8080::new(vec![0x3C, 0x3C, 0x07]);
    run(&mut s, 3);
    assert_eq!(s.register(A), 4);
    assert_eq!(s.pc(), 3);
}

#[test]
fn move_opcodes_copy_row_register_into_column_register() {
    // INR A; 0x47 moves B into A
    let mut s = State8080::new(vec![0x3C, 0x47]);
    run(&mut s, 2);
    assert_eq!(s.register(A), 0);
    // 0x78 moves A into B
    let mut t = State8080::new(vec![0x3C, 0x78]);
    run(&mut t, 2);
    assert_eq!(t.register(B), 1);
}

#[test]
fn immediate_arithmetic() {
    // ADI 0x10, SUI 0x01, ANI 0x0F, ORI 0x30, XRI 0xFF, CPI 0xC1
    let mut s = State8080::new(vec![0xC6, 0x10, 0xD6, 0x01, 0xE6, 0x0F, 0xF6, 0x30, 0xEE, 0xFF, 0xFE, 0xC1]);
    run(&mut s, 1);
    assert_eq!(s.register(A), 0x10);
    run(&mut s, 1);
    assert_eq!(s.register(A), 0x0F);
    run(&mut s, 1);
    assert_eq!(s.register(A), 0x0F);
    run(&mut s, 1);
    assert_eq!(s.register(A), 0x3F);
    run(&mut s, 1);
    assert_eq!(s.register(A), 0xC0);
    run(&mut s, 1);
    assert_eq!(s.register(A), 0xC0);
    assert!(!s.flags().z);
    assert_eq!(s.pc(), 12);
}

#[test]
fn jump_lands_on_target() {
    let mut s = State8080::new(vec![0xC3, 0x05, 0x00, 0, 0, 0, 0, 0]);
    run(&mut s, 1);
    assert_eq!(s.pc(), 5);
    assert_eq!(s.sp(), 0);
    assert_eq!(s.memory(), &vec![0xC3, 0x05, 0x00, 0, 0, 0, 0, 0]);
    for i in 0..7 {
        assert_eq!(s.register(i), 0);
    }
    // the nop at the target runs next
    run(&mut s, 1);
    assert_eq!(s.pc(), 6);
}

#[test]
fn conditional_jump_on_zero() {
    // XRA A sets zero; JNZ 0x0020 is not taken; JZ 0x0008 is
    let mut s = State8080::new(vec![0xAF, 0xC2, 0x20, 0x00, 0xCA, 0x08, 0x00, 0, 0, 0, 0, 0]);
    run(&mut s, 2);
    assert_eq!(s.pc(), 4);
    run(&mut s, 1);
    assert_eq!(s.pc(), 8);
}

#[test]
fn memory_operand_through_hl() {
    // INR M, INR M, ADD M
    let mut s = State8080::new(vec![0x34, 0x34, 0x86, 0x00, 0x00]);
    s.set_register(H, 0);
    s.set_register(L, 4);
    run(&mut s, 3);
    assert_eq!(s.memory()[4], 2);
    assert_eq!(s.register(A), 2);
}

#[test]
fn cannot_emulate_outside_memory() {
    let s = State8080::new(vec![]);
    assert!(!can_emulate(&s));
    let mut t = State8080::new(vec![0x00]);
    emulate(&mut t);
    assert!(!can_emulate(&t));
}

#[test]
fn cannot_emulate_operand_outside_memory() {
    let mut s = State8080::new(vec![0x34]);
    s.set_register(L, 5);
    assert!(!can_emulate(&s));
}

#[test]
fn cannot_call_without_stack_room() {
    let s = State8080::new(vec![0xCD, 0x00, 0x00]);
    assert!(!can_emulate(&s));
    let t = State8080::new(vec![0xC5]);
    assert!(!can_emulate(&t));
    // a conditional call that is not taken needs no stack
    let u = State8080::new(vec![0xCC, 0x00, 0x00]);
    assert!(can_emulate(&u));
}

#[test]
fn call_and_return_through_emulation() {
    // CALL 0x0008; ... ; at 8: RET
    let mut mem = vec![0u8; 32];
    mem[0] = 0xCD;
    mem[1] = 0x08;
    mem[2] = 0x00;
    mem[8] = 0xC9;
    let mut s = State8080::new(mem);
    s.set_stack_pointer(32);
    run(&mut s, 1);
    assert_eq!(s.pc(), 0x08);
    assert_eq!(s.sp(), 30);
    assert_eq!(s.memory()[31], 0x00);
    assert_eq!(s.memory()[30], 0x03);
    run(&mut s, 1);
    assert_eq!(s.pc(), 0x03);
    assert_eq!(s.sp(), 32);
}

#[test]
fn push_register_pair_through_emulation() {
    let mut s = State8080::new(vec![0xC5, 0, 0, 0]);
    s.set_stack_pointer(4);
    s.set_register(B, 0x12);
    s.set_register(2, 0x34);
    run(&mut s, 1);
    assert_eq!(s.memory()[3], 0x12);
    assert_eq!(s.memory()[2], 0x34);
    assert_eq!(s.sp(), 2);
}

#[test]
fn emulation_keeps_memory_size() {
    let program = vec![0x3C, 0x04, 0x0C, 0x87, 0x97, 0x2F, 0x37, 0x3F, 0x27, 0x1F, 0x17, 0x0F, 0x76, 0x00, 0x00, 0x00];
    let len = program.len();
    let mut s = State8080::new(program);
    run(&mut s, 16);
    assert_eq!(s.memory().len(), len);
}

#[test]
fn instruction_lengths() {
    assert_eq!(instruction_length_of(0x00), 1);
    assert_eq!(instruction_length_of(0x01), 3);
    assert_eq!(instruction_length_of(0x06), 2);
    assert_eq!(instruction_length_of(0x22), 3);
    assert_eq!(instruction_length_of(0x3E), 2);
    assert_eq!(instruction_length_of(0x7F), 1);
    assert_eq!(instruction_length_of(0xC3), 3);
    assert_eq!(instruction_length_of(0xCD), 3);
    assert_eq!(instruction_length_of(0xD3), 2);
    assert_eq!(instruction_length_of(0xE3), 1);
    assert_eq!(instruction_length_of(0xFE), 2);
}
