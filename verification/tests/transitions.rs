use neander_vm::operator::execute;
use neander_vm::operator::OpCode;
use neander_vm::state::State;

fn blank() -> State {
    State::new(&[]).unwrap()
}

#[test]
fn nop_only_advances_pc() {
    let mut s = blank();
    s.ac = 9;
    execute(&mut s, OpCode::NOP, 0);
    assert_eq!(s.pc, 1);
    assert_eq!(s.ac, 9);
    assert!(!s.halt);
}

#[test]
fn sta_stores_accumulator() {
    let mut s = blank();
    s.ac = 0xAB;
    execute(&mut s, OpCode::STA, 0x42);
    assert_eq!(s.memory[0x42], 0xAB);
    assert_eq!(s.pc, 2);
}

#[test]
fn lda_loads_memory() {
    let mut s = blank();
    s.memory[0x42] = 0x17;
    execute(&mut s, OpCode::LDA, 0x42);
    assert_eq!(s.ac, 0x17);
    assert_eq!(s.pc, 2);
}

#[test]
fn add_wraps_modulo_256() {
    let mut s = blank();
    s.ac = 250;
    s.memory[0x10] = 10;
    execute(&mut s, OpCode::ADD, 0x10);
    assert_eq!(s.ac, 4);
    assert_eq!(s.pc, 2);
}

#[test]
fn sub_wraps_modulo_256() {
    let mut s = blank();
    s.ac = 5;
    s.memory[0x10] = 10;
    execute(&mut s, OpCode::SUB, 0x10);
    assert_eq!(s.ac, 251);
    assert_eq!(s.pc, 2);
}

#[test]
fn or_and_are_bitwise() {
    let mut s = blank();
    s.ac = 0b1010_0000;
    s.memory[0x10] = 0b0000_1010;
    execute(&mut s, OpCode::OR, 0x10);
    assert_eq!(s.ac, 0b1010_1010);
    s.memory[0x11] = 0b1100_1100;
    execute(&mut s, OpCode::AND, 0x11);
    assert_eq!(s.ac, 0b1000_1000);
}

#[test]
fn not_complements_accumulator() {
    let mut s = blank();
    s.ac = 0b1010_0101;
    execute(&mut s, OpCode::NOT, 0);
    assert_eq!(s.ac, 0b0101_1010);
    assert_eq!(s.pc, 1);
}

#[test]
fn not_is_involutive_for_all_values() {
    for v in 0..=255u8 {
        let mut s = blank();
        s.ac = v;
        execute(&mut s, OpCode::NOT, 0);
        execute(&mut s, OpCode::NOT, 0);
        assert_eq!(s.ac, v);
    }
}

#[test]
fn jmp_sets_pc_from_argument() {
    let mut s = blank();
    s.pc = 10;
    execute(&mut s, OpCode::JMP, 0x30);
    assert_eq!(s.pc, 0x30);
}

#[test]
fn jz_and_jnz_disagree_on_zero() {
    let mut s = blank();
    s.pc = 10;
    s.ac = 0;
    execute(&mut s, OpCode::JZ, 0x30);
    assert_eq!(s.pc, 0x30);

    let mut s = blank();
    s.pc = 10;
    s.ac = 0;
    execute(&mut s, OpCode::JNZ, 0x30);
    assert_eq!(s.pc, 12);
}

#[test]
fn jn_branches_at_200_jz_does_not() {
    let mut s = blank();
    s.pc = 10;
    s.ac = 200;
    execute(&mut s, OpCode::JN, 0x30);
    assert_eq!(s.pc, 0x30);

    let mut s = blank();
    s.pc = 10;
    s.ac = 200;
    execute(&mut s, OpCode::JZ, 0x30);
    assert_eq!(s.pc, 12);
}

#[test]
fn jn_threshold_is_64() {
    let mut s = blank();
    s.pc = 10;
    s.ac = 63;
    execute(&mut s, OpCode::JN, 0x30);
    assert_eq!(s.pc, 12);

    let mut s = blank();
    s.pc = 10;
    s.ac = 64;
    execute(&mut s, OpCode::JN, 0x30);
    assert_eq!(s.pc, 0x30);
}

#[test]
fn in_reads_input_port() {
    let mut s = State::new_with_inputs(&[], &[0, 0, 9]).unwrap();
    execute(&mut s, OpCode::IN, 2);
    assert_eq!(s.ac, 9);
    assert_eq!(s.pc, 2);
}

#[test]
fn ldi_loads_literal() {
    let mut s = blank();
    s.memory[0x05] = 0xEE;
    execute(&mut s, OpCode::LDI, 0x05);
    assert_eq!(s.ac, 0x05);
    assert_eq!(s.pc, 2);
}

#[test]
fn hlt_raises_halt_flag() {
    let mut s = blank();
    execute(&mut s, OpCode::HLT, 0);
    assert!(s.halt);
    assert_eq!(s.pc, 1);
}

#[test]
fn out_pushes_front_and_drops_oldest() {
    let mut s = blank();
    for v in 0..=40u8 {
        s.ac = v;
        execute(&mut s, OpCode::OUT, 0);
    }
    assert_eq!(s.output.len(), 40);
    for i in 0..40usize {
        assert_eq!(s.output[i], 40 - i as u8);
    }
}
