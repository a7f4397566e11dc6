//! The instruction table: decoding an opcode byte to one of sixteen
//! instruction kinds, and the semantics of each kind as a transition on the
//! machine state.

use vstd::prelude::*;

use crate::state::State;
use crate::state::StateView;

verus! {

/// The sixteen instruction kinds, in the order of the high-nibble values
/// 0x0 through 0xF that select them.
#[derive(Copy, Clone, Debug, PartialEq, Eq, Structural)]
pub enum OpCode {
    NOP,
    STA,
    LDA,
    ADD,
    OR,
    AND,
    NOT,
    SUB,
    JMP,
    JN,
    JZ,
    JNZ,
    IN,
    OUT,
    LDI,
    HLT,
}

/// Instruction descriptor: the kind and whether a trailing argument byte
/// follows the opcode.
#[derive(Copy, Clone, Debug, PartialEq, Eq, Structural)]
pub struct Operator {
    pub mnemonic: OpCode,
    pub requires_arg: bool,
}

/// The kind an opcode byte decodes to. The byte's high nibble selects the
/// kind; the low nibble is ignored. Every one of the 256 byte values is
/// covered by exactly one of the sixteen ranges.
pub open spec fn decode_spec(code: u8) -> OpCode {
    if code < 0x10 {
        OpCode::NOP
    } else if code < 0x20 {
        OpCode::STA
    } else if code < 0x30 {
        OpCode::LDA
    } else if code < 0x40 {
        OpCode::ADD
    } else if code < 0x50 {
        OpCode::OR
    } else if code < 0x60 {
        OpCode::AND
    } else if code < 0x70 {
        OpCode::NOT
    } else if code < 0x80 {
        OpCode::SUB
    } else if code < 0x90 {
        OpCode::JMP
    } else if code < 0xA0 {
        OpCode::JN
    } else if code < 0xB0 {
        OpCode::JZ
    } else if code < 0xC0 {
        OpCode::JNZ
    } else if code < 0xD0 {
        OpCode::IN
    } else if code < 0xE0 {
        OpCode::OUT
    } else if code < 0xF0 {
        OpCode::LDI
    } else {
        OpCode::HLT
    }
}

/// Whether an instruction kind consumes a trailing argument byte. The four
/// kinds without one advance the program counter by 1; all others read the
/// byte after the opcode and advance by 2 (or jump).
pub open spec fn takes_arg(op: OpCode) -> bool {
    match op {
        OpCode::NOP | OpCode::NOT | OpCode::OUT | OpCode::HLT => false,
        _ => true,
    }
}

/// Decode an opcode byte. Total: every byte maps to a descriptor, so no
/// unknown-opcode failure exists.
pub fn get_operator(code: &u8) -> (r: Operator)
    ensures
        r.mnemonic == decode_spec(*code),
        r.requires_arg == takes_arg(decode_spec(*code)),
{
    match *code {
        0x00..=0x0F => Operator { mnemonic: OpCode::NOP, requires_arg: false },
        0x10..=0x1F => Operator { mnemonic: OpCode::STA, requires_arg: true },
        0x20..=0x2F => Operator { mnemonic: OpCode::LDA, requires_arg: true },
        0x30..=0x3F => Operator { mnemonic: OpCode::ADD, requires_arg: true },
        0x40..=0x4F => Operator { mnemonic: OpCode::OR, requires_arg: true },
        0x50..=0x5F => Operator { mnemonic: OpCode::AND, requires_arg: true },
        0x60..=0x6F => Operator { mnemonic: OpCode::NOT, requires_arg: false },
        0x70..=0x7F => Operator { mnemonic: OpCode::SUB, requires_arg: true },
        0x80..=0x8F => Operator { mnemonic: OpCode::JMP, requires_arg: true },
        0x90..=0x9F => Operator { mnemonic: OpCode::JN, requires_arg: true },
        0xA0..=0xAF => Operator { mnemonic: OpCode::JZ, requires_arg: true },
        0xB0..=0xBF => Operator { mnemonic: OpCode::JNZ, requires_arg: true },
        0xC0..=0xCF => Operator { mnemonic: OpCode::IN, requires_arg: true },
        0xD0..=0xDF => Operator { mnemonic: OpCode::OUT, requires_arg: false },
        0xE0..=0xEF => Operator { mnemonic: OpCode::LDI, requires_arg: true },
        0xF0..=0xFF => Operator { mnemonic: OpCode::HLT, requires_arg: false },
    }
}

/// The kind a high-nibble value 0x0 through 0xF selects.
pub open spec fn nibble_kind(n: u8) -> OpCode {
    if n == 0x0 {
        OpCode::NOP
    } else if n == 0x1 {
        OpCode::STA
    } else if n == 0x2 {
        OpCode::LDA
    } else if n == 0x3 {
        OpCode::ADD
    } else if n == 0x4 {
        OpCode::OR
    } else if n == 0x5 {
        OpCode::AND
    } else if n == 0x6 {
        OpCode::NOT
    } else if n == 0x7 {
        OpCode::SUB
    } else if n == 0x8 {
        OpCode::JMP
    } else if n == 0x9 {
        OpCode::JN
    } else if n == 0xA {
        OpCode::JZ
    } else if n == 0xB {
        OpCode::JNZ
    } else if n == 0xC {
        OpCode::IN
    } else if n == 0xD {
        OpCode::OUT
    } else if n == 0xE {
        OpCode::LDI
    } else {
        OpCode::HLT
    }
}

/// Decode goes by the high nibble alone: every one of the 256 opcode byte
/// values resolves to the one kind its high nibble selects, so the sixteen
/// ranges partition the byte values exhaustively and without overlap.
pub proof fn lemma_decode_partition(code: u8)
    ensures
        decode_spec(code) == nibble_kind(code >> 4),
        code >> 4 < 16,
{
    assert((code < 0x10 <==> code >> 4 == 0x0) && (code < 0x20 <==> code >> 4 <= 0x1) && (code
        < 0x30 <==> code >> 4 <= 0x2) && (code < 0x40 <==> code >> 4 <= 0x3) && (code < 0x50
        <==> code >> 4 <= 0x4) && (code < 0x60 <==> code >> 4 <= 0x5) && (code < 0x70 <==> code
        >> 4 <= 0x6) && (code < 0x80 <==> code >> 4 <= 0x7) && (code < 0x90 <==> code >> 4
        <= 0x8) && (code < 0xA0 <==> code >> 4 <= 0x9) && (code < 0xB0 <==> code >> 4 <= 0xA)
        && (code < 0xC0 <==> code >> 4 <= 0xB) && (code < 0xD0 <==> code >> 4 <= 0xC) && (code
        < 0xE0 <==> code >> 4 <= 0xD) && (code < 0xF0 <==> code >> 4 <= 0xE) && (code >> 4
        < 16)) by (bit_vector);
}

/// Two opcode bytes with the same high nibble decode to the same kind: the
/// low nibble carries no meaning.
pub proof fn lemma_decode_low_nibble_ignored(a: u8, b: u8)
    requires
        a >> 4 == b >> 4,
    ensures
        decode_spec(a) == decode_spec(b),
{
    lemma_decode_partition(a);
    lemma_decode_partition(b);
}

/// Accumulator addition, wrapping modulo 256.
pub open spec fn wrap_add(a: u8, b: u8) -> u8 {
    ((a + b) % 256) as u8
}

/// Accumulator subtraction, wrapping modulo 256.
pub open spec fn wrap_sub(a: u8, b: u8) -> u8 {
    ((a + 256 - b) % 256) as u8
}

/// Whether a control-transfer kind takes its jump for a given accumulator
/// value. JMP always jumps; JN on an accumulator of 64 or more (the test
/// bit this machine uses, bit 6, not a two's-complement sign bit); JZ on
/// zero; JNZ on nonzero. Every other kind never jumps.
pub open spec fn branch_taken(op: OpCode, ac: u8) -> bool {
    match op {
        OpCode::JMP => true,
        OpCode::JN => ac >= 64,
        OpCode::JZ => ac == 0,
        OpCode::JNZ => ac != 0,
        _ => false,
    }
}

/// The successor snapshot one instruction produces. `arg` is the trailing
/// argument byte for the kinds that take one and is ignored by the rest.
/// Fields not mentioned by an instruction carry over unchanged.
pub open spec fn exec_op(pre: StateView, op: OpCode, arg: u8) -> StateView {
    match op {
        OpCode::NOP => StateView { pc: pre.pc + 1, ..pre },
        OpCode::STA => StateView {
            pc: pre.pc + 2,
            memory: pre.memory.update(arg as int, pre.ac),
            ..pre
        },
        OpCode::LDA => StateView { pc: pre.pc + 2, ac: pre.memory[arg as int], ..pre },
        OpCode::ADD => StateView {
            pc: pre.pc + 2,
            ac: wrap_add(pre.ac, pre.memory[arg as int]),
            ..pre
        },
        OpCode::OR => StateView {
            pc: pre.pc + 2,
            ac: pre.memory[arg as int] | pre.ac,
            ..pre
        },
        OpCode::AND => StateView {
            pc: pre.pc + 2,
            ac: pre.memory[arg as int] & pre.ac,
            ..pre
        },
        OpCode::NOT => StateView { pc: pre.pc + 1, ac: !pre.ac, ..pre },
        OpCode::SUB => StateView {
            pc: pre.pc + 2,
            ac: wrap_sub(pre.ac, pre.memory[arg as int]),
            ..pre
        },
        OpCode::JMP | OpCode::JN | OpCode::JZ | OpCode::JNZ => StateView {
            pc: if branch_taken(op, pre.ac) {
                arg as int
            } else {
                pre.pc + 2
            },
            ..pre
        },
        OpCode::IN => StateView { pc: pre.pc + 2, ac: pre.inputs[arg as int], ..pre },
        OpCode::OUT => StateView {
            pc: pre.pc + 1,
            output: seq![pre.ac] + pre.output.subrange(0, pre.output.len() - 1),
            ..pre
        },
        OpCode::LDI => StateView { pc: pre.pc + 2, ac: arg, ..pre },
        OpCode::HLT => StateView { pc: pre.pc + 1, halt: true, ..pre },
    }
}

/// Applying NOT twice restores the accumulator, whatever its value: the
/// complement is involutive. The rest of the snapshot NOT leaves alone,
/// so only the accumulator needs stating.
pub proof fn lemma_not_involutive(pre: StateView, arg1: u8, arg2: u8)
    ensures
        exec_op(exec_op(pre, OpCode::NOT, arg1), OpCode::NOT, arg2).ac == pre.ac,
{
    let a = pre.ac;
    assert(!(!a) == a) by (bit_vector);
}

/// The three conditional jumps decide from the accumulator alone: JZ takes
/// its jump exactly on zero, JNZ exactly on nonzero — so those two never
/// agree, and one of them always jumps — and JN exactly on 64 or more.
pub proof fn lemma_branch_decisions(ac: u8)
    ensures
        branch_taken(OpCode::JZ, ac) <==> ac == 0,
        branch_taken(OpCode::JNZ, ac) <==> ac != 0,
        branch_taken(OpCode::JN, ac) <==> ac >= 64,
        !(branch_taken(OpCode::JZ, ac) && branch_taken(OpCode::JNZ, ac)),
        branch_taken(OpCode::JZ, ac) || branch_taken(OpCode::JNZ, ac),
{
}

/// OUT keeps a bounded most-recent-first log: the emitted value lands in
/// slot 0, every older slot moves one place down, the last slot's prior
/// value is discarded, and the log keeps its fixed length.
pub proof fn lemma_out_shifts(pre: StateView, arg: u8)
    requires
        pre.output.len() == crate::state::OUTPUT_SLOTS,
    ensures
        exec_op(pre, OpCode::OUT, arg).output.len() == crate::state::OUTPUT_SLOTS,
        exec_op(pre, OpCode::OUT, arg).output[0] == pre.ac,
        forall|i: int|
            0 <= i < crate::state::OUTPUT_SLOTS - 1 ==> exec_op(pre, OpCode::OUT, arg).output[i
                + 1] == pre.output[i],
{
}

/// HLT raises the halt flag and touches nothing but the program counter.
pub proof fn lemma_hlt_halts(pre: StateView, arg: u8)
    ensures
        exec_op(pre, OpCode::HLT, arg).halt,
        exec_op(pre, OpCode::HLT, arg).ac == pre.ac,
        exec_op(pre, OpCode::HLT, arg).memory == pre.memory,
        exec_op(pre, OpCode::HLT, arg).output == pre.output,
{
}

/// Apply one instruction to the machine state: the executable form of
/// `exec_op`. The caller has already fetched and decoded the opcode and,
/// where the kind takes one, the argument byte.
pub fn execute(state: &mut State, op: OpCode, arg: u8)
    requires
        old(state).wf(),
        old(state).pc + 2 <= usize::MAX,
    ensures
        final(state).wf(),
        final(state)@ == exec_op(old(state)@, op, arg),
{
    match op {
        OpCode::NOP => {
            state.pc = state.pc + 1;
        },
        OpCode::STA => {
            state.memory[arg as usize] = state.ac;
            state.pc = state.pc + 2;
        },
        OpCode::LDA => {
            state.ac = state.memory[arg as usize];
            state.pc = state.pc + 2;
        },
        OpCode::ADD => {
            let sum: u16 = state.ac as u16 + state.memory[arg as usize] as u16;
            state.ac = (sum % 256) as u8;
            state.pc = state.pc + 2;
        },
        OpCode::OR => {
            state.ac = state.memory[arg as usize] | state.ac;
            state.pc = state.pc + 2;
        },
        OpCode::AND => {
            state.ac = state.memory[arg as usize] & state.ac;
            state.pc = state.pc + 2;
        },
        OpCode::NOT => {
            state.ac = !state.ac;
            state.pc = state.pc + 1;
        },
        OpCode::SUB => {
            let diff: u16 = state.ac as u16 + 256 - state.memory[arg as usize] as u16;
            state.ac = (diff % 256) as u8;
            state.pc = state.pc + 2;
        },
        OpCode::JMP => {
            state.pc = arg as usize;
        },
        OpCode::JN => {
            if state.ac >= 64 {
                state.pc = arg as usize;
            } else {
                state.pc = state.pc + 2;
            }
        },
        OpCode::JZ => {
            if state.ac == 0 {
                state.pc = arg as usize;
            } else {
                state.pc = state.pc + 2;
            }
        },
        OpCode::JNZ => {
            if state.ac != 0 {
                state.pc = arg as usize;
            } else {
                state.pc = state.pc + 2;
            }
        },
        OpCode::IN => {
            state.ac = state.inputs[arg as usize];
            state.pc = state.pc + 2;
        },
        OpCode::OUT => {
            let ghost prev = state.output@;
            let ac = state.ac;
            state.output.insert(0, ac);
            state.output.pop();
            state.pc = state.pc + 1;
            proof {
                assert(state.output@ =~= seq![old(state).ac] + prev.subrange(
                    0,
                    prev.len() - 1,
                ));
            }
        },
        OpCode::LDI => {
            state.ac = arg;
            state.pc = state.pc + 2;
        },
        OpCode::HLT => {
            state.pc = state.pc + 1;
            state.halt = true;
        },
    }
}

} // verus!
