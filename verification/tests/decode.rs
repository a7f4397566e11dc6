use neander_vm::operator::get_operator;
use neander_vm::operator::OpCode;

fn expected_kind(code: u8) -> OpCode {
    match code >> 4 {
        0x0 => OpCode::NOP,
        0x1 => OpCode::STA,
        0x2 => OpCode::LDA,
        0x3 => OpCode::ADD,
        0x4 => OpCode::OR,
        0x5 => OpCode::AND,
        0x6 => OpCode::NOT,
        0x7 => OpCode::SUB,
        0x8 => OpCode::JMP,
        0x9 => OpCode::JN,
        0xA => OpCode::JZ,
        0xB => OpCode::JNZ,
        0xC => OpCode::IN,
        0xD => OpCode::OUT,
        0xE => OpCode::LDI,
        _ => OpCode::HLT,
    }
}

#[test]
fn decode_covers_all_byte_values() {
    for code in 0..=255u8 {
        let op = get_operator(&code);
        assert_eq!(op.mnemonic, expected_kind(code));
    }
}

#[test]
fn decode_ignores_low_nibble() {
    for high in 0..=15u8 {
        let base = get_operator(&(high << 4)).mnemonic;
        for low in 0..=15u8 {
            let code = (high << 4) | low;
            assert_eq!(get_operator(&code).mnemonic, base);
        }
    }
}

#[test]
fn decode_arity() {
    for code in 0..=255u8 {
        let op = get_operator(&code);
        let no_arg = matches!(
            op.mnemonic,
            OpCode::NOP | OpCode::NOT | OpCode::OUT | OpCode::HLT
        );
        assert_eq!(op.requires_arg, !no_arg);
    }
}
