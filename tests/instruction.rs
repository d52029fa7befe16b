use kpasim::instruction::{
    instruction_length, Alu, Cond, IllegalOpByte, Instruction, PrefixedOp, R16f, R16id, R16p, R8m,
    Rot, U2, U3,
};

const ILLEGAL: [u8; 11] = [0xD3, 0xDB, 0xDD, 0xE3, 0xE4, 0xEB, 0xEC, 0xED, 0xF4, 0xFC, 0xFD];

#[allow(non_snake_case)]
#[test]
fn test_Instruction_new() {
    for op_code in 0..=u8::MAX {
        Instruction::new(op_code);
    }
}

#[test]
fn every_byte_decodes_and_only_the_eleven_are_illegal() {
    for op in 0..=u8::MAX {
        match Instruction::new(op) {
            Instruction::Illegal(b) => {
                assert!(ILLEGAL.contains(&op), "{op:02X}");
                assert_eq!(b.byte(), op);
            }
            _ => assert!(!ILLEGAL.contains(&op), "{op:02X}"),
        }
    }
}

#[test]
fn illegal_dd_carries_its_byte() {
    assert_eq!(Instruction::new(0xDD), Instruction::Illegal(IllegalOpByte::DD));
    assert_eq!(IllegalOpByte::DD.byte(), 0xDD);
    assert_eq!(Instruction::new(0xD3), Instruction::Illegal(IllegalOpByte::D3));
    assert_eq!(Instruction::new(0xFD), Instruction::Illegal(IllegalOpByte::FD));
}

#[test]
fn decodes_sample_opcodes() {
    assert_eq!(Instruction::new(0x00), Instruction::Nop);
    assert_eq!(Instruction::new(0x08), Instruction::LdImm16SP(0));
    assert_eq!(Instruction::new(0x10), Instruction::Stop);
    assert_eq!(Instruction::new(0x18), Instruction::JumpRelative(0));
    assert_eq!(Instruction::new(0x20), Instruction::JumpRelativeCond(Cond::NZ, 0));
    assert_eq!(Instruction::new(0x38), Instruction::JumpRelativeCond(Cond::C, 0));
    assert_eq!(Instruction::new(0x09), Instruction::AddHLR16p(R16p::BC));
    assert_eq!(Instruction::new(0x31), Instruction::LdR16pImm16(R16p::SP, 0));
    assert_eq!(Instruction::new(0x2A), Instruction::LdR16idToA(R16id::HLi, true));
    assert_eq!(Instruction::new(0x32), Instruction::LdR16idToA(R16id::HLd, false));
    assert_eq!(Instruction::new(0x1B), Instruction::DecIncR16p(R16p::DE, true));
    assert_eq!(Instruction::new(0x34), Instruction::DecIncR8m(R8m::HLm, false));
    assert_eq!(Instruction::new(0x3D), Instruction::DecIncR8m(R8m::A, true));
    assert_eq!(Instruction::new(0x3E), Instruction::LdR8mImm8(R8m::A, 0));
    assert_eq!(Instruction::new(0x07), Instruction::Rlca);
    assert_eq!(Instruction::new(0x3F), Instruction::Ccf);
    assert_eq!(Instruction::new(0x76), Instruction::Halt);
    assert_eq!(Instruction::new(0x41), Instruction::LdR8mR8m(R8m::B, R8m::C));
    assert_eq!(Instruction::new(0x77), Instruction::LdR8mR8m(R8m::HLm, R8m::A));
    assert_eq!(Instruction::new(0x86), Instruction::AluR8m(Alu::Add, R8m::HLm));
    assert_eq!(Instruction::new(0xBF), Instruction::AluR8m(Alu::Cp, R8m::A));
    assert_eq!(Instruction::new(0xC8), Instruction::ReturnCond(Cond::Z));
    assert_eq!(Instruction::new(0xE0), Instruction::LdhImm8ToA(0, false));
    assert_eq!(Instruction::new(0xF0), Instruction::LdhImm8ToA(0, true));
    assert_eq!(Instruction::new(0xE8), Instruction::AddSPImm8(0));
    assert_eq!(Instruction::new(0xF8), Instruction::LdHLSPImm8(0));
    assert_eq!(Instruction::new(0xF1), Instruction::Pop(R16f::AF));
    assert_eq!(Instruction::new(0xC9), Instruction::Return);
    assert_eq!(Instruction::new(0xD9), Instruction::ReturnIrq);
    assert_eq!(Instruction::new(0xE9), Instruction::JumpHL);
    assert_eq!(Instruction::new(0xF9), Instruction::LdSPHL);
    assert_eq!(Instruction::new(0xDA), Instruction::JumpCond(Cond::C, 0));
    assert_eq!(Instruction::new(0xE2), Instruction::LdhCToA(false));
    assert_eq!(Instruction::new(0xEA), Instruction::LdImm16ToA(false));
    assert_eq!(Instruction::new(0xFA), Instruction::LdImm16ToA(true));
    assert_eq!(Instruction::new(0xC3), Instruction::JumpImm16(0));
    assert_eq!(Instruction::new(0xCB), Instruction::Cb(PrefixedOp::RotR8m(Rot::Rlc, R8m::B)));
    assert_eq!(Instruction::new(0xF3), Instruction::DI);
    assert_eq!(Instruction::new(0xFB), Instruction::EI);
    assert_eq!(Instruction::new(0xD4), Instruction::CallCond(Cond::NC, 0));
    assert_eq!(Instruction::new(0xC5), Instruction::Push(R16p::BC));
    assert_eq!(Instruction::new(0xCD), Instruction::Call(0));
    assert_eq!(Instruction::new(0xEE), Instruction::AluImm8(Alu::Xor, 0));
    assert_eq!(Instruction::new(0xFF), Instruction::Restart(U3::_7));
    assert_eq!(Instruction::new(0xC7), Instruction::Restart(U3::_0));
}

#[test]
fn encoded_lengths() {
    assert_eq!(instruction_length(0x00), 1);
    assert_eq!(instruction_length(0x08), 3);
    assert_eq!(instruction_length(0x18), 2);
    assert_eq!(instruction_length(0x31), 3);
    assert_eq!(instruction_length(0x09), 1);
    assert_eq!(instruction_length(0x3E), 2);
    assert_eq!(instruction_length(0x76), 1);
    assert_eq!(instruction_length(0xC3), 3);
    assert_eq!(instruction_length(0xE0), 2);
    assert_eq!(instruction_length(0xEA), 3);
    assert_eq!(instruction_length(0xFA), 3);
    assert_eq!(instruction_length(0xE2), 1);
    assert_eq!(instruction_length(0xCB), 2);
    assert_eq!(instruction_length(0xCD), 3);
    assert_eq!(instruction_length(0xC4), 3);
    assert_eq!(instruction_length(0xFE), 2);
    assert_eq!(instruction_length(0xDD), 1);
    assert_eq!(instruction_length(0xFF), 1);
}

#[test]
fn lengths_are_one_to_three() {
    for op in 0..=u8::MAX {
        let n = instruction_length(op);
        assert!((1..=3).contains(&n), "{op:02X}");
    }
}

#[test]
fn matrix_fields_from_bytes() {
    assert_eq!(U2::new_from_byte(6, 0xC3), U2::_3);
    assert_eq!(U2::new_from_byte(4, 0x31), U2::_3);
    assert_eq!(U2::new_from_byte(0, 0x02), U2::_2);
    assert_eq!(U3::new_from_byte(3, 0xC3), U3::_0);
    assert_eq!(U3::new_from_byte(0, 0xC3), U3::_3);
    assert_eq!(U3::new_from_byte(3, 0x76), U3::_6);
    assert_eq!(U3::new_from_byte(5, 0xE0), U3::_7);
}

#[test]
fn selectors_follow_their_codes() {
    assert_eq!(R8m::new(U3::_0), R8m::B);
    assert_eq!(R8m::new(U3::_6), R8m::HLm);
    assert_eq!(R8m::new(U3::_7), R8m::A);
    assert_eq!(R16p::new(U2::_3), R16p::SP);
    assert_eq!(R16f::new(U2::_3), R16f::AF);
    assert_eq!(R16id::new(U2::_2), R16id::HLi);
    assert_eq!(R16id::new(U2::_3), R16id::HLd);
    assert_eq!(Cond::new(0), Cond::NZ);
    assert_eq!(Cond::new(3), Cond::C);
    assert_eq!(Alu::new(U3::_2), Alu::Sub);
    assert_eq!(Alu::new(U3::_7), Alu::Cp);
    assert_eq!(Rot::new(U3::_3), Rot::RR);
    assert_eq!(Rot::new(U3::_6), Rot::Swap);
    assert_eq!(PrefixedOp::default(), PrefixedOp::RotR8m(Rot::Rlc, R8m::B));
}
