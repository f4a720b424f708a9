use chip8::emulator::comp_mode::AllowedInstructions;
use chip8::emulator::instruction::{Address, Constant, Instruction, Register};

fn decode(b0: u8, b1: u8) -> Option<Instruction> {
    Instruction::decode(&[b0, b1])
}

#[test]
fn decodes_the_instructions_without_operands() {
    assert_eq!(decode(0x00, 0xE0), Some(Instruction::ClearScreen));
    assert_eq!(decode(0x00, 0xEE), Some(Instruction::Return));
    assert_eq!(decode(0x00, 0xFB), Some(Instruction::ScrollRight));
    assert_eq!(decode(0x00, 0xFC), Some(Instruction::ScrollLeft));
    assert_eq!(decode(0x00, 0xFD), Some(Instruction::Exit));
    assert_eq!(decode(0x00, 0xFE), Some(Instruction::LoRes));
    assert_eq!(decode(0x00, 0xFF), Some(Instruction::HiRes));
}

#[test]
fn decodes_the_minimal_encoding_of_every_pattern() {
    let r0 = Register(0);
    let k0 = Constant(0);
    let a0 = Address(0);
    assert_eq!(decode(0x00, 0xC0), Some(Instruction::ScrollDown(k0)));
    assert_eq!(decode(0x10, 0x00), Some(Instruction::Jump(a0)));
    assert_eq!(decode(0x20, 0x00), Some(Instruction::Call(a0)));
    assert_eq!(decode(0x30, 0x00), Some(Instruction::SkipEqualConstant(r0, k0)));
    assert_eq!(decode(0x40, 0x00), Some(Instruction::SkipNotEqualConstant(r0, k0)));
    assert_eq!(decode(0x50, 0x00), Some(Instruction::SkipEqual(r0, r0)));
    assert_eq!(decode(0x60, 0x00), Some(Instruction::SetConstant(r0, k0)));
    assert_eq!(decode(0x70, 0x00), Some(Instruction::SetSum(r0, k0)));
    assert_eq!(decode(0x80, 0x00), Some(Instruction::Mov(r0, r0)));
    assert_eq!(decode(0x80, 0x01), Some(Instruction::Or(r0, r0)));
    assert_eq!(decode(0x80, 0x02), Some(Instruction::And(r0, r0)));
    assert_eq!(decode(0x80, 0x03), Some(Instruction::Xor(r0, r0)));
    assert_eq!(decode(0x80, 0x04), Some(Instruction::Add(r0, r0)));
    assert_eq!(decode(0x80, 0x05), Some(Instruction::Sub(r0, r0)));
    assert_eq!(decode(0x80, 0x06), Some(Instruction::ShiftRight(r0, r0)));
    assert_eq!(decode(0x80, 0x07), Some(Instruction::RevSub(r0, r0)));
    assert_eq!(decode(0x80, 0x0E), Some(Instruction::ShiftLeft(r0, r0)));
    assert_eq!(decode(0x90, 0x00), Some(Instruction::SkipNotEqual(r0, r0)));
    assert_eq!(decode(0xA0, 0x00), Some(Instruction::LoadI(a0)));
    assert_eq!(decode(0xB0, 0x00), Some(Instruction::JumpRelative(a0)));
    assert_eq!(decode(0xC0, 0x00), Some(Instruction::Random(r0, k0)));
    assert_eq!(decode(0xD0, 0x00), Some(Instruction::Draw(r0, r0, k0)));
    assert_eq!(decode(0xE0, 0x9E), Some(Instruction::SkipPressed(r0)));
    assert_eq!(decode(0xE0, 0xA1), Some(Instruction::SkipNotPressed(r0)));
    assert_eq!(decode(0xF0, 0x07), Some(Instruction::LoadDelay(r0)));
    assert_eq!(decode(0xF0, 0x0A), Some(Instruction::WaitForKey(r0)));
    assert_eq!(decode(0xF0, 0x15), Some(Instruction::StoreDelay(r0)));
    assert_eq!(decode(0xF0, 0x18), Some(Instruction::StoreSound(r0)));
    assert_eq!(decode(0xF0, 0x1E), Some(Instruction::AddI(r0)));
    assert_eq!(decode(0xF0, 0x29), Some(Instruction::LoadSprite(r0)));
    assert_eq!(decode(0xF0, 0x30), Some(Instruction::LoadLargeSprite(r0)));
    assert_eq!(decode(0xF0, 0x33), Some(Instruction::StoreBCD(r0)));
    assert_eq!(decode(0xF0, 0x55), Some(Instruction::Store(r0)));
    assert_eq!(decode(0xF0, 0x65), Some(Instruction::Load(r0)));
    assert_eq!(decode(0xF0, 0x75), Some(Instruction::StoreUserFlags(r0)));
    assert_eq!(decode(0xF0, 0x85), Some(Instruction::LoadUserFlags(r0)));
}

#[test]
fn decodes_the_operands() {
    assert_eq!(decode(0x1A, 0xBC), Some(Instruction::Jump(Address(0xABC))));
    assert_eq!(decode(0x2F, 0xFF), Some(Instruction::Call(Address(0xFFF))));
    assert_eq!(decode(0xA1, 0x23), Some(Instruction::LoadI(Address(0x123))));
    assert_eq!(decode(0xBF, 0x00), Some(Instruction::JumpRelative(Address(0xF00))));
    assert_eq!(
        decode(0x3C, 0x5A),
        Some(Instruction::SkipEqualConstant(Register(0xC), Constant(0x5A)))
    );
    assert_eq!(decode(0x61, 0x05), Some(Instruction::SetConstant(Register(1), Constant(5))));
    assert_eq!(decode(0x7F, 0xFF), Some(Instruction::SetSum(Register(15), Constant(255))));
    assert_eq!(decode(0x82, 0x36), Some(Instruction::ShiftRight(Register(2), Register(3))));
    assert_eq!(decode(0x8A, 0xBE), Some(Instruction::ShiftLeft(Register(10), Register(11))));
    assert_eq!(decode(0x5E, 0xD0), Some(Instruction::SkipEqual(Register(14), Register(13))));
    assert_eq!(decode(0xC4, 0x0F), Some(Instruction::Random(Register(4), Constant(0x0F))));
    assert_eq!(
        decode(0xD1, 0x2F),
        Some(Instruction::Draw(Register(1), Register(2), Constant(15)))
    );
    assert_eq!(decode(0x00, 0xC7), Some(Instruction::ScrollDown(Constant(7))));
    assert_eq!(decode(0xE9, 0x9E), Some(Instruction::SkipPressed(Register(9))));
    assert_eq!(decode(0xF8, 0x33), Some(Instruction::StoreBCD(Register(8))));
}

#[test]
fn rejects_words_that_match_no_pattern() {
    assert_eq!(decode(0x00, 0x00), None);
    assert_eq!(decode(0x00, 0xE1), None);
    assert_eq!(decode(0x00, 0xFA), None);
    assert_eq!(decode(0x01, 0xE0), None);
    assert_eq!(decode(0x0F, 0xFF), None);
    assert_eq!(decode(0x50, 0x01), None);
    assert_eq!(decode(0x5A, 0xB1), None);
    assert_eq!(decode(0x80, 0x08), None);
    assert_eq!(decode(0x81, 0x2F), None);
    assert_eq!(decode(0x90, 0x0F), None);
    assert_eq!(decode(0xE0, 0x9F), None);
    assert_eq!(decode(0xE0, 0xA0), None);
    assert_eq!(decode(0xF0, 0x00), None);
    assert_eq!(decode(0xF0, 0x56), None);
    assert_eq!(decode(0xFF, 0xFF), None);
}

#[test]
fn decoding_reads_only_the_first_two_bytes() {
    let long = [0x61u8, 0x05, 0xFF, 0xFF, 0x00];
    assert_eq!(
        Instruction::decode(&long),
        Some(Instruction::SetConstant(Register(1), Constant(5)))
    );
}

#[test]
fn decoding_the_same_bytes_again_gives_the_same_instruction() {
    for b0 in 0..=255u8 {
        for b1 in 0..=255u8 {
            assert_eq!(decode(b0, b1), decode(b0, b1));
        }
    }
}

#[test]
fn every_decoded_operand_is_in_range() {
    for b0 in 0..=255u8 {
        for b1 in 0..=255u8 {
            match decode(b0, b1) {
                Some(Instruction::Jump(a))
                | Some(Instruction::Call(a))
                | Some(Instruction::LoadI(a))
                | Some(Instruction::JumpRelative(a)) => {
                    assert!(a.0 < 4096);
                    assert_eq!(a.0, (((b0 & 0x0F) as u16) << 8) | b1 as u16);
                }
                Some(Instruction::Draw(x, y, n)) => {
                    assert!(x.0 < 16 && y.0 < 16 && n.0 < 16);
                }
                _ => {}
            }
        }
    }
}

#[test]
fn the_superchip_instructions_need_the_superchip_tier() {
    let r = Register(3);
    for i in [
        Instruction::ScrollRight,
        Instruction::ScrollLeft,
        Instruction::Exit,
        Instruction::LoRes,
        Instruction::HiRes,
        Instruction::LoadLargeSprite(r),
        Instruction::StoreUserFlags(r),
        Instruction::LoadUserFlags(r),
    ] {
        assert_eq!(i.needed_comp(), AllowedInstructions::SuperChip);
    }
}

#[test]
fn the_other_instructions_need_the_original_tier() {
    let r = Register(3);
    let k = Constant(9);
    let a = Address(0x345);
    for i in [
        Instruction::ClearScreen,
        Instruction::Return,
        Instruction::Jump(a),
        Instruction::Call(a),
        Instruction::SkipEqualConstant(r, k),
        Instruction::SetConstant(r, k),
        Instruction::ShiftRight(r, r),
        Instruction::Draw(r, r, k),
        Instruction::SkipPressed(r),
        Instruction::WaitForKey(r),
        Instruction::StoreBCD(r),
        Instruction::Load(r),
        Instruction::ScrollDown(k),
    ] {
        assert_eq!(i.needed_comp(), AllowedInstructions::Original);
    }
}

#[test]
fn a_tier_allows_what_needs_no_higher_tier() {
    let low = Instruction::ClearScreen;
    let high = Instruction::Exit;
    assert!(AllowedInstructions::Original.is_legal(&low));
    assert!(AllowedInstructions::SuperChip.is_legal(&low));
    assert!(AllowedInstructions::XOChip.is_legal(&low));
    assert!(!AllowedInstructions::Original.is_legal(&high));
    assert!(AllowedInstructions::SuperChip.is_legal(&high));
    assert!(AllowedInstructions::XOChip.is_legal(&high));
}

#[test]
fn every_instruction_is_two_bytes_long() {
    assert_eq!(Instruction::ClearScreen.length(), 2);
    assert_eq!(Instruction::Draw(Register(0), Register(1), Constant(0)).length(), 2);
    assert_eq!(Instruction::LoadLargeSprite(Register(2)).length(), 2);
}
