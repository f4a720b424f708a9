//! The instruction set and its decoder.
//!
//! An instruction is a 2-byte word, read as four nibbles. The first nibble
//! selects a family; the others are literal or carry operands: `x` (low
//! nibble of the first byte), `y` (high nibble of the second byte), `n` (low
//! nibble of the second byte), `kk` (the second byte) and `nnn` (the low
//! twelve bits of the word).

use vstd::prelude::*;
use super::comp_mode::AllowedInstructions;

verus! {

/// An index into the register file. A decoded register is below 16.
#[derive(Copy, Clone, Debug, PartialEq, Eq, Hash, Structural)]
pub struct Register(pub u8);

/// An 8-bit immediate.
#[derive(Copy, Clone, Debug, PartialEq, Eq, Hash, Structural)]
pub struct Constant(pub u8);

/// A memory pointer operand. A decoded address is below 4096.
#[derive(Copy, Clone, Debug, PartialEq, Eq, Hash, Structural)]
pub struct Address(pub u16);

/// A decoded instruction: its kind and its operands.
#[derive(Copy, Clone, Debug, PartialEq, Eq, Hash, Structural)]
pub enum Instruction {
    // The original CHIP-8 instructions
    ClearScreen,
    Return,
    Jump(Address),
    Call(Address),
    SkipEqualConstant(Register, Constant),
    SkipNotEqualConstant(Register, Constant),
    SkipEqual(Register, Register),
    SetConstant(Register, Constant),
    SetSum(Register, Constant),
    Mov(Register, Register),
    Or(Register, Register),
    And(Register, Register),
    Xor(Register, Register),
    Add(Register, Register),
    Sub(Register, Register),
    ShiftRight(Register, Register),
    RevSub(Register, Register),
    ShiftLeft(Register, Register),
    SkipNotEqual(Register, Register),
    LoadI(Address),
    JumpRelative(Address),
    Random(Register, Constant),
    Draw(Register, Register, Constant),
    SkipPressed(Register),
    SkipNotPressed(Register),
    LoadDelay(Register),
    WaitForKey(Register),
    StoreDelay(Register),
    StoreSound(Register),
    AddI(Register),
    LoadSprite(Register),
    StoreBCD(Register),
    Store(Register),
    Load(Register),
    ScrollDown(Constant),
    // The SuperChip instructions
    ScrollRight,
    ScrollLeft,
    Exit,
    LoRes,
    HiRes,
    LoadLargeSprite(Register),
    StoreUserFlags(Register),
    LoadUserFlags(Register),
}

/// The instruction that the word `b0 b1` encodes, if it encodes one.
pub open spec fn decode_word(b0: u8, b1: u8) -> Option<Instruction> {
    let family = b0 / 16;
    let x = Register(b0 % 16);
    let y = Register(b1 / 16);
    let n = Constant(b1 % 16);
    let kk = Constant(b1);
    let nnn = Address(((b0 % 16) * 256 + b1) as u16);
    if family == 0x0 {
        if b0 != 0x00 {
            None
        } else if b1 / 16 == 0xC {
            Some(Instruction::ScrollDown(n))
        } else if b1 == 0xE0 {
            Some(Instruction::ClearScreen)
        } else if b1 == 0xEE {
            Some(Instruction::Return)
        } else if b1 == 0xFB {
            Some(Instruction::ScrollRight)
        } else if b1 == 0xFC {
            Some(Instruction::ScrollLeft)
        } else if b1 == 0xFD {
            Some(Instruction::Exit)
        } else if b1 == 0xFE {
            Some(Instruction::LoRes)
        } else if b1 == 0xFF {
            Some(Instruction::HiRes)
        } else {
            None
        }
    } else if family == 0x1 {
        Some(Instruction::Jump(nnn))
    } else if family == 0x2 {
        Some(Instruction::Call(nnn))
    } else if family == 0x3 {
        Some(Instruction::SkipEqualConstant(x, kk))
    } else if family == 0x4 {
        Some(Instruction::SkipNotEqualConstant(x, kk))
    } else if family == 0x5 {
        if n.0 == 0x0 {
            Some(Instruction::SkipEqual(x, y))
        } else {
            None
        }
    } else if family == 0x6 {
        Some(Instruction::SetConstant(x, kk))
    } else if family == 0x7 {
        Some(Instruction::SetSum(x, kk))
    } else if family == 0x8 {
        if n.0 == 0x0 {
            Some(Instruction::Mov(x, y))
        } else if n.0 == 0x1 {
            Some(Instruction::Or(x, y))
        } else if n.0 == 0x2 {
            Some(Instruction::And(x, y))
        } else if n.0 == 0x3 {
            Some(Instruction::Xor(x, y))
        } else if n.0 == 0x4 {
            Some(Instruction::Add(x, y))
        } else if n.0 == 0x5 {
            Some(Instruction::Sub(x, y))
        } else if n.0 == 0x6 {
            Some(Instruction::ShiftRight(x, y))
        } else if n.0 == 0x7 {
            Some(Instruction::RevSub(x, y))
        } else if n.0 == 0xE {
            Some(Instruction::ShiftLeft(x, y))
        } else {
            None
        }
    } else if family == 0x9 {
        if n.0 == 0x0 {
            Some(Instruction::SkipNotEqual(x, y))
        } else {
            None
        }
    } else if family == 0xA {
        Some(Instruction::LoadI(nnn))
    } else if family == 0xB {
        Some(Instruction::JumpRelative(nnn))
    } else if family == 0xC {
        Some(Instruction::Random(x, kk))
    } else if family == 0xD {
        Some(Instruction::Draw(x, y, n))
    } else if family == 0xE {
        if b1 == 0x9E {
            Some(Instruction::SkipPressed(x))
        } else if b1 == 0xA1 {
            Some(Instruction::SkipNotPressed(x))
        } else {
            None
        }
    } else {
        if b1 == 0x07 {
            Some(Instruction::LoadDelay(x))
        } else if b1 == 0x0A {
            Some(Instruction::WaitForKey(x))
        } else if b1 == 0x15 {
            Some(Instruction::StoreDelay(x))
        } else if b1 == 0x18 {
            Some(Instruction::StoreSound(x))
        } else if b1 == 0x1E {
            Some(Instruction::AddI(x))
        } else if b1 == 0x29 {
            Some(Instruction::LoadSprite(x))
        } else if b1 == 0x30 {
            Some(Instruction::LoadLargeSprite(x))
        } else if b1 == 0x33 {
            Some(Instruction::StoreBCD(x))
        } else if b1 == 0x55 {
            Some(Instruction::Store(x))
        } else if b1 == 0x65 {
            Some(Instruction::Load(x))
        } else if b1 == 0x75 {
            Some(Instruction::StoreUserFlags(x))
        } else if b1 == 0x85 {
            Some(Instruction::LoadUserFlags(x))
        } else {
            None
        }
    }
}

/// The word of family `family` that carries a register and a byte.
pub open spec fn word_x_kk(family: int, x: Register, kk: u8) -> (u8, u8) {
    ((family * 16 + x.0) as u8, kk)
}

/// The word of family `family` that carries two registers and a nibble.
pub open spec fn word_x_y_n(family: int, x: Register, y: Register, n: int) -> (u8, u8) {
    ((family * 16 + x.0) as u8, (y.0 * 16 + n) as u8)
}

/// The word of family `family` that carries a 12-bit address.
pub open spec fn word_nnn(family: int, nnn: Address) -> (u8, u8) {
    ((family * 16 + nnn.0 / 256) as u8, (nnn.0 % 256) as u8)
}

impl Instruction {
    /// Every operand lies in the range that its place in the word can hold:
    /// registers and nibble constants below 16, addresses below 4096.
    pub open spec fn well_formed(self) -> bool {
        match self {
            Instruction::ClearScreen
            | Instruction::Return
            | Instruction::ScrollRight
            | Instruction::ScrollLeft
            | Instruction::Exit
            | Instruction::LoRes
            | Instruction::HiRes => true,
            Instruction::Jump(nnn)
            | Instruction::Call(nnn)
            | Instruction::LoadI(nnn)
            | Instruction::JumpRelative(nnn) => nnn.0 < 4096,
            Instruction::SkipEqualConstant(x, _)
            | Instruction::SkipNotEqualConstant(x, _)
            | Instruction::SetConstant(x, _)
            | Instruction::SetSum(x, _)
            | Instruction::Random(x, _) => x.0 < 16,
            Instruction::SkipEqual(x, y)
            | Instruction::Mov(x, y)
            | Instruction::Or(x, y)
            | Instruction::And(x, y)
            | Instruction::Xor(x, y)
            | Instruction::Add(x, y)
            | Instruction::Sub(x, y)
            | Instruction::ShiftRight(x, y)
            | Instruction::RevSub(x, y)
            | Instruction::ShiftLeft(x, y)
            | Instruction::SkipNotEqual(x, y) => x.0 < 16 && y.0 < 16,
            Instruction::Draw(x, y, n) => x.0 < 16 && y.0 < 16 && n.0 < 16,
            Instruction::SkipPressed(x)
            | Instruction::SkipNotPressed(x)
            | Instruction::LoadDelay(x)
            | Instruction::WaitForKey(x)
            | Instruction::StoreDelay(x)
            | Instruction::StoreSound(x)
            | Instruction::AddI(x)
            | Instruction::LoadSprite(x)
            | Instruction::StoreBCD(x)
            | Instruction::Store(x)
            | Instruction::Load(x)
            | Instruction::LoadLargeSprite(x)
            | Instruction::StoreUserFlags(x)
            | Instruction::LoadUserFlags(x) => x.0 < 16,
            Instruction::ScrollDown(n) => n.0 < 16,
        }
    }

    /// The two bytes that encode a well-formed instruction.
    pub open spec fn encoding(self) -> (u8, u8) {
        match self {
            Instruction::ScrollDown(n) => (0x00u8, (0xC0 + n.0) as u8),
            Instruction::ClearScreen => (0x00u8, 0xE0u8),
            Instruction::Return => (0x00u8, 0xEEu8),
            Instruction::ScrollRight => (0x00u8, 0xFBu8),
            Instruction::ScrollLeft => (0x00u8, 0xFCu8),
            Instruction::Exit => (0x00u8, 0xFDu8),
            Instruction::LoRes => (0x00u8, 0xFEu8),
            Instruction::HiRes => (0x00u8, 0xFFu8),
            Instruction::Jump(nnn) => word_nnn(0x1, nnn),
            Instruction::Call(nnn) => word_nnn(0x2, nnn),
            Instruction::SkipEqualConstant(x, kk) => word_x_kk(0x3, x, kk.0),
            Instruction::SkipNotEqualConstant(x, kk) => word_x_kk(0x4, x, kk.0),
            Instruction::SkipEqual(x, y) => word_x_y_n(0x5, x, y, 0x0),
            Instruction::SetConstant(x, kk) => word_x_kk(0x6, x, kk.0),
            Instruction::SetSum(x, kk) => word_x_kk(0x7, x, kk.0),
            Instruction::Mov(x, y) => word_x_y_n(0x8, x, y, 0x0),
            Instruction::Or(x, y) => word_x_y_n(0x8, x, y, 0x1),
            Instruction::And(x, y) => word_x_y_n(0x8, x, y, 0x2),
            Instruction::Xor(x, y) => word_x_y_n(0x8, x, y, 0x3),
            Instruction::Add(x, y) => word_x_y_n(0x8, x, y, 0x4),
            Instruction::Sub(x, y) => word_x_y_n(0x8, x, y, 0x5),
            Instruction::ShiftRight(x, y) => word_x_y_n(0x8, x, y, 0x6),
            Instruction::RevSub(x, y) => word_x_y_n(0x8, x, y, 0x7),
            Instruction::ShiftLeft(x, y) => word_x_y_n(0x8, x, y, 0xE),
            Instruction::SkipNotEqual(x, y) => word_x_y_n(0x9, x, y, 0x0),
            Instruction::LoadI(nnn) => word_nnn(0xA, nnn),
            Instruction::JumpRelative(nnn) => word_nnn(0xB, nnn),
            Instruction::Random(x, kk) => word_x_kk(0xC, x, kk.0),
            Instruction::Draw(x, y, n) => word_x_y_n(0xD, x, y, n.0 as int),
            Instruction::SkipPressed(x) => word_x_kk(0xE, x, 0x9E),
            Instruction::SkipNotPressed(x) => word_x_kk(0xE, x, 0xA1),
            Instruction::LoadDelay(x) => word_x_kk(0xF, x, 0x07),
            Instruction::WaitForKey(x) => word_x_kk(0xF, x, 0x0A),
            Instruction::StoreDelay(x) => word_x_kk(0xF, x, 0x15),
            Instruction::StoreSound(x) => word_x_kk(0xF, x, 0x18),
            Instruction::AddI(x) => word_x_kk(0xF, x, 0x1E),
            Instruction::LoadSprite(x) => word_x_kk(0xF, x, 0x29),
            Instruction::LoadLargeSprite(x) => word_x_kk(0xF, x, 0x30),
            Instruction::StoreBCD(x) => word_x_kk(0xF, x, 0x33),
            Instruction::Store(x) => word_x_kk(0xF, x, 0x55),
            Instruction::Load(x) => word_x_kk(0xF, x, 0x65),
            Instruction::StoreUserFlags(x) => word_x_kk(0xF, x, 0x75),
            Instruction::LoadUserFlags(x) => word_x_kk(0xF, x, 0x85),
        }
    }

    /// The lowest tier whose machines accept the instruction.
    pub open spec fn required_tier(self) -> AllowedInstructions {
        match self {
            Instruction::ScrollRight
            | Instruction::ScrollLeft
            | Instruction::Exit
            | Instruction::LoRes
            | Instruction::HiRes
            | Instruction::LoadLargeSprite(_)
            | Instruction::StoreUserFlags(_)
            | Instruction::LoadUserFlags(_) => AllowedInstructions::SuperChip,
            _ => AllowedInstructions::Original,
        }
    }

    /// Decodes the word in the first two bytes of `bytes`; `None` where the
    /// word matches no instruction pattern.
    pub fn decode(bytes: &[u8]) -> (decoded: Option<Instruction>)
        requires
            bytes@.len() >= 2,
        ensures
            decoded == decode_word(bytes@[0], bytes@[1]),
            decoded matches Some(instruction) ==> instruction.well_formed(),
    {
        let x = extract_x(bytes);
        let y = extract_y(bytes);
        let n = extract_n(bytes);
        let kk = extract_kk(bytes);
        let nnn = extract_nnn(bytes);

        let nibbles = extract_nibbles(bytes);

        Some(
            match nibbles {
                (0x0, 0x0, 0xC, _) => Instruction::ScrollDown(n),
                (0x0, 0x0, 0xE, 0x0) => Instruction::ClearScreen,
                (0x0, 0x0, 0xE, 0xE) => Instruction::Return,
                (0x0, 0x0, 0xF, 0xB) => Instruction::ScrollRight,
                (0x0, 0x0, 0xF, 0xC) => Instruction::ScrollLeft,
                (0x0, 0x0, 0xF, 0xD) => Instruction::Exit,
                (0x0, 0x0, 0xF, 0xE) => Instruction::LoRes,
                (0x0, 0x0, 0xF, 0xF) => Instruction::HiRes,
                (0x1, _, _, _) => Instruction::Jump(nnn),
                (0x2, _, _, _) => Instruction::Call(nnn),
                (0x3, _, _, _) => Instruction::SkipEqualConstant(x, kk),
                (0x4, _, _, _) => Instruction::SkipNotEqualConstant(x, kk),
                (0x5, _, _, 0x0) => Instruction::SkipEqual(x, y),
                (0x6, _, _, _) => Instruction::SetConstant(x, kk),
                (0x7, _, _, _) => Instruction::SetSum(x, kk),
                (0x8, _, _, 0x0) => Instruction::Mov(x, y),
                (0x8, _, _, 0x1) => Instruction::Or(x, y),
                (0x8, _, _, 0x2) => Instruction::And(x, y),
                (0x8, _, _, 0x3) => Instruction::Xor(x, y),
                (0x8, _, _, 0x4) => Instruction::Add(x, y),
                (0x8, _, _, 0x5) => Instruction::Sub(x, y),
                (0x8, _, _, 0x6) => Instruction::ShiftRight(x, y),
                (0x8, _, _, 0x7) => Instruction::RevSub(x, y),
                (0x8, _, _, 0xE) => Instruction::ShiftLeft(x, y),
                (0x9, _, _, 0x0) => Instruction::SkipNotEqual(x, y),
                (0xA, _, _, _) => Instruction::LoadI(nnn),
                (0xB, _, _, _) => Instruction::JumpRelative(nnn),
                (0xC, _, _, _) => Instruction::Random(x, kk),
                (0xD, _, _, _) => Instruction::Draw(x, y, n),
                (0xE, _, 0x9, 0xE) => Instruction::SkipPressed(x),
                (0xE, _, 0xA, 0x1) => Instruction::SkipNotPressed(x),
                (0xF, _, 0x0, 0x7) => Instruction::LoadDelay(x),
                (0xF, _, 0x0, 0xA) => Instruction::WaitForKey(x),
                (0xF, _, 0x1, 0x5) => Instruction::StoreDelay(x),
                (0xF, _, 0x1, 0x8) => Instruction::StoreSound(x),
                (0xF, _, 0x1, 0xE) => Instruction::AddI(x),
                (0xF, _, 0x2, 0x9) => Instruction::LoadSprite(x),
                (0xF, _, 0x3, 0x0) => Instruction::LoadLargeSprite(x),
                (0xF, _, 0x3, 0x3) => Instruction::StoreBCD(x),
                (0xF, _, 0x5, 0x5) => Instruction::Store(x),
                (0xF, _, 0x6, 0x5) => Instruction::Load(x),
                (0xF, _, 0x7, 0x5) => Instruction::StoreUserFlags(x),
                (0xF, _, 0x8, 0x5) => Instruction::LoadUserFlags(x),
                _ => return None,
            },
        )
    }

    pub fn needed_comp(&self) -> (tier: AllowedInstructions)
        ensures
            tier == self.required_tier(),
    {
        match self {
            Instruction::ScrollRight => AllowedInstructions::SuperChip,
            Instruction::ScrollLeft => AllowedInstructions::SuperChip,
            Instruction::Exit => AllowedInstructions::SuperChip,
            Instruction::LoRes => AllowedInstructions::SuperChip,
            Instruction::HiRes => AllowedInstructions::SuperChip,
            Instruction::LoadLargeSprite(_) => AllowedInstructions::SuperChip,
            Instruction::StoreUserFlags(_) => AllowedInstructions::SuperChip,
            Instruction::LoadUserFlags(_) => AllowedInstructions::SuperChip,
            _ => AllowedInstructions::Original,
        }
    }

    /// The instruction's length in bytes.
    pub fn length(&self) -> (len: u16)
        ensures
            len == 2,
    {
        2
    }
}

/// The high and the low nibble of a byte, as masks and shifts yield them.
proof fn lemma_nibbles(b: u8)
    by (bit_vector)
    ensures
        (b & 0xF0) >> 4 == b / 16,
        b & 0x0F == b % 16,
{
}

/// A 4-bit high part and a low byte, joined by shift and or.
proof fn lemma_join(high: u8, low: u8)
    by (bit_vector)
    requires
        high < 16,
    ensures
        ((high as u16) << 8) | (low as u16) == high * 256 + low,
{
}

fn extract_x(bytes: &[u8]) -> (x: Register)
    requires
        bytes@.len() >= 2,
    ensures
        x.0 == bytes@[0] % 16,
{
    proof {
        lemma_nibbles(bytes@[0]);
    }
    let x = bytes[0] & 0x0F;
    Register(x)
}

fn extract_y(bytes: &[u8]) -> (y: Register)
    requires
        bytes@.len() >= 2,
    ensures
        y.0 == bytes@[1] / 16,
{
    proof {
        lemma_nibbles(bytes@[1]);
    }
    let y = (bytes[1] & 0xF0) >> 4;
    Register(y)
}

fn extract_n(bytes: &[u8]) -> (n: Constant)
    requires
        bytes@.len() >= 2,
    ensures
        n.0 == bytes@[1] % 16,
{
    proof {
        lemma_nibbles(bytes@[1]);
    }
    Constant(bytes[1] & 0x0F)
}

fn extract_kk(bytes: &[u8]) -> (kk: Constant)
    requires
        bytes@.len() >= 2,
    ensures
        kk.0 == bytes@[1],
{
    Constant(bytes[1])
}

fn extract_nnn(bytes: &[u8]) -> (nnn: Address)
    requires
        bytes@.len() >= 2,
    ensures
        nnn.0 == (bytes@[0] % 16) * 256 + bytes@[1],
{
    proof {
        lemma_nibbles(bytes@[0]);
        lemma_join(bytes@[0] % 16, bytes@[1]);
    }
    let low = bytes[1] as u16;
    let high = (bytes[0] & 0x0F) as u16;
    let addr = (high << 8) | low;
    Address(addr)
}

fn extract_nibbles(bytes: &[u8]) -> (nibbles: (u8, u8, u8, u8))
    requires
        bytes@.len() >= 2,
    ensures
        nibbles.0 == bytes@[0] / 16,
        nibbles.1 == bytes@[0] % 16,
        nibbles.2 == bytes@[1] / 16,
        nibbles.3 == bytes@[1] % 16,
{
    proof {
        lemma_nibbles(bytes@[0]);
        lemma_nibbles(bytes@[1]);
    }
    let highest = (bytes[0] & 0xF0) >> 4;
    let mid_high = bytes[0] & 0x0F;
    let mid_low = (bytes[1] & 0xF0) >> 4;
    let lowest = bytes[1] & 0x0F;

    (highest, mid_high, mid_low, lowest)
}

/// Decoding inverts encoding: the encoding of a well-formed instruction
/// decodes to that instruction, with the same operands.
pub proof fn lemma_decode_inverts_encoding(instruction: Instruction)
    requires
        instruction.well_formed(),
    ensures
        decode_word(instruction.encoding().0, instruction.encoding().1) == Some(instruction),
{
}

/// Encoding inverts decoding: a word decodes to at most one instruction,
/// which is well-formed and whose encoding is that same word.
pub proof fn lemma_encoding_inverts_decode(b0: u8, b1: u8)
    ensures
        decode_word(b0, b1) matches Some(instruction) ==> instruction.well_formed()
            && instruction.encoding() == (b0, b1),
{
}

} // verus!
