//! The compatibility configuration: six independent quirk axes, bundled in an
//! immutable value that a staged builder produces.

use vstd::prelude::*;
use super::instruction::Instruction;

verus! {

/// Which register the shift instructions read.
#[derive(Copy, Clone, Debug, PartialEq, Eq, Hash, Structural)]
pub enum ShiftMode {
    /// Shift Vy into Vx, leaving Vy unchanged.
    Original,
    /// Shift Vx in place; Vy is decoded but ignored.
    SuperChip,
}

/// What a block register load or store does to the index register.
#[derive(Copy, Clone, Debug, PartialEq, Eq, Hash, Structural)]
pub enum LoadStoreMode {
    /// Advance I past the transferred registers.
    Original,
    /// Leave I unchanged.
    SuperChip,
}

/// The width at which index register arithmetic wraps.
#[derive(Copy, Clone, Debug, PartialEq, Eq, Hash, Structural)]
pub enum AddressSpace {
    /// I is a 12-bit pointer: arithmetic wraps modulo 4096.
    Original,
    /// I is a 16-bit pointer: arithmetic wraps modulo 65536.
    XOChip,
}

/// The tier gate: which instructions a machine accepts.
#[derive(Copy, Clone, Debug, PartialEq, Eq, Hash, Structural)]
pub enum AllowedInstructions {
    /// Only the instructions of the original CHIP-8.
    Original,
    /// Those and the SuperChip instructions.
    SuperChip,
    /// All instructions, including those unique to XO-Chip.
    XOChip,
}

/// Which register supplies the offset of the jump-with-offset instruction.
#[derive(Copy, Clone, Debug, PartialEq, Eq, Hash, Structural)]
pub enum RelativeJumpMode {
    /// Always V0.
    Original,
    /// The register that the high nibble of the 12-bit target selects.
    SuperChip,
}

/// What a draw leaves in the flag register.
#[derive(Copy, Clone, Debug, PartialEq, Eq, Hash, Structural)]
pub enum CollisionEnumeration {
    /// 1 if any collision occurred, otherwise 0.
    Original,
    /// The number of collisions, saturated at 255.
    SuperChip,
}

/// The active quirk selection. The axes are independent of one another.
#[derive(Copy, Clone, Debug, PartialEq, Eq, Hash, Structural)]
pub struct CompatibilityMode {
    pub shift: ShiftMode,
    pub load_store: LoadStoreMode,
    pub address_space: AddressSpace,
    pub allowed_instructions: AllowedInstructions,
    pub jump_mode: RelativeJumpMode,
    pub collisions: CollisionEnumeration,
}

/// The default preset: SuperChip shifts and block transfers on an otherwise
/// original machine.
pub open spec fn default_preset() -> CompatibilityMode {
    CompatibilityMode {
        shift: ShiftMode::SuperChip,
        load_store: LoadStoreMode::SuperChip,
        address_space: AddressSpace::Original,
        allowed_instructions: AllowedInstructions::Original,
        jump_mode: RelativeJumpMode::Original,
        collisions: CollisionEnumeration::Original,
    }
}

/// The SuperChip preset: every axis at its SuperChip setting and the tier
/// raised to SuperChip. The address space has no SuperChip setting of its
/// own and stays at 12 bits.
pub open spec fn superchip() -> CompatibilityMode {
    CompatibilityMode {
        shift: ShiftMode::SuperChip,
        load_store: LoadStoreMode::SuperChip,
        address_space: AddressSpace::Original,
        allowed_instructions: AllowedInstructions::SuperChip,
        jump_mode: RelativeJumpMode::SuperChip,
        collisions: CollisionEnumeration::SuperChip,
    }
}

/// Staged construction of a [`CompatibilityMode`]: start from a preset,
/// override single axes, then `build`.
pub struct CompBuilder {
    comp: CompatibilityMode,
}

impl CompBuilder {
    /// The mode that `build` would return now.
    pub closed spec fn view(&self) -> CompatibilityMode {
        self.comp
    }

    pub fn new() -> (builder: Self)
        ensures
            builder@ == default_preset(),
    {
        Self {
            comp: CompatibilityMode {
                shift: ShiftMode::SuperChip,
                load_store: LoadStoreMode::SuperChip,
                address_space: AddressSpace::Original,
                allowed_instructions: AllowedInstructions::Original,
                jump_mode: RelativeJumpMode::Original,
                collisions: CollisionEnumeration::Original,
            },
        }
    }

    pub fn superchip_preset() -> (builder: Self)
        ensures
            builder@ == superchip(),
    {
        Self {
            comp: CompatibilityMode {
                shift: ShiftMode::SuperChip,
                load_store: LoadStoreMode::SuperChip,
                address_space: AddressSpace::Original,
                allowed_instructions: AllowedInstructions::SuperChip,
                jump_mode: RelativeJumpMode::SuperChip,
                collisions: CollisionEnumeration::SuperChip,
            },
        }
    }

    pub fn with_shift(self, mode: ShiftMode) -> (builder: Self)
        ensures
            builder@ == (CompatibilityMode { shift: mode, ..self@ }),
    {
        let mut comp = self.comp;
        comp.shift = mode;
        Self { comp }
    }

    pub fn with_load_store(self, mode: LoadStoreMode) -> (builder: Self)
        ensures
            builder@ == (CompatibilityMode { load_store: mode, ..self@ }),
    {
        let mut comp = self.comp;
        comp.load_store = mode;
        Self { comp }
    }

    pub fn with_address_space(self, space: AddressSpace) -> (builder: Self)
        ensures
            builder@ == (CompatibilityMode { address_space: space, ..self@ }),
    {
        let mut comp = self.comp;
        comp.address_space = space;
        Self { comp }
    }

    pub fn with_allowed_instructions(self, tier: AllowedInstructions) -> (builder: Self)
        ensures
            builder@ == (CompatibilityMode { allowed_instructions: tier, ..self@ }),
    {
        let mut comp = self.comp;
        comp.allowed_instructions = tier;
        Self { comp }
    }

    pub fn with_jump_mode(self, mode: RelativeJumpMode) -> (builder: Self)
        ensures
            builder@ == (CompatibilityMode { jump_mode: mode, ..self@ }),
    {
        let mut comp = self.comp;
        comp.jump_mode = mode;
        Self { comp }
    }

    pub fn with_collisions(self, mode: CollisionEnumeration) -> (builder: Self)
        ensures
            builder@ == (CompatibilityMode { collisions: mode, ..self@ }),
    {
        let mut comp = self.comp;
        comp.collisions = mode;
        Self { comp }
    }

    pub fn build(self) -> (comp: CompatibilityMode)
        ensures
            comp == self@,
    {
        self.comp
    }
}

impl AllowedInstructions {
    /// The tier's place in the order Original < SuperChip < XOChip.
    pub open spec fn ordinal(self) -> int {
        match self {
            AllowedInstructions::Original => 0,
            AllowedInstructions::SuperChip => 1,
            AllowedInstructions::XOChip => 2,
        }
    }

    /// Whether a machine gated at this tier accepts `instruction`.
    pub open spec fn permits(self, instruction: Instruction) -> bool {
        self.ordinal() >= instruction.required_tier().ordinal()
    }

    fn rank(self) -> (r: u8)
        ensures
            r == self.ordinal(),
    {
        match self {
            AllowedInstructions::Original => 0,
            AllowedInstructions::SuperChip => 1,
            AllowedInstructions::XOChip => 2,
        }
    }

    pub fn is_legal(self, instruction: &Instruction) -> (legal: bool)
        ensures
            legal == self.permits(*instruction),
    {
        let needs: u8 = instruction.needed_comp().rank();
        let is: u8 = self.rank();
        is >= needs
    }
}

} // verus!
