use chip8::emulator::comp_mode::{
    AddressSpace, AllowedInstructions, CollisionEnumeration, CompBuilder, CompatibilityMode,
    LoadStoreMode, RelativeJumpMode, ShiftMode,
};

#[test]
fn the_default_preset() {
    let comp = CompBuilder::new().build();
    assert_eq!(
        comp,
        CompatibilityMode {
            shift: ShiftMode::SuperChip,
            load_store: LoadStoreMode::SuperChip,
            address_space: AddressSpace::Original,
            allowed_instructions: AllowedInstructions::Original,
            jump_mode: RelativeJumpMode::Original,
            collisions: CollisionEnumeration::Original,
        }
    );
}

#[test]
fn the_superchip_preset() {
    let comp = CompBuilder::superchip_preset().build();
    assert_eq!(
        comp,
        CompatibilityMode {
            shift: ShiftMode::SuperChip,
            load_store: LoadStoreMode::SuperChip,
            address_space: AddressSpace::Original,
            allowed_instructions: AllowedInstructions::SuperChip,
            jump_mode: RelativeJumpMode::SuperChip,
            collisions: CollisionEnumeration::SuperChip,
        }
    );
}

#[test]
fn a_preset_with_one_axis_overridden() {
    let comp = CompBuilder::superchip_preset().with_jump_mode(RelativeJumpMode::Original).build();
    assert_eq!(comp.jump_mode, RelativeJumpMode::Original);
    assert_eq!(
        comp,
        CompatibilityMode {
            jump_mode: RelativeJumpMode::Original,
            ..CompBuilder::superchip_preset().build()
        }
    );
}

#[test]
fn every_axis_can_be_overridden_alone() {
    let base = CompBuilder::new().build();
    assert_eq!(
        CompBuilder::new().with_shift(ShiftMode::Original).build(),
        CompatibilityMode { shift: ShiftMode::Original, ..base }
    );
    assert_eq!(
        CompBuilder::new().with_load_store(LoadStoreMode::Original).build(),
        CompatibilityMode { load_store: LoadStoreMode::Original, ..base }
    );
    assert_eq!(
        CompBuilder::new().with_address_space(AddressSpace::XOChip).build(),
        CompatibilityMode { address_space: AddressSpace::XOChip, ..base }
    );
    assert_eq!(
        CompBuilder::new().with_allowed_instructions(AllowedInstructions::XOChip).build(),
        CompatibilityMode { allowed_instructions: AllowedInstructions::XOChip, ..base }
    );
    assert_eq!(
        CompBuilder::new().with_jump_mode(RelativeJumpMode::SuperChip).build(),
        CompatibilityMode { jump_mode: RelativeJumpMode::SuperChip, ..base }
    );
    assert_eq!(
        CompBuilder::new().with_collisions(CollisionEnumeration::SuperChip).build(),
        CompatibilityMode { collisions: CollisionEnumeration::SuperChip, ..base }
    );
}

#[test]
fn the_last_override_of_an_axis_stands() {
    let comp = CompBuilder::new()
        .with_shift(ShiftMode::Original)
        .with_collisions(CollisionEnumeration::SuperChip)
        .with_shift(ShiftMode::SuperChip)
        .build();
    assert_eq!(comp.shift, ShiftMode::SuperChip);
    assert_eq!(comp.collisions, CollisionEnumeration::SuperChip);
}
