//! The mathematical model of the machine: its state, and the state that one
//! instruction cycle leaves.
//!
//! A cycle fetches the word at the instruction pointer, decodes it, holds it
//! against the tier gate, moves the pointer past it, reads and clears the skip
//! latch and, where the latch was clear, carries the instruction out. Memory
//! has 65536 bytes; addresses wrap around at its end.

use vstd::prelude::*;
use super::comp_mode::{
    AddressSpace, AllowedInstructions, CollisionEnumeration, CompatibilityMode, LoadStoreMode,
    RelativeJumpMode, ShiftMode,
};
use super::instruction::{decode_word, Address, Instruction, Register};
use super::raster::ScreenState;

verus! {

/// The number of bytes of memory.
pub const MEMORY_SIZE: usize = 65536;

/// The address of the low-resolution font.
pub const FONT_START: u16 = 0;

/// The address of the high-resolution font, right behind the other.
pub const LARGE_FONT_START: u16 = 80;

/// The index of the flag register, the implicit output of arithmetic, shift
/// and draw instructions.
pub const FLAG: usize = 15;

/// Why a cycle ended without carrying an instruction out.
#[derive(Copy, Clone, Debug, PartialEq, Eq, Hash)]
pub enum MachineError {
    /// The fetched word matches no instruction pattern.
    InvalidOpcode { address: u16, bytes: (u8, u8) },
    /// The instruction asks for a higher tier than the machine is gated at.
    IllegalInstruction { instruction: Instruction, address: u16, tier: AllowedInstructions },
    /// A return with an empty call stack.
    StackUnderflow,
    /// The instruction is known and legal, but the machine has no body for it.
    Unimplemented { instruction: Instruction, address: u16 },
}

/// The state of the processor.
pub struct CpuState {
    pub registers: Seq<u8>,
    pub i: u16,
    pub ip: u16,
    pub skip: bool,
    pub sound_timer: u8,
    pub delay_timer: u8,
}

/// The state of the machine.
pub struct MachineState {
    pub cpu: CpuState,
    pub stack: Seq<u16>,
    pub memory: Seq<u8>,
    pub screen: ScreenState,
}

/// `value` reduced to 16 bits.
pub open spec fn wrap16(value: int) -> u16 {
    (value % 65536) as u16
}

/// `value` reduced to 8 bits.
pub open spec fn wrap8(value: int) -> u8 {
    (value % 256) as u8
}

/// The index register after `by` was added to `i`: the sum wraps at the
/// width of the address space.
pub open spec fn advance_index(i: u16, by: int, space: AddressSpace) -> u16 {
    match space {
        AddressSpace::Original => ((i + by) % 4096) as u16,
        AddressSpace::XOChip => wrap16(i + by),
    }
}

/// The register that a shift reads.
pub open spec fn shift_source(mode: ShiftMode, x: Register, y: Register) -> Register {
    match mode {
        ShiftMode::Original => y,
        ShiftMode::SuperChip => x,
    }
}

/// The register that supplies the offset of a relative jump to `nnn`.
pub open spec fn jump_base(mode: RelativeJumpMode, nnn: Address) -> Register {
    match mode {
        RelativeJumpMode::Original => Register(0),
        RelativeJumpMode::SuperChip => Register(((nnn.0 / 256) % 16) as u8),
    }
}

/// What a draw with `total` collisions leaves in the flag register.
pub open spec fn collision_flag(policy: CollisionEnumeration, total: nat) -> u8 {
    match policy {
        CollisionEnumeration::Original => if total > 0 {
            1
        } else {
            0
        },
        CollisionEnumeration::SuperChip => if total > 255 {
            255
        } else {
            total as u8
        },
    }
}

/// The lowest key code from `from` on whose key is down.
pub open spec fn first_pressed_from(keys: Seq<bool>, from: int) -> Option<u8>
    decreases 16 - from,
{
    if from < 0 || from >= 16 {
        None
    } else if keys[from] {
        Some(from as u8)
    } else {
        first_pressed_from(keys, from + 1)
    }
}

/// The lowest key code whose key is down.
pub open spec fn first_pressed(keys: Seq<bool>) -> Option<u8> {
    first_pressed_from(keys, 0)
}

/// Whether the key that `code` names is down: a code above 15 names no key.
pub open spec fn key_down(keys: Seq<bool>, code: u8) -> bool {
    code < 16 && keys[code as int]
}

/// Memory after the first `count` registers were stored from address `i` on.
pub open spec fn stored(memory: Seq<u8>, registers: Seq<u8>, i: int, count: int) -> Seq<u8> {
    Seq::new(
        MEMORY_SIZE as nat,
        |a: int|
            if (a - i) % 65536 < count {
                registers[(a - i) % 65536]
            } else {
                memory[a]
            },
    )
}

/// The registers after the first `count` of them were loaded from address
/// `i` on.
pub open spec fn loaded(registers: Seq<u8>, memory: Seq<u8>, i: int, count: int) -> Seq<u8> {
    Seq::new(
        16,
        |r: int|
            if r < count {
                memory[(i + r) % 65536]
            } else {
                registers[r]
            },
    )
}

/// Whether the machine has no body for the instruction.
pub open spec fn unimplemented(instruction: Instruction) -> bool {
    match instruction {
        Instruction::SkipPressed(_)
        | Instruction::ScrollDown(_)
        | Instruction::ScrollRight
        | Instruction::ScrollLeft
        | Instruction::LoRes => true,
        _ => false,
    }
}

impl MachineState {
    /// Sixteen registers, 65536 bytes of memory, and a well-formed display.
    pub open spec fn well_formed(self) -> bool {
        &&& self.cpu.registers.len() == 16
        &&& self.memory.len() == MEMORY_SIZE
        &&& self.screen.well_formed()
    }

    /// The value of register `x`.
    pub open spec fn reg(self, x: Register) -> u8 {
        self.cpu.registers[x.0 as int]
    }

    /// The byte at `address`, reduced to the size of memory.
    pub open spec fn byte(self, address: int) -> u8 {
        self.memory[address % 65536]
    }

    pub open spec fn with_reg(self, x: Register, value: u8) -> MachineState {
        MachineState {
            cpu: CpuState { registers: self.cpu.registers.update(x.0 as int, value), ..self.cpu },
            ..self
        }
    }

    pub open spec fn with_flag(self, value: u8) -> MachineState {
        self.with_reg(Register(FLAG as u8), value)
    }

    pub open spec fn with_i(self, i: u16) -> MachineState {
        MachineState { cpu: CpuState { i, ..self.cpu }, ..self }
    }

    pub open spec fn with_ip(self, ip: u16) -> MachineState {
        MachineState { cpu: CpuState { ip, ..self.cpu }, ..self }
    }

    /// The state with the skip latch set if `condition` holds.
    pub open spec fn skipping_if(self, condition: bool) -> MachineState {
        MachineState { cpu: CpuState { skip: self.cpu.skip || condition, ..self.cpu }, ..self }
    }

    /// The state after a word was fetched: the pointer is behind the word and
    /// the skip latch is clear.
    pub open spec fn fetched(self) -> MachineState {
        MachineState {
            cpu: CpuState { ip: wrap16(self.cpu.ip + 2), skip: false, ..self.cpu },
            ..self
        }
    }

    /// The state with the pointer moved back onto the instruction that was
    /// fetched last, so that the next cycle fetches it again.
    pub open spec fn rewound(self) -> MachineState {
        self.with_ip(wrap16(self.cpu.ip - 2))
    }

    /// The state after a block transfer of the registers up to `x` moved the
    /// index register.
    pub open spec fn after_transfer(self, x: Register, comp: CompatibilityMode) -> MachineState {
        match comp.load_store {
            LoadStoreMode::Original => self.with_i(
                advance_index(self.cpu.i, x.0 + 1, comp.address_space),
            ),
            LoadStoreMode::SuperChip => self,
        }
    }

    /// The state after a draw of `height` rows at the place that the
    /// registers `x` and `y` hold. The sprite is what memory holds from the
    /// index register to its end.
    pub open spec fn after_draw(
        self,
        x: Register,
        y: Register,
        height: u8,
        comp: CompatibilityMode,
    ) -> MachineState {
        let sprite = self.memory.skip(self.cpu.i as int);
        let left = self.reg(x) as int;
        let top = self.reg(y) as int;
        let total = self.screen.draw_collisions(sprite, left, top, height as int);
        MachineState {
            screen: self.screen.draw(sprite, left, top, height as int),
            ..self
        }.with_flag(collision_flag(comp.collisions, total))
    }

    /// Memory after the hundreds, tens and ones of `value` were written from
    /// the index register on.
    pub open spec fn after_bcd(self, value: u8) -> MachineState {
        let i = self.cpu.i as int;
        MachineState {
            memory: self.memory.update(i, value / 100).update(
                (i + 1) % 65536,
                (value / 10) % 10,
            ).update((i + 2) % 65536, value % 10),
            ..self
        }
    }

    /// The state that carrying out `instruction` leaves, and whether that
    /// succeeded. `self` is the state after the fetch; `random` is the byte
    /// that a random instruction draws.
    pub open spec fn execute(
        self,
        instruction: Instruction,
        comp: CompatibilityMode,
        keys: Seq<bool>,
        random: u8,
    ) -> (MachineState, Result<(), MachineError>) {
        if unimplemented(instruction) {
            (
                self,
                Err(
                    MachineError::Unimplemented {
                        instruction,
                        address: wrap16(self.cpu.ip - 2),
                    },
                ),
            )
        } else if instruction == Instruction::Return && self.stack.len() == 0 {
            (self, Err(MachineError::StackUnderflow))
        } else {
            (self.effect(instruction, comp, keys, random), Ok(()))
        }
    }

    /// The state that an instruction leaves which the machine has a body
    /// for.
    pub open spec fn effect(
        self,
        instruction: Instruction,
        comp: CompatibilityMode,
        keys: Seq<bool>,
        random: u8,
    ) -> MachineState {
        match instruction {
            Instruction::ClearScreen => MachineState { screen: self.screen.cleared(), ..self },
            Instruction::Return => MachineState {
                stack: self.stack.drop_last(),
                ..self.with_ip(self.stack.last())
            },
            Instruction::HiRes => MachineState {
                screen: ScreenState { lores: false, ..self.screen },
                ..self
            },
            Instruction::Jump(nnn) => self.with_ip(nnn.0),
            Instruction::Call(nnn) => MachineState {
                stack: self.stack.push(self.cpu.ip),
                ..self.with_ip(nnn.0)
            },
            Instruction::SkipEqualConstant(x, kk) => self.skipping_if(self.reg(x) == kk.0),
            Instruction::SkipNotEqualConstant(x, kk) => self.skipping_if(self.reg(x) != kk.0),
            Instruction::SkipEqual(x, y) => self.skipping_if(self.reg(x) == self.reg(y)),
            Instruction::SkipNotEqual(x, y) => self.skipping_if(self.reg(x) != self.reg(y)),
            Instruction::SetConstant(x, kk) => self.with_reg(x, kk.0),
            Instruction::SetSum(x, kk) => self.with_reg(x, wrap8(self.reg(x) + kk.0)),
            Instruction::Mov(x, y) => self.with_reg(x, self.reg(y)),
            Instruction::Or(x, y) => self.with_reg(x, self.reg(x) | self.reg(y)),
            Instruction::And(x, y) => self.with_reg(x, self.reg(x) & self.reg(y)),
            Instruction::Xor(x, y) => self.with_reg(x, self.reg(x) ^ self.reg(y)),
            Instruction::Add(x, y) => self.with_reg(x, wrap8(self.reg(x) + self.reg(y))).with_flag(
                if self.reg(x) + self.reg(y) > 255 {
                    1
                } else {
                    0
                },
            ),
            Instruction::Sub(x, y) => self.with_reg(x, wrap8(self.reg(x) - self.reg(y))).with_flag(
                if self.reg(x) >= self.reg(y) {
                    1
                } else {
                    0
                },
            ),
            Instruction::RevSub(x, y) => self.with_reg(
                x,
                wrap8(self.reg(y) - self.reg(x)),
            ).with_flag(
                if self.reg(y) >= self.reg(x) {
                    1
                } else {
                    0
                },
            ),
            Instruction::ShiftRight(x, y) => {
                let source = self.reg(shift_source(comp.shift, x, y));
                self.with_reg(x, source / 2).with_flag(source % 2)
            },
            Instruction::ShiftLeft(x, y) => {
                let source = self.reg(shift_source(comp.shift, x, y));
                self.with_reg(x, wrap8(source * 2)).with_flag(source / 128)
            },
            Instruction::LoadI(nnn) => self.with_i(nnn.0),
            Instruction::JumpRelative(nnn) => self.with_ip(
                wrap16(nnn.0 + self.reg(jump_base(comp.jump_mode, nnn))),
            ),
            Instruction::Random(x, kk) => self.with_reg(x, random & kk.0),
            Instruction::Draw(x, y, n) => self.after_draw(x, y, n.0, comp),
            Instruction::SkipNotPressed(x) => self.skipping_if(!key_down(keys, self.reg(x))),
            Instruction::LoadDelay(x) => self.with_reg(x, self.cpu.delay_timer),
            Instruction::WaitForKey(x) => match first_pressed(keys) {
                Some(key) => self.with_reg(x, key),
                None => self.rewound(),
            },
            Instruction::StoreSound(x) => MachineState {
                cpu: CpuState { sound_timer: self.reg(x), ..self.cpu },
                ..self
            },
            Instruction::StoreDelay(x) => MachineState {
                cpu: CpuState { delay_timer: self.reg(x), ..self.cpu },
                ..self
            },
            Instruction::AddI(x) => self.with_i(
                advance_index(self.cpu.i, self.reg(x) as int, comp.address_space),
            ),
            Instruction::LoadSprite(x) => self.with_i((FONT_START + 5 * self.reg(x)) as u16),
            Instruction::LoadLargeSprite(x) => self.with_i(
                (LARGE_FONT_START + 10 * self.reg(x)) as u16,
            ),
            Instruction::StoreBCD(x) => self.after_bcd(self.reg(x)),
            Instruction::Store(x) => MachineState {
                memory: stored(self.memory, self.cpu.registers, self.cpu.i as int, x.0 + 1),
                ..self
            }.after_transfer(x, comp),
            Instruction::Load(x) => MachineState {
                cpu: CpuState {
                    registers: loaded(self.cpu.registers, self.memory, self.cpu.i as int, x.0 + 1),
                    ..self.cpu
                },
                ..self
            }.after_transfer(x, comp),
            Instruction::StoreUserFlags(_) | Instruction::LoadUserFlags(_) => self,
            Instruction::Exit => self.rewound(),
            Instruction::SkipPressed(_)
            | Instruction::ScrollDown(_)
            | Instruction::ScrollRight
            | Instruction::ScrollLeft
            | Instruction::LoRes => self,
        }
    }

    /// The word at the instruction pointer.
    pub open spec fn word(self) -> (u8, u8) {
        (self.byte(self.cpu.ip as int), self.byte(self.cpu.ip + 1))
    }

    /// The state that one cycle leaves, and how it ended. A cycle that ends
    /// in `InvalidOpcode` or `IllegalInstruction` leaves the state as it was;
    /// one that ends in another error has fetched the word.
    pub open spec fn cycle(self, comp: CompatibilityMode, keys: Seq<bool>, random: u8) -> (
        MachineState,
        Result<(), MachineError>,
    ) {
        let bytes = self.word();
        match decode_word(bytes.0, bytes.1) {
            None => (self, Err(MachineError::InvalidOpcode { address: self.cpu.ip, bytes })),
            Some(instruction) => if !comp.allowed_instructions.permits(instruction) {
                (
                    self,
                    Err(
                        MachineError::IllegalInstruction {
                            instruction,
                            address: self.cpu.ip,
                            tier: comp.allowed_instructions,
                        },
                    ),
                )
            } else if self.cpu.skip {
                (self.fetched(), Ok(()))
            } else {
                self.fetched().execute(instruction, comp, keys, random)
            },
        }
    }

    /// Whether the cycle that starts in this state draws a random byte: it
    /// does where it carries out a random instruction.
    pub open spec fn draws_random(self, comp: CompatibilityMode) -> bool {
        let bytes = self.word();
        !self.cpu.skip && match decode_word(bytes.0, bytes.1) {
            Some(Instruction::Random(x, kk)) => comp.allowed_instructions.permits(
                Instruction::Random(x, kk),
            ),
            _ => false,
        }
    }

    /// The state after a timer tick: each timer that is not 0 counts down
    /// by one.
    pub open spec fn ticked(self) -> MachineState {
        MachineState {
            cpu: CpuState {
                sound_timer: if self.cpu.sound_timer != 0 {
                    (self.cpu.sound_timer - 1) as u8
                } else {
                    0
                },
                delay_timer: if self.cpu.delay_timer != 0 {
                    (self.cpu.delay_timer - 1) as u8
                } else {
                    0
                },
                ..self.cpu
            },
            ..self
        }
    }
}

/// The tier gate: a cycle ends in `IllegalInstruction` exactly if the
/// fetched word decodes to an instruction above the tier of the machine. It
/// then names the instruction, its address and the tier, and leaves the state
/// as it was.
pub proof fn lemma_tier_gate(
    state: MachineState,
    comp: CompatibilityMode,
    keys: Seq<bool>,
    random: u8,
)
    ensures
        state.cycle(comp, keys, random).1 matches Err(MachineError::IllegalInstruction { .. })
            <==> (decode_word(state.word().0, state.word().1) matches Some(instruction)
            && comp.allowed_instructions.ordinal() < instruction.required_tier().ordinal()),
        decode_word(state.word().0, state.word().1) matches Some(instruction) ==> (
        !comp.allowed_instructions.permits(instruction) ==> state.cycle(comp, keys, random) == (
            state,
            Err::<(), MachineError>(
                MachineError::IllegalInstruction {
                    instruction,
                    address: state.cpu.ip,
                    tier: comp.allowed_instructions,
                },
            ),
        )),
{
}

/// The skip latch: a cycle that finds the latch set fetches a legal
/// instruction, clears the latch and does nothing else.
pub proof fn lemma_skip_suppresses(
    state: MachineState,
    comp: CompatibilityMode,
    keys: Seq<bool>,
    random: u8,
)
    requires
        state.cpu.skip,
        decode_word(state.word().0, state.word().1) matches Some(instruction)
            && comp.allowed_instructions.permits(instruction),
    ensures
        state.cycle(comp, keys, random) == (state.fetched(), Ok::<(), MachineError>(())),
{
}

/// The shift quirk: a shift right writes the half of its source to register
/// `x` and the bit shifted out to the flag register. The source is register
/// `y` under the original rule and register `x` under the SuperChip rule; no
/// other register changes.
pub proof fn lemma_shift_right(
    state: MachineState,
    x: Register,
    y: Register,
    comp: CompatibilityMode,
    keys: Seq<bool>,
    random: u8,
)
    requires
        state.well_formed(),
        x.0 < 16,
        y.0 < 16,
    ensures
        ({
            let source = match comp.shift {
                ShiftMode::Original => state.reg(y),
                ShiftMode::SuperChip => state.reg(x),
            };
            let after = state.effect(Instruction::ShiftRight(x, y), comp, keys, random);
            &&& after.cpu.registers[FLAG as int] == source % 2
            &&& x.0 != FLAG ==> after.reg(x) == source / 2
            &&& forall|r: int|
                0 <= r < 16 && r != x.0 && r != FLAG ==> after.cpu.registers[r]
                    == state.cpu.registers[r]
        }),
{
}

/// The collision policy: a draw leaves in the flag register 1 or 0 under the
/// original rule, as it collided or not, and the number of its collisions,
/// held to 255, under the SuperChip rule. The display after the draw is the
/// same under both.
pub proof fn lemma_collision_policy(
    state: MachineState,
    x: Register,
    y: Register,
    height: u8,
    comp: CompatibilityMode,
)
    requires
        state.well_formed(),
    ensures
        ({
            let sprite = state.memory.skip(state.cpu.i as int);
            let total = state.screen.draw_collisions(
                sprite,
                state.reg(x) as int,
                state.reg(y) as int,
                height as int,
            );
            let after = state.after_draw(x, y, height, comp);
            &&& after.screen == state.screen.draw(
                sprite,
                state.reg(x) as int,
                state.reg(y) as int,
                height as int,
            )
            &&& after.cpu.registers[FLAG as int] == match comp.collisions {
                CollisionEnumeration::Original => if total == 0 {
                    0int
                } else {
                    1int
                },
                CollisionEnumeration::SuperChip => if total <= 255 {
                    total as int
                } else {
                    255int
                },
            }
        }),
{
}

/// The key that a wait finds is the lowest one that is down; it finds none
/// exactly if no key is down.
pub proof fn lemma_first_pressed(keys: Seq<bool>)
    requires
        keys.len() == 16,
    ensures
        match first_pressed(keys) {
            Some(key) => key < 16 && keys[key as int] && forall|k: int|
                0 <= k < key ==> !keys[k],
            None => forall|k: int| 0 <= k < 16 ==> !keys[k],
        },
{
    lemma_first_pressed_from(keys, 0);
}

proof fn lemma_first_pressed_from(keys: Seq<bool>, from: int)
    requires
        keys.len() == 16,
        0 <= from <= 16,
    ensures
        match first_pressed_from(keys, from) {
            Some(key) => from <= key < 16 && keys[key as int] && forall|k: int|
                from <= k < key ==> !keys[k],
            None => forall|k: int| from <= k < 16 ==> !keys[k],
        },
    decreases 16 - from,
{
    if from < 16 && !keys[from] {
        lemma_first_pressed_from(keys, from + 1);
    }
}

} // verus!
