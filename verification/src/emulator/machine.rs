//! The execution engine: the processor, the call stack, memory and the
//! display, driven one instruction cycle at a time.

use vstd::prelude::*;
use rand::rngs::StdRng;
use super::comp_mode::{
    default_preset, AddressSpace, CollisionEnumeration, CompatibilityMode, LoadStoreMode,
    RelativeJumpMode, ShiftMode,
};
use super::font::{font_byte, with_fonts, FONT, FONTS_SIZE, FONT_SIZE};
use super::instruction::{decode_word, Address, Constant, Instruction, Register};
use super::keys::Keys;
use super::raster::{blank, ScreenState};
use super::screen::{text, Screen};
use super::state::{
    advance_index, first_pressed, first_pressed_from, loaded, stored, wrap16, CpuState,
    MachineError, MachineState, FONT_START, LARGE_FONT_START, MEMORY_SIZE,
};

verus! {

/// The generator of pseudo-random bytes, `rand::rngs::StdRng`. Its state is
/// opaque to the proofs.
#[verifier::external_type_specification]
#[verifier::external_body]
pub struct ExStdRng(rand::rngs::StdRng);

/// Makes the generator that the seed determines, by
/// `rand::SeedableRng::seed_from_u64`. Nothing is claimed of the generator.
#[verifier::external_body]
fn seeded_generator(seed: u64) -> StdRng {
    rand::SeedableRng::seed_from_u64(seed)
}

/// Draws the next byte from the generator, by `rand::Rng::gen`. Nothing is
/// claimed of the byte: every value may come.
#[verifier::external_body]
fn next_random_byte(generator: &mut StdRng) -> u8 {
    rand::Rng::gen::<u8>(generator)
}

/// Shifts of a byte by one place, as divisions and remainders.
proof fn lemma_shifts(v: u8)
    by (bit_vector)
    ensures
        v >> 1 == v / 2,
        v & 1 == v % 2,
        v >> 7 == v / 128,
        v < 128 ==> v << 1 == v * 2,
        v >= 128 ==> v << 1 == v * 2 - 256,
{
}

/// The high nibble of a 12-bit address.
proof fn lemma_high_nibble(nnn: u16)
    by (bit_vector)
    ensures
        (nnn & 0xF00) >> 8 == (nnn / 256) % 16,
{
}

/// The pointer `by` bytes ahead of `ip`.
fn ahead(ip: u16, by: u16) -> (next: u16)
    ensures
        next == wrap16(ip + by),
{
    ((ip as u32 + by as u32) % 65536) as u16
}

/// The pointer two bytes before `ip`.
fn back(ip: u16) -> (previous: u16)
    ensures
        previous == wrap16(ip - 2),
{
    ((ip as u32 + 65534) % 65536) as u16
}

/// The index register `by` bytes on, wrapped at the width of the address
/// space.
fn index_ahead(i: u16, by: u16, space: AddressSpace) -> (next: u16)
    ensures
        next == advance_index(i, by as int, space),
{
    let sum = i as u32 + by as u32;
    match space {
        AddressSpace::Original => (sum % 4096) as u16,
        AddressSpace::XOChip => (sum % 65536) as u16,
    }
}

/// The effect of an instruction that reads neither the mode nor the keys nor
/// a random byte.
spec fn plain(state: MachineState, instruction: Instruction) -> MachineState {
    state.effect(instruction, default_preset(), Seq::empty(), 0)
}

/// The effect of an instruction that reads the mode, but neither the keys nor
/// a random byte.
spec fn moded(state: MachineState, instruction: Instruction, comp: CompatibilityMode) -> MachineState {
    state.effect(instruction, comp, Seq::empty(), 0)
}

/// The effect of an instruction that reads the keys, but neither the mode
/// nor a random byte.
spec fn keyed(state: MachineState, instruction: Instruction, keys: Seq<bool>) -> MachineState {
    state.effect(instruction, default_preset(), keys, 0)
}

/// The processor state.
pub struct CPU {
    registers: [u8; 16],
    i: u16,
    ip: u16,
    skip: bool,
    sound_timer: u8,
    delay_timer: u8,
}

/// The state of a processor at power-on: everything is 0 but the
/// instruction pointer, which stands at 512.
pub open spec fn power_on_cpu() -> CpuState {
    CpuState {
        registers: Seq::new(16, |r: int| 0u8),
        i: 0,
        ip: 0x200,
        skip: false,
        sound_timer: 0,
        delay_timer: 0,
    }
}

/// The state of a machine at power-on: the processor at power-on, an empty
/// call stack, memory filled with 0, and a new display.
pub open spec fn power_on() -> MachineState {
    MachineState {
        cpu: power_on_cpu(),
        stack: Seq::empty(),
        memory: Seq::new(MEMORY_SIZE as nat, |a: int| 0u8),
        screen: ScreenState {
            planes: seq![blank(), blank()],
            selected: seq![true, false],
            lores: true,
        },
    }
}

/// Memory after `program` was copied to `start`.
pub open spec fn with_program(memory: Seq<u8>, program: Seq<u8>, start: int) -> Seq<u8> {
    Seq::new(
        memory.len(),
        |a: int|
            if start <= a < start + program.len() {
                program[a - start]
            } else {
                memory[a]
            },
    )
}

impl CPU {
    /// The state of the processor.
    pub closed spec fn view(&self) -> CpuState {
        CpuState {
            registers: self.registers@,
            i: self.i,
            ip: self.ip,
            skip: self.skip,
            sound_timer: self.sound_timer,
            delay_timer: self.delay_timer,
        }
    }

    pub fn new() -> (cpu: CPU)
        ensures
            cpu@ == power_on_cpu(),
    {
        let cpu = CPU {
            registers: [0; 16],
            i: 0,
            ip: 0x200,
            skip: false,
            sound_timer: 0,
            delay_timer: 0,
        };
        proof {
            assert(cpu@.registers =~= power_on_cpu().registers);
        }
        cpu
    }

    /// The value of register `index`.
    pub fn register(&self, index: Register) -> (value: u8)
        requires
            index.0 < 16,
        ensures
            value == self@.registers[index.0 as int],
    {
        self.registers[index.0 as usize]
    }

    /// Sets register `index` to `value`.
    pub fn set_register(&mut self, index: Register, value: u8)
        requires
            index.0 < 16,
        ensures
            final(self)@ == (CpuState {
                registers: old(self)@.registers.update(index.0 as int, value),
                ..old(self)@
            }),
    {
        self.registers[index.0 as usize] = value;
    }
}

/// A machine: the processor, the call stack, memory, the display, and the
/// generator of random bytes.
pub struct Machine {
    cpu: CPU,
    stack: Vec<u16>,
    memory: Box<[u8; MEMORY_SIZE]>,
    screen: Screen,
    rng: StdRng,
}

impl Machine {
    /// The state of the machine. The generator is no part of it.
    pub closed spec fn view(&self) -> MachineState {
        MachineState {
            cpu: self.cpu@,
            stack: self.stack@,
            memory: self.memory@,
            screen: self.screen@,
        }
    }

    /// The state of a machine is well-formed.
    pub proof fn lemma_view_well_formed(&self)
        ensures
            self@.well_formed(),
    {
        self.screen.lemma_view_well_formed();
    }

    /// A machine at power-on. The seed goes to the generator of random bytes.
    pub fn new(rng_seed: u64) -> (machine: Machine)
        ensures
            machine@ == power_on(),
    {
        let machine = Machine {
            cpu: CPU::new(),
            stack: Vec::new(),
            memory: Box::new([0; MEMORY_SIZE]),
            screen: Screen::new(),
            rng: seeded_generator(rng_seed),
        };
        proof {
            assert(machine@.memory =~= power_on().memory);
        }
        machine
    }

    /// One instruction cycle. Where the cycle carries out a random
    /// instruction, it draws the byte from the generator.
    pub fn decode_and_execute(&mut self, comp: &CompatibilityMode, keys: &Keys) -> (result: Result<
        (),
        MachineError,
    >)
        ensures
            exists|random: u8|
                (final(self)@, result) == #[trigger] old(self)@.cycle(*comp, keys@, random),
            !old(self)@.draws_random(*comp) ==> (final(self)@, result) == old(self)@.cycle(
                *comp,
                keys@,
                0,
            ),
    {
        let instruction = match self.fetch(comp) {
            Err(error) => {
                assert((self@, Err::<(), MachineError>(error)) == old(self)@.cycle(*comp, keys@, 0));
                return Err(error);
            },
            Ok(None) => {
                assert((self@, Ok::<(), MachineError>(())) == old(self)@.cycle(*comp, keys@, 0));
                return Ok(());
            },
            Ok(Some(instruction)) => instruction,
        };
        let random = match instruction {
            Instruction::Random(_, _) => next_random_byte(&mut self.rng),
            _ => 0,
        };
        let result = self.execute(instruction, comp, keys, random);
        assert((self@, result) == old(self)@.cycle(*comp, keys@, random));
        result
    }

    /// One instruction cycle in which a random instruction draws `random`.
    pub fn decode_and_execute_with(
        &mut self,
        comp: &CompatibilityMode,
        keys: &Keys,
        random: u8,
    ) -> (result: Result<(), MachineError>)
        ensures
            (final(self)@, result) == old(self)@.cycle(*comp, keys@, random),
    {
        match self.fetch(comp) {
            Err(error) => Err(error),
            Ok(None) => Ok(()),
            Ok(Some(instruction)) => self.execute(instruction, comp, keys, random),
        }
    }

    /// The first four steps of a cycle: fetch and decode, the tier gate, the
    /// move of the pointer, and the skip latch. Returns the instruction to
    /// carry out, if the latch did not suppress it.
    fn fetch(&mut self, comp: &CompatibilityMode) -> (fetched: Result<
        Option<Instruction>,
        MachineError,
    >)
        ensures
            match decode_word(old(self)@.word().0, old(self)@.word().1) {
                None => final(self)@ == old(self)@ && fetched == Err::<
                    Option<Instruction>,
                    MachineError,
                >(
                    MachineError::InvalidOpcode {
                        address: old(self)@.cpu.ip,
                        bytes: old(self)@.word(),
                    },
                ),
                Some(instruction) => if !comp.allowed_instructions.permits(instruction) {
                    final(self)@ == old(self)@ && fetched == Err::<
                        Option<Instruction>,
                        MachineError,
                    >(
                        MachineError::IllegalInstruction {
                            instruction,
                            address: old(self)@.cpu.ip,
                            tier: comp.allowed_instructions,
                        },
                    )
                } else {
                    &&& instruction.well_formed()
                    &&& final(self)@ == old(self)@.fetched()
                    &&& fetched == Ok::<Option<Instruction>, MachineError>(
                        if old(self)@.cpu.skip {
                            None
                        } else {
                            Some(instruction)
                        },
                    )
                },
            },
    {
        let instruction = match self.decode() {
            Ok(instruction) => instruction,
            Err(error) => {
                return Err(error);
            },
        };
        match self.check_legal(&instruction, comp) {
            Ok(()) => {},
            Err(error) => {
                return Err(error);
            },
        }

        self.cpu.ip = ahead(self.cpu.ip, instruction.length());

        let skip = self.cpu.skip;
        self.cpu.skip = false;

        if !skip {
            Ok(Some(instruction))
        } else {
            Ok(None)
        }
    }

    fn decode(&self) -> (decoded: Result<Instruction, MachineError>)
        ensures
            match decode_word(self@.word().0, self@.word().1) {
                None => decoded == Err::<Instruction, MachineError>(
                    MachineError::InvalidOpcode { address: self@.cpu.ip, bytes: self@.word() },
                ),
                Some(instruction) => decoded == Ok::<Instruction, MachineError>(instruction)
                    && instruction.well_formed(),
            },
    {
        let ip = self.cpu.ip as usize;
        let bytes = [self.memory[ip], self.memory[(ip + 1) % MEMORY_SIZE]];
        let instruction = Instruction::decode(&bytes);

        match instruction {
            Some(instruction) => Ok(instruction),
            None => Err(
                MachineError::InvalidOpcode { address: self.cpu.ip, bytes: (bytes[0], bytes[1]) },
            ),
        }
    }

    fn check_legal(&self, i: &Instruction, comp: &CompatibilityMode) -> (checked: Result<
        (),
        MachineError,
    >)
        ensures
            checked == if comp.allowed_instructions.permits(*i) {
                Ok::<(), MachineError>(())
            } else {
                Err::<(), MachineError>(
                    MachineError::IllegalInstruction {
                        instruction: *i,
                        address: self@.cpu.ip,
                        tier: comp.allowed_instructions,
                    },
                )
            },
    {
        let allowed = comp.allowed_instructions;
        if !allowed.is_legal(i) {
            return Err(
                MachineError::IllegalInstruction {
                    instruction: *i,
                    address: self.cpu.ip,
                    tier: allowed,
                },
            );
        }
        Ok(())
    }

    fn execute(
        &mut self,
        i: Instruction,
        comp: &CompatibilityMode,
        keys: &Keys,
        random: u8,
    ) -> (result: Result<(), MachineError>)
        requires
            i.well_formed(),
        ensures
            (final(self)@, result) == old(self)@.execute(i, *comp, keys@, random),
    {
        match i {
            Instruction::ClearScreen => self.exec_clear_screen(),
            Instruction::Return => {
                return self.exec_return();
            },
            Instruction::HiRes => self.exec_hires(),
            Instruction::Jump(nnn) => self.exec_jump(nnn),
            Instruction::Call(nnn) => self.exec_call(nnn),
            Instruction::SkipEqualConstant(x, kk) => self.exec_skip_equal_constant(x, kk),
            Instruction::SkipNotEqualConstant(x, kk) => self.exec_skip_not_equal_constant(x, kk),
            Instruction::SkipEqual(x, y) => self.exec_skip_equal(x, y),
            Instruction::SetConstant(x, kk) => self.exec_set(x, kk),
            Instruction::SetSum(x, kk) => self.exec_set_sum(x, kk),
            Instruction::Mov(x, y) => self.exec_mov(x, y),
            Instruction::Or(x, y) => self.exec_or(x, y),
            Instruction::And(x, y) => self.exec_and(x, y),
            Instruction::Xor(x, y) => self.exec_xor(x, y),
            Instruction::Add(x, y) => self.exec_add(x, y),
            Instruction::Sub(x, y) => self.exec_sub(x, y),
            Instruction::ShiftRight(x, y) => self.exec_shift_right(x, y, comp),
            Instruction::RevSub(x, y) => self.exec_rev_sub(x, y),
            Instruction::ShiftLeft(x, y) => self.exec_shift_left(x, y, comp),
            Instruction::SkipNotEqual(x, y) => self.exec_skip_not_equal(x, y),
            Instruction::LoadI(nnn) => self.exec_load_i(nnn),
            Instruction::JumpRelative(nnn) => self.exec_jump_relative(nnn, comp),
            Instruction::Random(x, kk) => self.exec_random(x, kk, random),
            Instruction::Draw(x, y, n) => self.exec_draw(x, y, n, comp),
            Instruction::SkipNotPressed(x) => self.exec_skip_not_pressed(x, keys),
            Instruction::LoadDelay(x) => self.exec_load_delay(x),
            Instruction::WaitForKey(x) => self.exec_wait_for_key(x, keys),
            Instruction::StoreSound(x) => self.exec_store_sound(x),
            Instruction::StoreDelay(x) => self.exec_store_delay(x),
            Instruction::AddI(x) => self.exec_add_i(x, comp),
            Instruction::LoadSprite(x) => self.exec_load_sprite(x),
            Instruction::LoadLargeSprite(x) => self.exec_load_hires_sprite(x),
            Instruction::StoreBCD(x) => self.exec_store_bcd(x),
            Instruction::Store(x) => self.exec_store(x, comp),
            Instruction::Load(x) => self.exec_load(x, comp),
            Instruction::StoreUserFlags(x) => self.exec_store_user_flags(x),
            Instruction::LoadUserFlags(x) => self.exec_load_user_flags(x),
            Instruction::Exit => self.exec_exit(),
            _ => {
                return Err(
                    MachineError::Unimplemented { instruction: i, address: back(self.cpu.ip) },
                );
            },
        }
        Ok(())
    }

    fn exec_clear_screen(&mut self)
        ensures
            final(self)@ == plain(old(self)@, Instruction::ClearScreen),
    {
        self.screen.clear();
    }

    fn exec_return(&mut self) -> (result: Result<(), MachineError>)
        ensures
            (final(self)@, result) == old(self)@.execute(
                Instruction::Return,
                default_preset(),
                Seq::empty(),
                0,
            ),
    {
        match self.stack.pop() {
            Some(ip) => {
                self.cpu.ip = ip;
                Ok(())
            },
            None => Err(MachineError::StackUnderflow),
        }
    }

    fn exec_hires(&mut self)
        ensures
            final(self)@ == plain(old(self)@, Instruction::HiRes),
    {
        self.screen.enable_hires();
    }

    /// Ends the program: the machine stays on the instruction.
    fn exec_exit(&mut self)
        ensures
            final(self)@ == plain(old(self)@, Instruction::Exit),
    {
        self.cpu.ip = back(self.cpu.ip);
    }

    fn exec_jump(&mut self, nnn: Address)
        ensures
            final(self)@ == plain(old(self)@, Instruction::Jump(nnn)),
    {
        self.cpu.ip = nnn.0;
    }

    fn exec_call(&mut self, nnn: Address)
        ensures
            final(self)@ == plain(old(self)@, Instruction::Call(nnn)),
    {
        self.stack.push(self.cpu.ip);
        self.cpu.ip = nnn.0;
    }

    fn exec_skip_equal_constant(&mut self, x: Register, kk: Constant)
        requires
            x.0 < 16,
        ensures
            final(self)@ == plain(old(self)@, Instruction::SkipEqualConstant(x, kk)),
    {
        if self.cpu.register(x) == kk.0 {
            self.cpu.skip = true;
        }
    }

    fn exec_skip_not_equal_constant(&mut self, x: Register, kk: Constant)
        requires
            x.0 < 16,
        ensures
            final(self)@ == plain(old(self)@, Instruction::SkipNotEqualConstant(x, kk)),
    {
        if self.cpu.register(x) != kk.0 {
            self.cpu.skip = true;
        }
    }

    fn exec_skip_equal(&mut self, x: Register, y: Register)
        requires
            x.0 < 16,
            y.0 < 16,
        ensures
            final(self)@ == plain(old(self)@, Instruction::SkipEqual(x, y)),
    {
        if self.cpu.register(x) == self.cpu.register(y) {
            self.cpu.skip = true;
        }
    }

    fn exec_set(&mut self, x: Register, kk: Constant)
        requires
            x.0 < 16,
        ensures
            final(self)@ == plain(old(self)@, Instruction::SetConstant(x, kk)),
    {
        self.cpu.set_register(x, kk.0);
    }

    fn exec_set_sum(&mut self, x: Register, kk: Constant)
        requires
            x.0 < 16,
        ensures
            final(self)@ == plain(old(self)@, Instruction::SetSum(x, kk)),
    {
        let sum = ((self.cpu.register(x) as u16 + kk.0 as u16) % 256) as u8;
        self.cpu.set_register(x, sum);
    }

    fn exec_mov(&mut self, x: Register, y: Register)
        requires
            x.0 < 16,
            y.0 < 16,
        ensures
            final(self)@ == plain(old(self)@, Instruction::Mov(x, y)),
    {
        let value = self.cpu.register(y);
        self.cpu.set_register(x, value);
    }

    fn exec_or(&mut self, x: Register, y: Register)
        requires
            x.0 < 16,
            y.0 < 16,
        ensures
            final(self)@ == plain(old(self)@, Instruction::Or(x, y)),
    {
        let value = self.cpu.register(x) | self.cpu.register(y);
        self.cpu.set_register(x, value);
    }

    fn exec_and(&mut self, x: Register, y: Register)
        requires
            x.0 < 16,
            y.0 < 16,
        ensures
            final(self)@ == plain(old(self)@, Instruction::And(x, y)),
    {
        let value = self.cpu.register(x) & self.cpu.register(y);
        self.cpu.set_register(x, value);
    }

    fn exec_xor(&mut self, x: Register, y: Register)
        requires
            x.0 < 16,
            y.0 < 16,
        ensures
            final(self)@ == plain(old(self)@, Instruction::Xor(x, y)),
    {
        let value = self.cpu.register(x) ^ self.cpu.register(y);
        self.cpu.set_register(x, value);
    }

    fn exec_add(&mut self, x: Register, y: Register)
        requires
            x.0 < 16,
            y.0 < 16,
        ensures
            final(self)@ == plain(old(self)@, Instruction::Add(x, y)),
    {
        let total = self.cpu.register(x) as u16 + self.cpu.register(y) as u16;
        let carry = total > 0xFF;
        self.cpu.set_register(x, (total % 256) as u8);
        self.cpu.registers[0xF] = if carry {
            1
        } else {
            0
        };
    }

    fn exec_sub(&mut self, x: Register, y: Register)
        requires
            x.0 < 16,
            y.0 < 16,
        ensures
            final(self)@ == plain(old(self)@, Instruction::Sub(x, y)),
    {
        let minuend = self.cpu.register(x);
        let subtrahend = self.cpu.register(y);
        let borrow = minuend < subtrahend;
        let diff = ((minuend as u16 + 256 - subtrahend as u16) % 256) as u8;
        self.cpu.set_register(x, diff);
        self.cpu.registers[0xF] = if !borrow {
            1
        } else {
            0
        };
    }

    fn exec_shift_right(&mut self, x: Register, y: Register, comp: &CompatibilityMode)
        requires
            x.0 < 16,
            y.0 < 16,
        ensures
            final(self)@ == moded(old(self)@, Instruction::ShiftRight(x, y), *comp),
    {
        let shift = match comp.shift {
            ShiftMode::Original => y,
            ShiftMode::SuperChip => x,
        };
        let source = self.cpu.register(shift);
        proof {
            lemma_shifts(source);
        }
        self.cpu.set_register(x, source >> 1);
        self.cpu.registers[0xF] = source & 1;
    }

    fn exec_rev_sub(&mut self, x: Register, y: Register)
        requires
            x.0 < 16,
            y.0 < 16,
        ensures
            final(self)@ == plain(old(self)@, Instruction::RevSub(x, y)),
    {
        let minuend = self.cpu.register(y);
        let subtrahend = self.cpu.register(x);
        let borrow = minuend < subtrahend;
        let diff = ((minuend as u16 + 256 - subtrahend as u16) % 256) as u8;
        self.cpu.set_register(x, diff);
        self.cpu.registers[0xF] = if !borrow {
            1
        } else {
            0
        };
    }

    fn exec_shift_left(&mut self, x: Register, y: Register, comp: &CompatibilityMode)
        requires
            x.0 < 16,
            y.0 < 16,
        ensures
            final(self)@ == moded(old(self)@, Instruction::ShiftLeft(x, y), *comp),
    {
        let shift = match comp.shift {
            ShiftMode::Original => y,
            ShiftMode::SuperChip => x,
        };
        let source = self.cpu.register(shift);
        proof {
            lemma_shifts(source);
        }
        self.cpu.set_register(x, source << 1);
        self.cpu.registers[0xF] = source >> 7;
    }

    fn exec_skip_not_equal(&mut self, x: Register, y: Register)
        requires
            x.0 < 16,
            y.0 < 16,
        ensures
            final(self)@ == plain(old(self)@, Instruction::SkipNotEqual(x, y)),
    {
        if self.cpu.register(x) != self.cpu.register(y) {
            self.cpu.skip = true;
        }
    }

    fn exec_load_i(&mut self, nnn: Address)
        ensures
            final(self)@ == plain(old(self)@, Instruction::LoadI(nnn)),
    {
        self.cpu.i = nnn.0;
    }

    fn exec_jump_relative(&mut self, nnn: Address, comp: &CompatibilityMode)
        requires
            nnn.0 < 4096,
        ensures
            final(self)@ == moded(old(self)@, Instruction::JumpRelative(nnn), *comp),
    {
        let nnn = nnn.0;
        proof {
            lemma_high_nibble(nnn);
        }
        let x = match comp.jump_mode {
            RelativeJumpMode::Original => 0,
            RelativeJumpMode::SuperChip => (nnn & 0xF00) >> 8,
        };

        let x = self.cpu.registers[x as usize] as u16;
        self.cpu.ip = nnn + x;
    }

    fn exec_random(&mut self, x: Register, kk: Constant, random: u8)
        requires
            x.0 < 16,
        ensures
            final(self)@ == old(self)@.effect(
                Instruction::Random(x, kk),
                default_preset(),
                Seq::empty(),
                random,
            ),
    {
        let kk = kk.0;
        let value = random & kk;
        self.cpu.set_register(x, value);
    }

    fn exec_draw(&mut self, x: Register, y: Register, n: Constant, comp: &CompatibilityMode)
        requires
            x.0 < 16,
            y.0 < 16,
        ensures
            final(self)@ == moded(old(self)@, Instruction::Draw(x, y, n), *comp),
    {
        let x = self.cpu.register(x) as usize;
        let y = self.cpu.register(y) as usize;
        let i = self.cpu.i as usize;
        let sprite = vstd::slice::slice_subrange(self.memory.as_slice(), i, MEMORY_SIZE);

        let collisions = self.screen.draw_sprite(sprite, x, y, n.0 as usize);

        self.cpu.registers[0xF] = match comp.collisions {
            CollisionEnumeration::Original => if collisions != 0 {
                1
            } else {
                0
            },
            CollisionEnumeration::SuperChip => if collisions > 255 {
                255
            } else {
                collisions as u8
            },
        };
    }

    fn exec_skip_not_pressed(&mut self, x: Register, keys: &Keys)
        requires
            x.0 < 16,
        ensures
            final(self)@ == keyed(old(self)@, Instruction::SkipNotPressed(x), keys@),
    {
        let x = self.cpu.register(x);
        if x >= 16 || !keys.is_pressed(x) {
            self.cpu.skip = true;
        }
    }

    fn exec_load_delay(&mut self, x: Register)
        requires
            x.0 < 16,
        ensures
            final(self)@ == plain(old(self)@, Instruction::LoadDelay(x)),
    {
        let value = self.cpu.delay_timer;
        self.cpu.set_register(x, value);
    }

    fn exec_wait_for_key(&mut self, x: Register, keys: &Keys)
        requires
            x.0 < 16,
        ensures
            final(self)@ == keyed(old(self)@, Instruction::WaitForKey(x), keys@),
    {
        let mut k: u8 = 0;
        while k < 16
            invariant
                k <= 16,
                x.0 < 16,
                self == old(self),
                first_pressed(keys@) == first_pressed_from(keys@, k as int),
            decreases 16 - k,
        {
            if keys.is_pressed(k) {
                self.cpu.set_register(x, k);
                return ;
            }
            k += 1;
        }
        self.cpu.ip = back(self.cpu.ip);
    }

    fn exec_store_sound(&mut self, x: Register)
        requires
            x.0 < 16,
        ensures
            final(self)@ == plain(old(self)@, Instruction::StoreSound(x)),
    {
        self.cpu.sound_timer = self.cpu.register(x);
    }

    fn exec_store_delay(&mut self, x: Register)
        requires
            x.0 < 16,
        ensures
            final(self)@ == plain(old(self)@, Instruction::StoreDelay(x)),
    {
        self.cpu.delay_timer = self.cpu.register(x);
    }

    fn exec_add_i(&mut self, x: Register, comp: &CompatibilityMode)
        requires
            x.0 < 16,
        ensures
            final(self)@ == moded(old(self)@, Instruction::AddI(x), *comp),
    {
        let x = self.cpu.register(x);
        self.cpu.i = index_ahead(self.cpu.i, x as u16, comp.address_space);
    }

    fn exec_load_sprite(&mut self, x: Register)
        requires
            x.0 < 16,
        ensures
            final(self)@ == plain(old(self)@, Instruction::LoadSprite(x)),
    {
        let x = self.cpu.register(x) as u16;
        let addr = Self::lores_sprite_start() + x * 5;
        self.cpu.i = addr;
    }

    fn exec_load_hires_sprite(&mut self, x: Register)
        requires
            x.0 < 16,
        ensures
            final(self)@ == plain(old(self)@, Instruction::LoadLargeSprite(x)),
    {
        let x = self.cpu.register(x) as u16;
        let addr = Self::hires_sprite_start() + x * 10;
        self.cpu.i = addr;
    }

    fn exec_store_bcd(&mut self, x: Register)
        requires
            x.0 < 16,
        ensures
            final(self)@ == plain(old(self)@, Instruction::StoreBCD(x)),
    {
        let x = self.cpu.register(x);
        let ones = x % 10;
        let tens = (x / 10) % 10;
        let hundreds = (x / 10 / 10) % 10;

        let i = self.cpu.i as usize;
        self.memory[i] = hundreds;
        self.memory[(i + 1) % MEMORY_SIZE] = tens;
        self.memory[(i + 2) % MEMORY_SIZE] = ones;
    }

    fn exec_store(&mut self, x: Register, comp: &CompatibilityMode)
        requires
            x.0 < 16,
        ensures
            final(self)@ == moded(old(self)@, Instruction::Store(x), *comp),
    {
        let count = x.0 as usize + 1;
        let i = self.cpu.i as usize;
        let mut k: usize = 0;
        while k < count
            invariant
                k <= count <= 16,
                i < MEMORY_SIZE,
                self.cpu == old(self).cpu,
                self.stack == old(self).stack,
                self.screen == old(self).screen,
                self.memory@ == stored(
                    old(self).memory@,
                    old(self).cpu.registers@,
                    i as int,
                    k as int,
                ),
            decreases count - k,
        {
            self.memory[(i + k) % MEMORY_SIZE] = self.cpu.registers[k];
            k += 1;
        }

        match comp.load_store {
            LoadStoreMode::Original => {
                self.cpu.i = index_ahead(self.cpu.i, count as u16, comp.address_space);
            },
            LoadStoreMode::SuperChip => {},
        }
    }

    fn exec_load(&mut self, x: Register, comp: &CompatibilityMode)
        requires
            x.0 < 16,
        ensures
            final(self)@ == moded(old(self)@, Instruction::Load(x), *comp),
    {
        let count = x.0 as usize + 1;
        let i = self.cpu.i as usize;
        let mut k: usize = 0;
        proof {
            assert(self.cpu.registers@ =~= loaded(
                old(self).cpu.registers@,
                old(self).memory@,
                i as int,
                0,
            ));
        }
        while k < count
            invariant
                k <= count <= 16,
                i < MEMORY_SIZE,
                self.memory == old(self).memory,
                self.stack == old(self).stack,
                self.screen == old(self).screen,
                self.cpu@ == (CpuState {
                    registers: loaded(
                        old(self).cpu.registers@,
                        old(self).memory@,
                        i as int,
                        k as int,
                    ),
                    ..old(self).cpu@
                }),
            decreases count - k,
        {
            self.cpu.registers[k] = self.memory[(i + k) % MEMORY_SIZE];
            proof {
                assert(self.cpu.registers@ =~= loaded(
                    old(self).cpu.registers@,
                    old(self).memory@,
                    i as int,
                    k + 1,
                ));
            }
            k += 1;
        }

        match comp.load_store {
            LoadStoreMode::Original => {
                self.cpu.i = index_ahead(self.cpu.i, count as u16, comp.address_space);
            },
            LoadStoreMode::SuperChip => {},
        }
    }

    fn exec_store_user_flags(&mut self, _x: Register)
        ensures
            final(self)@ == plain(old(self)@, Instruction::StoreUserFlags(_x)),
    {
    }

    fn exec_load_user_flags(&mut self, _x: Register)
        ensures
            final(self)@ == plain(old(self)@, Instruction::LoadUserFlags(_x)),
    {
    }

    /// The timer tick: each of the two timers that is not 0 counts down by
    /// one.
    pub fn decrement_counters(&mut self)
        ensures
            final(self)@ == old(self)@.ticked(),
    {
        if self.cpu.sound_timer != 0 {
            self.cpu.sound_timer -= 1;
        }
        if self.cpu.delay_timer != 0 {
            self.cpu.delay_timer -= 1;
        }
    }

    pub fn init_instruction_pointer(&mut self, ip: u16)
        ensures
            final(self)@ == old(self)@.with_ip(ip),
    {
        self.cpu.ip = ip;
    }

    /// Copies `program` into memory from `start` on. The program has to fit
    /// between `start` and the end of memory.
    pub fn load_program(&mut self, program: &[u8], start: usize)
        requires
            start + program@.len() <= MEMORY_SIZE,
        ensures
            final(self)@ == (MachineState {
                memory: with_program(old(self)@.memory, program@, start as int),
                ..old(self)@
            }),
    {
        let size = program.len();
        let mut k: usize = 0;
        while k < size
            invariant
                k <= size,
                size == program@.len(),
                start + size <= MEMORY_SIZE,
                self.cpu == old(self).cpu,
                self.stack == old(self).stack,
                self.screen == old(self).screen,
                self.memory@ == with_program(
                    old(self).memory@,
                    program@.take(k as int),
                    start as int,
                ),
            decreases size - k,
        {
            self.memory[start + k] = program[k];
            k += 1;
        }
        proof {
            assert(program@.take(size as int) =~= program@);
        }
    }

    /// Loads both fonts: the low-resolution font at address 0, the
    /// high-resolution font right behind it.
    pub fn load_sprites(&mut self)
        ensures
            final(self)@ == (MachineState {
                memory: with_fonts(old(self)@.memory),
                ..old(self)@
            }),
    {
        self.load_lowres_sprites();
        self.load_hires_sprites();
        proof {
            assert(self.memory@ =~= with_fonts(old(self).memory@));
        }
    }

    fn load_lowres_sprites(&mut self)
        ensures
            final(self).cpu == old(self).cpu,
            final(self).stack == old(self).stack,
            final(self).screen == old(self).screen,
            forall|a: int|
                0 <= a < MEMORY_SIZE ==> #[trigger] final(self).memory@[a] == if a < FONT_SIZE {
                    font_byte(a)
                } else {
                    old(self).memory@[a]
                },
    {
        let start = Self::lores_sprite_start() as usize;
        let mut i: usize = 0;
        while i < FONT_SIZE
            invariant
                i <= FONT_SIZE,
                start == FONT_START,
                self.cpu == old(self).cpu,
                self.stack == old(self).stack,
                self.screen == old(self).screen,
                forall|a: int|
                    0 <= a < MEMORY_SIZE ==> #[trigger] self.memory@[a] == if a < i {
                        font_byte(a)
                    } else {
                        old(self).memory@[a]
                    },
            decreases FONT_SIZE - i,
        {
            self.memory[start + i] = FONT[i];
            i += 1;
        }
    }

    fn load_hires_sprites(&mut self)
        ensures
            final(self).cpu == old(self).cpu,
            final(self).stack == old(self).stack,
            final(self).screen == old(self).screen,
            forall|a: int|
                0 <= a < MEMORY_SIZE ==> #[trigger] final(self).memory@[a] == if FONT_SIZE <= a
                    < FONTS_SIZE {
                    font_byte(a)
                } else {
                    old(self).memory@[a]
                },
    {
        let start = Self::hires_sprite_start() as usize;
        let mut i: usize = 0;
        while i < FONT_SIZE
            invariant
                i <= FONT_SIZE,
                start == LARGE_FONT_START,
                self.cpu == old(self).cpu,
                self.stack == old(self).stack,
                self.screen == old(self).screen,
                forall|a: int|
                    0 <= a < MEMORY_SIZE ==> #[trigger] self.memory@[a] == if FONT_SIZE <= a
                        < FONT_SIZE + 2 * i {
                        font_byte(a)
                    } else {
                        old(self).memory@[a]
                    },
            decreases FONT_SIZE - i,
        {
            let b = FONT[i];
            self.memory[start + i * 2] = b;
            self.memory[start + i * 2 + 1] = b;
            i += 1;
        }
    }

    fn lores_sprite_start() -> (start: u16)
        ensures
            start == FONT_START,
    {
        0
    }

    fn hires_sprite_start() -> (start: u16)
        ensures
            start == LARGE_FONT_START,
    {
        Self::lores_sprite_start() + 5 * 16
    }

    /// The value of register `index`.
    pub fn register(&self, index: u8) -> (value: u8)
        requires
            index < 16,
        ensures
            value == self@.cpu.registers[index as int],
    {
        self.cpu.registers[index as usize]
    }

    /// The index register, I.
    pub fn index_register(&self) -> (i: u16)
        ensures
            i == self@.cpu.i,
    {
        self.cpu.i
    }

    pub fn instruction_pointer(&self) -> (ip: u16)
        ensures
            ip == self@.cpu.ip,
    {
        self.cpu.ip
    }

    /// Whether the skip latch is set: whether the next cycle suppresses the
    /// instruction that it fetches.
    pub fn skip_pending(&self) -> (skip: bool)
        ensures
            skip == self@.cpu.skip,
    {
        self.cpu.skip
    }

    pub fn delay_timer(&self) -> (timer: u8)
        ensures
            timer == self@.cpu.delay_timer,
    {
        self.cpu.delay_timer
    }

    pub fn sound_timer(&self) -> (timer: u8)
        ensures
            timer == self@.cpu.sound_timer,
    {
        self.cpu.sound_timer
    }

    /// The byte of memory at `address`.
    pub fn memory_byte(&self, address: u16) -> (byte: u8)
        ensures
            byte == self@.memory[address as int],
    {
        self.memory[address as usize]
    }

    /// The number of return addresses on the call stack.
    pub fn stack_depth(&self) -> (depth: usize)
        ensures
            depth == self@.stack.len(),
    {
        self.stack.len()
    }

    pub fn screen(&self) -> (screen: &Screen)
        ensures
            screen@ == self@.screen,
    {
        &self.screen
    }

    /// Appends the text dump of the display to `out`.
    pub fn write_screen(&self, out: &mut Vec<u8>)
        ensures
            final(out)@ == old(out)@ + text(self@.screen),
    {
        self.screen.write(out)
    }
}

} // verus!
