//! Machine parameters and the constructor that turns them into a machine.

use vstd::prelude::*;
use crate::interpreter::{Interpreter, MachineState};

verus! {

/// Where programs conventionally start: most CHIP-8 programs expect it.
pub const DEFAULT_PROGRAM_START: usize = 0x200;

pub const DEFAULT_DISPLAY_WIDTH: usize = 64;

pub const DEFAULT_DISPLAY_HEIGHT: usize = 32;

pub const DEFAULT_FONT_DATA_START: usize = 0x50;

pub const DEFAULT_FONT_DATA_END: usize = 0x9F;

/// Default pacing of roughly 700 instructions per second.
pub const DEFAULT_INSTRUCTION_DELAY_NANOS: u64 = 1_000_000_000 / 700;

pub const DEFAULT_MEMORY_SIZE: usize = 4096;

/// Seed of the deterministic pseudo-random generator; the same seed replays
/// the same random sequence.
pub const DEFAULT_RANDOM_SEED: u64 = 0x13275389;

/// The standard CHIP-8 font: sixteen glyphs `0` to `F`, five bytes each.
pub open spec fn default_font() -> Seq<u8> {
    seq![
        0xF0u8, 0x90u8, 0x90u8, 0x90u8, 0xF0u8,
        0x20u8, 0x60u8, 0x20u8, 0x20u8, 0x70u8,
        0xF0u8, 0x10u8, 0xF0u8, 0x80u8, 0xF0u8,
        0xF0u8, 0x10u8, 0xF0u8, 0x10u8, 0xF0u8,
        0x90u8, 0x90u8, 0xF0u8, 0x10u8, 0x10u8,
        0xF0u8, 0x80u8, 0xF0u8, 0x10u8, 0xF0u8,
        0xF0u8, 0x80u8, 0xF0u8, 0x90u8, 0xF0u8,
        0xF0u8, 0x10u8, 0x20u8, 0x40u8, 0x40u8,
        0xF0u8, 0x90u8, 0xF0u8, 0x90u8, 0xF0u8,
        0xF0u8, 0x90u8, 0xF0u8, 0x10u8, 0xF0u8,
        0xF0u8, 0x90u8, 0xF0u8, 0x90u8, 0x90u8,
        0xE0u8, 0x90u8, 0xE0u8, 0x90u8, 0xE0u8,
        0xF0u8, 0x80u8, 0x80u8, 0x80u8, 0xF0u8,
        0xE0u8, 0x90u8, 0x90u8, 0x90u8, 0xE0u8,
        0xF0u8, 0x80u8, 0xF0u8, 0x80u8, 0xF0u8,
        0xF0u8, 0x80u8, 0xF0u8, 0x80u8, 0x80u8,
    ]
}

/// The tunable machine parameters; immutable once a machine is built.
#[derive(Debug, Clone, Copy)]
pub struct Configuration {
    /// Nanoseconds the host should spread one instruction over.
    pub instruction_delay_nanos: u64,
    pub memory_size: usize,
    /// Whether a host should keep the beep sounding while a key is held;
    /// carried for hosts, the machine itself only reports the sound timer.
    pub key_held_plays_sound: bool,
    /// Whether the machine-code-routine opcodes of the oldest interpreters
    /// would be honoured; the machine treats them as unknown and ignores
    /// them, so this is carried for hosts that want to emulate them.
    pub use_assembly_routine: bool,
    /// Quirk: the jump-with-offset opcode adds `VX` when set, `V0` when not.
    pub use_variable_offset: bool,
    /// Quirk: the register store and load opcodes advance the address
    /// register past the bytes they touched when set.
    pub increment_on_store: bool,
    /// Quirk: the shift opcodes shift a copy of `VY` into `VX` when set, and
    /// shift `VX` in place when not.
    pub shift_reads_y: bool,
    pub program_start: usize,
    pub display_width: usize,
    pub display_height: usize,
    /// Sixteen glyph sprites, five bytes each.
    pub font_data: [u8; 80],
    /// First memory address of the font region.
    pub font_data_start: usize,
    /// Last memory address of the font region, inclusive.
    pub font_data_end: usize,
}

impl Configuration {
    /// The combinations a machine can be built from: the display is at least
    /// one sprite wide and cannot overflow an index, addresses fit the 16-bit
    /// program counter, and the font region lies inside memory.
    pub open spec fn valid(&self) -> bool {
        &&& 8 <= self.display_width
        &&& 1 <= self.display_height
        &&& self.display_width * self.display_height <= 0x100_0000
        &&& self.memory_size <= 0x10000
        &&& self.font_data_start + 80 <= self.memory_size
        &&& self.font_data_end == self.font_data_start + 79
        &&& self.program_start < self.memory_size
    }

    /// Exactly the out-of-the-box parameters.
    pub open spec fn is_default(&self) -> bool {
        &&& self.instruction_delay_nanos == DEFAULT_INSTRUCTION_DELAY_NANOS
        &&& self.memory_size == DEFAULT_MEMORY_SIZE
        &&& self.key_held_plays_sound == true
        &&& self.use_assembly_routine == false
        &&& self.use_variable_offset == true
        &&& self.increment_on_store == false
        &&& self.shift_reads_y == false
        &&& self.program_start == DEFAULT_PROGRAM_START
        &&& self.display_width == DEFAULT_DISPLAY_WIDTH
        &&& self.display_height == DEFAULT_DISPLAY_HEIGHT
        &&& self.font_data@ == default_font()
        &&& self.font_data_start == DEFAULT_FONT_DATA_START
        &&& self.font_data_end == DEFAULT_FONT_DATA_END
    }

    /// The default parameters.
    pub fn new() -> (r: Self)
        ensures
            r.is_default(),
            r.valid(),
    {
        let font: [u8; 80] = [
            0xF0, 0x90, 0x90, 0x90, 0xF0,
            0x20, 0x60, 0x20, 0x20, 0x70,
            0xF0, 0x10, 0xF0, 0x80, 0xF0,
            0xF0, 0x10, 0xF0, 0x10, 0xF0,
            0x90, 0x90, 0xF0, 0x10, 0x10,
            0xF0, 0x80, 0xF0, 0x10, 0xF0,
            0xF0, 0x80, 0xF0, 0x90, 0xF0,
            0xF0, 0x10, 0x20, 0x40, 0x40,
            0xF0, 0x90, 0xF0, 0x90, 0xF0,
            0xF0, 0x90, 0xF0, 0x10, 0xF0,
            0xF0, 0x90, 0xF0, 0x90, 0x90,
            0xE0, 0x90, 0xE0, 0x90, 0xE0,
            0xF0, 0x80, 0x80, 0x80, 0xF0,
            0xE0, 0x90, 0x90, 0x90, 0xE0,
            0xF0, 0x80, 0xF0, 0x80, 0xF0,
            0xF0, 0x80, 0xF0, 0x80, 0x80,
        ];
        proof {
            assert(font@ =~= default_font());
        }
        Configuration {
            instruction_delay_nanos: DEFAULT_INSTRUCTION_DELAY_NANOS,
            memory_size: DEFAULT_MEMORY_SIZE,
            key_held_plays_sound: true,
            use_assembly_routine: false,
            use_variable_offset: true,
            increment_on_store: false,
            shift_reads_y: false,
            program_start: DEFAULT_PROGRAM_START,
            display_width: DEFAULT_DISPLAY_WIDTH,
            display_height: DEFAULT_DISPLAY_HEIGHT,
            font_data: font,
            font_data_start: DEFAULT_FONT_DATA_START,
            font_data_end: DEFAULT_FONT_DATA_END,
        }
    }
}

impl Configuration {
    pub fn instruction_delay_nanos(&self) -> (r: u64)
        ensures
            r == self.instruction_delay_nanos,
    {
        self.instruction_delay_nanos
    }

    pub fn memory_size(&self) -> (r: usize)
        ensures
            r == self.memory_size,
    {
        self.memory_size
    }

    pub fn key_held_plays_sound(&self) -> (r: bool)
        ensures
            r == self.key_held_plays_sound,
    {
        self.key_held_plays_sound
    }

    pub fn use_assembly_routine(&self) -> (r: bool)
        ensures
            r == self.use_assembly_routine,
    {
        self.use_assembly_routine
    }

    pub fn use_variable_offset(&self) -> (r: bool)
        ensures
            r == self.use_variable_offset,
    {
        self.use_variable_offset
    }

    pub fn increment_on_store(&self) -> (r: bool)
        ensures
            r == self.increment_on_store,
    {
        self.increment_on_store
    }

    pub fn shift_reads_y(&self) -> (r: bool)
        ensures
            r == self.shift_reads_y,
    {
        self.shift_reads_y
    }

    pub fn program_start(&self) -> (r: usize)
        ensures
            r == self.program_start,
    {
        self.program_start
    }

    pub fn display_width(&self) -> (r: usize)
        ensures
            r == self.display_width,
    {
        self.display_width
    }

    pub fn display_height(&self) -> (r: usize)
        ensures
            r == self.display_height,
    {
        self.display_height
    }

    pub fn font_data(&self) -> (r: [u8; 80])
        ensures
            r@ == self.font_data@,
    {
        self.font_data
    }

    pub fn font_data_start(&self) -> (r: usize)
        ensures
            r == self.font_data_start,
    {
        self.font_data_start
    }

    pub fn font_data_end(&self) -> (r: usize)
        ensures
            r == self.font_data_end,
    {
        self.font_data_end
    }
}

impl Default for Configuration {
    fn default() -> (r: Self)
        ensures
            r.is_default(),
            r.valid(),
    {
        Configuration::new()
    }
}

/// A freshly built machine: cleared state, the font copied into its region,
/// and the program counter at the program start.
pub open spec fn initial_state(m: MachineState, c: Configuration) -> bool {
    &&& m.configuration == c
    &&& m.memory.len() == c.memory_size
    &&& (forall|i: int|
        0 <= i < 80 ==> m.memory[c.font_data_start + i] == c.font_data@[i])
    &&& (forall|i: int|
        0 <= i < m.memory.len() && !(c.font_data_start <= i < c.font_data_start + 80)
            ==> m.memory[i] == 0u8)
    &&& m.program_counter == c.program_start as u16
    &&& m.address_register == 0
    &&& m.variable_register.len() == 16
    &&& (forall|i: int| 0 <= i < 16 ==> m.variable_register[i] == 0u8)
    &&& m.call_stack.len() == 16
    &&& (forall|i: int| 0 <= i < 16 ==> m.call_stack[i] == 0u16)
    &&& m.call_stack_index == 0
    &&& m.delay_timer == 0
    &&& m.sound_timer == 0
    &&& m.random_state == DEFAULT_RANDOM_SEED
    &&& m.display.len() == c.display_width * c.display_height
    &&& (forall|i: int| 0 <= i < m.display.len() ==> m.display[i] == false)
    &&& m.last_timer_tick_nanos == 0
    &&& m.last_instruction_nanos == 0
    &&& m.keypad.len() == 16
    &&& (forall|i: int| 0 <= i < 16 ==> m.keypad[i] == false)
    &&& m.unknown_opcode_count == 0
}

/// Holds a [`Configuration`] while it is being put together.
pub struct ConfigurationBuilder(pub Configuration);

impl ConfigurationBuilder {
    /// Starts from the default parameters.
    pub fn new() -> (r: Self)
        ensures
            r.0.is_default(),
            r.0.valid(),
    {
        ConfigurationBuilder(Configuration::new())
    }

    pub fn instruction_delay_nanos(self, value: u64) -> (r: Self)
        ensures
            r.0 == (Configuration { instruction_delay_nanos: value, ..self.0 }),
    {
        ConfigurationBuilder(Configuration { instruction_delay_nanos: value, ..self.0 })
    }

    pub fn memory_size(self, value: usize) -> (r: Self)
        ensures
            r.0 == (Configuration { memory_size: value, ..self.0 }),
    {
        ConfigurationBuilder(Configuration { memory_size: value, ..self.0 })
    }

    pub fn key_held_plays_sound(self, value: bool) -> (r: Self)
        ensures
            r.0 == (Configuration { key_held_plays_sound: value, ..self.0 }),
    {
        ConfigurationBuilder(Configuration { key_held_plays_sound: value, ..self.0 })
    }

    pub fn use_assembly_routine(self, value: bool) -> (r: Self)
        ensures
            r.0 == (Configuration { use_assembly_routine: value, ..self.0 }),
    {
        ConfigurationBuilder(Configuration { use_assembly_routine: value, ..self.0 })
    }

    pub fn use_variable_offset(self, value: bool) -> (r: Self)
        ensures
            r.0 == (Configuration { use_variable_offset: value, ..self.0 }),
    {
        ConfigurationBuilder(Configuration { use_variable_offset: value, ..self.0 })
    }

    pub fn increment_on_store(self, value: bool) -> (r: Self)
        ensures
            r.0 == (Configuration { increment_on_store: value, ..self.0 }),
    {
        ConfigurationBuilder(Configuration { increment_on_store: value, ..self.0 })
    }

    pub fn shift_reads_y(self, value: bool) -> (r: Self)
        ensures
            r.0 == (Configuration { shift_reads_y: value, ..self.0 }),
    {
        ConfigurationBuilder(Configuration { shift_reads_y: value, ..self.0 })
    }

    pub fn program_start(self, value: usize) -> (r: Self)
        ensures
            r.0 == (Configuration { program_start: value, ..self.0 }),
    {
        ConfigurationBuilder(Configuration { program_start: value, ..self.0 })
    }

    pub fn display_width(self, value: usize) -> (r: Self)
        ensures
            r.0 == (Configuration { display_width: value, ..self.0 }),
    {
        ConfigurationBuilder(Configuration { display_width: value, ..self.0 })
    }

    pub fn display_height(self, value: usize) -> (r: Self)
        ensures
            r.0 == (Configuration { display_height: value, ..self.0 }),
    {
        ConfigurationBuilder(Configuration { display_height: value, ..self.0 })
    }

    pub fn font_data(self, value: [u8; 80]) -> (r: Self)
        ensures
            r.0 == (Configuration { font_data: value, ..self.0 }),
    {
        ConfigurationBuilder(Configuration { font_data: value, ..self.0 })
    }

    pub fn font_data_start(self, value: usize) -> (r: Self)
        ensures
            r.0 == (Configuration { font_data_start: value, ..self.0 }),
    {
        ConfigurationBuilder(Configuration { font_data_start: value, ..self.0 })
    }

    pub fn font_data_end(self, value: usize) -> (r: Self)
        ensures
            r.0 == (Configuration { font_data_end: value, ..self.0 }),
    {
        ConfigurationBuilder(Configuration { font_data_end: value, ..self.0 })
    }

    /// Materialises a machine: memory of the configured size with the font
    /// copied into its region, a cleared display of the configured size, and
    /// every register, timer and key at zero.
    pub fn build(self) -> (r: Interpreter)
        requires
            self.0.valid(),
        ensures
            r.wf(),
            r.configuration == self.0,
            initial_state(r@, self.0),
    {
        let configuration = self.0;

        let mut memory: Vec<u8> = Vec::new();
        while memory.len() < configuration.memory_size
            invariant
                memory@.len() <= configuration.memory_size,
                forall|i: int| 0 <= i < memory@.len() ==> memory@[i] == 0u8,
            decreases configuration.memory_size - memory@.len(),
        {
            memory.push(0);
        }

        let mut i: usize = 0;
        while i < 80
            invariant
                configuration.valid(),
                i <= 80,
                memory@.len() == configuration.memory_size,
                forall|j: int|
                    configuration.font_data_start <= j < configuration.font_data_start + i
                        ==> memory@[j] == configuration.font_data@[j - configuration.font_data_start],
                forall|j: int|
                    0 <= j < memory@.len() && !(configuration.font_data_start <= j
                        < configuration.font_data_start + i) ==> memory@[j] == 0u8,
            decreases 80 - i,
        {
            memory.set(configuration.font_data_start + i, configuration.font_data[i]);
            i += 1;
        }

        let display_size: usize = configuration.display_width * configuration.display_height;
        let mut display: Vec<bool> = Vec::new();
        while display.len() < display_size
            invariant
                display@.len() <= display_size,
                forall|i: int| 0 <= i < display@.len() ==> display@[i] == false,
            decreases display_size - display@.len(),
        {
            display.push(false);
        }

        let mut variable_register: Vec<u8> = Vec::new();
        while variable_register.len() < 16
            invariant
                variable_register@.len() <= 16,
                forall|i: int| 0 <= i < variable_register@.len() ==> variable_register@[i] == 0u8,
            decreases 16 - variable_register@.len(),
        {
            variable_register.push(0);
        }

        let mut call_stack: Vec<u16> = Vec::new();
        while call_stack.len() < 16
            invariant
                call_stack@.len() <= 16,
                forall|i: int| 0 <= i < call_stack@.len() ==> call_stack@[i] == 0u16,
            decreases 16 - call_stack@.len(),
        {
            call_stack.push(0);
        }

        let mut keypad: Vec<bool> = Vec::new();
        while keypad.len() < 16
            invariant
                keypad@.len() <= 16,
                forall|i: int| 0 <= i < keypad@.len() ==> keypad@[i] == false,
            decreases 16 - keypad@.len(),
        {
            keypad.push(false);
        }

        Interpreter {
            memory,
            program_counter: configuration.program_start as u16,
            address_register: 0,
            variable_register,
            call_stack,
            call_stack_index: 0,
            delay_timer: 0,
            sound_timer: 0,
            random_state: DEFAULT_RANDOM_SEED,
            display,
            last_timer_tick_nanos: 0,
            last_instruction_nanos: 0,
            keypad,
            unknown_opcode_count: 0,
            configuration,
        }
    }
}

} // verus!
