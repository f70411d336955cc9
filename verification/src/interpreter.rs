//! The CHIP-8 machine: all mutable state plus the stepping API.

pub use crate::interpreter::builder::{Configuration, ConfigurationBuilder};

pub mod builder;
pub mod instructions;

use vstd::prelude::*;

verus! {

/// Nanoseconds between two 60 Hz timer ticks.
pub const TIMER_INTERVAL_NANOS: u64 = 16_666_667;

/// The CHIP-8 interpreter that manages the state of a program.
///
/// The display is stored row-major: the pixel at `(row, column)` lives at
/// index `row * display_width + column`, `true` meaning lit.
#[derive(Debug)]
pub struct Interpreter {
    pub configuration: Configuration,
    pub memory: Vec<u8>,
    /// Index of the current instruction's first byte in memory.
    pub program_counter: u16,
    /// The memory index register, often called `I`.
    pub address_register: u16,
    /// General purpose registers `V0` to `VF`; `VF` doubles as the
    /// carry/borrow/collision flag, so flag-producing opcodes overwrite it.
    pub variable_register: Vec<u8>,
    /// Return addresses of the subroutines entered so far.
    pub call_stack: Vec<u16>,
    /// Number of return addresses currently on the call stack.
    pub call_stack_index: usize,
    /// Decrements at 60 Hz until zero.
    pub delay_timer: u8,
    /// Decrements at 60 Hz until zero; the machine asks for a beep while it is
    /// nonzero.
    pub sound_timer: u8,
    /// State of the deterministic pseudo-random generator behind the
    /// random-number opcode.
    pub random_state: u64,
    /// The pixel grid, row-major; `false` is dark, `true` is lit.
    pub display: Vec<bool>,
    /// Host-supplied timestamp of the last 60 Hz timer tick.
    pub last_timer_tick_nanos: u64,
    /// Host-supplied timestamp of the last executed instruction, used to pace
    /// execution to the configured rate.
    pub last_instruction_nanos: u64,
    /// One flag per key `0x0` to `0xF`; `true` means pressed.  The host writes
    /// these between steps, the machine only reads them.
    pub keypad: Vec<bool>,
    /// How many unrecognised opcodes have been fetched and ignored.
    pub unknown_opcode_count: u64,
}

/// The machine state as mathematics: every buffer a sequence, nothing hidden.
/// Contracts relate values of this type.
pub ghost struct MachineState {
    pub configuration: Configuration,
    pub memory: Seq<u8>,
    pub program_counter: u16,
    pub address_register: u16,
    pub variable_register: Seq<u8>,
    pub call_stack: Seq<u16>,
    pub call_stack_index: usize,
    pub delay_timer: u8,
    pub sound_timer: u8,
    pub random_state: u64,
    pub display: Seq<bool>,
    pub last_timer_tick_nanos: u64,
    pub last_instruction_nanos: u64,
    pub keypad: Seq<bool>,
    pub unknown_opcode_count: u64,
}

impl View for Interpreter {
    type V = MachineState;

    open spec fn view(&self) -> MachineState {
        MachineState {
            configuration: self.configuration,
            memory: self.memory@,
            program_counter: self.program_counter,
            address_register: self.address_register,
            variable_register: self.variable_register@,
            call_stack: self.call_stack@,
            call_stack_index: self.call_stack_index,
            delay_timer: self.delay_timer,
            sound_timer: self.sound_timer,
            random_state: self.random_state,
            display: self.display@,
            last_timer_tick_nanos: self.last_timer_tick_nanos,
            last_instruction_nanos: self.last_instruction_nanos,
            keypad: self.keypad@,
            unknown_opcode_count: self.unknown_opcode_count,
        }
    }
}

impl Interpreter {
    /// Well-formedness: the buffers have the sizes the configuration promises
    /// and the call stack depth is in range.
    pub open spec fn wf(&self) -> bool {
        &&& self.configuration.valid()
        &&& self.memory@.len() == self.configuration.memory_size
        &&& self.variable_register@.len() == 16
        &&& self.call_stack@.len() == 16
        &&& self.keypad@.len() == 16
        &&& self.call_stack_index <= 16
        &&& self.display@.len() == self.configuration.display_width
            * self.configuration.display_height
    }

    /// Entry point for building a machine with custom parameters.
    pub fn builder() -> (r: ConfigurationBuilder)
        ensures
            r.0.is_default(),
    {
        ConfigurationBuilder::new()
    }

    /// The parameters this machine was built with.
    pub fn configuration(&self) -> (r: &Configuration)
        ensures
            *r == self.configuration,
    {
        &self.configuration
    }

    /// Read-only view of the pixel grid, row-major.
    pub fn display(&self) -> (r: &Vec<bool>)
        ensures
            r@ == self@.display,
    {
        &self.display
    }

    /// Read-only view of the sixteen key flags.
    pub fn keypad(&self) -> (r: &Vec<bool>)
        ensures
            r@ == self@.keypad,
    {
        &self.keypad
    }

    /// Mutable access to the sixteen key flags, for the host to write
    /// between steps.
    pub fn keypad_mut(&mut self) -> (r: &mut Vec<bool>)
        ensures
            *r == old(self).keypad,
            final(self)@ == (MachineState { keypad: (*final(r))@, ..old(self)@ }),
    {
        &mut self.keypad
    }

    /// The host's way of pressing or releasing a key between steps.
    pub fn set_key(&mut self, key: usize, pressed: bool)
        requires
            old(self).wf(),
            key < 16,
        ensures
            final(self).wf(),
            final(self)@ == (MachineState {
                keypad: old(self)@.keypad.update(key as int, pressed),
                ..old(self)@
            }),
    {
        self.keypad.set(key, pressed);
    }
}

/// Memory after loading a program: the bytes from `start` on become the
/// program, the rest stays.
pub open spec fn loaded_memory(memory: Seq<u8>, program: Seq<u8>, start: int) -> Seq<u8> {
    Seq::new(
        memory.len(),
        |k: int|
            if start <= k < start + program.len() {
                program[k - start]
            } else {
                memory[k]
            },
    )
}

/// Whether a whole two-byte opcode lies inside memory at the program counter.
pub open spec fn fetch_ok(m: MachineState) -> bool {
    m.program_counter + 1 < m.memory.len()
}

/// The four nibbles of the current opcode, most significant first.
pub open spec fn nibble0(m: MachineState) -> u8 {
    m.memory[m.program_counter as int] / 16
}

pub open spec fn nibble1(m: MachineState) -> u8 {
    m.memory[m.program_counter as int] % 16
}

pub open spec fn nibble2(m: MachineState) -> u8 {
    m.memory[m.program_counter + 1] / 16
}

pub open spec fn nibble3(m: MachineState) -> u8 {
    m.memory[m.program_counter + 1] % 16
}

/// The unknown-opcode counter one higher, wrapping at 64 bits.
pub open spec fn next_count(c: u64) -> u64 {
    if c == 0xFFFF_FFFF_FFFF_FFFF {
        0u64
    } else {
        (c + 1) as u64
    }
}

/// The whole machine semantics of one step: how the state after a step and
/// the returned continue flag relate to the state before it.
///
/// A step that cannot fetch two opcode bytes halts and changes nothing.  A
/// step that would pop an empty stack, push a full one, read a sprite or a
/// register block from outside memory, or test a key `VX` does not name,
/// also halts and changes nothing: a step either fully applies its opcode or
/// applies nothing.  Otherwise the program counter first advances by two and
/// the opcode's effect lands on top, so the jump family overwrites the
/// advanced counter and the skip family adds two more.  An opcode matching
/// no pattern only counts itself as unknown.
pub open spec fn step_post(pre: MachineState, post: MachineState, can_continue: bool) -> bool {
    if !fetch_ok(pre) {
        !can_continue && post == pre
    } else {
        let n0 = nibble0(pre);
        let n1 = nibble1(pre);
        let n2 = nibble2(pre);
        let n3 = nibble3(pre);
        let x = n1 as int;
        let y = n2 as int;
        let nnn = (n1 * 256 + n2 * 16 + n3) as u16;
        let kk = (n2 * 16 + n3) as u8;
        let pc2 = instructions::next_pc(pre.program_counter);
        let stepped = (MachineState { program_counter: pc2, ..pre });
        if n0 == 0x0 {
            if n1 == 0x0 && n2 == 0xE && n3 == 0x0 {
                can_continue && post == (MachineState {
                    display: Seq::new(pre.display.len(), |i: int| false),
                    ..stepped
                })
            } else if n1 == 0x0 && n2 == 0xE && n3 == 0xE {
                if pre.call_stack_index == 0 {
                    !can_continue && post == pre
                } else {
                    can_continue && post == (MachineState {
                        program_counter: pre.call_stack[pre.call_stack_index - 1],
                        call_stack_index: (pre.call_stack_index - 1) as usize,
                        ..pre
                    })
                }
            } else {
                can_continue && post == (MachineState {
                    unknown_opcode_count: next_count(pre.unknown_opcode_count),
                    ..stepped
                })
            }
        } else if n0 == 0x1 {
            can_continue && post == (MachineState { program_counter: nnn, ..pre })
        } else if n0 == 0x2 {
            if pre.call_stack_index >= 16 {
                !can_continue && post == pre
            } else {
                can_continue && post == (MachineState {
                    program_counter: nnn,
                    call_stack: pre.call_stack.update(pre.call_stack_index as int, pc2),
                    call_stack_index: (pre.call_stack_index + 1) as usize,
                    ..pre
                })
            }
        } else if n0 == 0x3 {
            can_continue && post == (MachineState {
                program_counter: if pre.variable_register[x] == kk {
                    instructions::next_pc(pc2)
                } else {
                    pc2
                },
                ..pre
            })
        } else if n0 == 0x4 {
            can_continue && post == (MachineState {
                program_counter: if pre.variable_register[x] != kk {
                    instructions::next_pc(pc2)
                } else {
                    pc2
                },
                ..pre
            })
        } else if n0 == 0x5 {
            if n3 == 0x0 {
                can_continue && post == (MachineState {
                    program_counter: if pre.variable_register[x] == pre.variable_register[y] {
                        instructions::next_pc(pc2)
                    } else {
                        pc2
                    },
                    ..pre
                })
            } else {
                can_continue && post == (MachineState {
                    unknown_opcode_count: next_count(pre.unknown_opcode_count),
                    ..stepped
                })
            }
        } else if n0 == 0x6 {
            can_continue && post == (MachineState {
                variable_register: pre.variable_register.update(x, kk),
                ..stepped
            })
        } else if n0 == 0x7 {
            can_continue && post == (MachineState {
                variable_register: pre.variable_register.update(
                    x,
                    instructions::byte_add(pre.variable_register[x], kk),
                ),
                ..stepped
            })
        } else if n0 == 0x8 {
            if n3 == 0x0 {
                can_continue && post == (MachineState {
                    variable_register: pre.variable_register.update(x, pre.variable_register[y]),
                    ..stepped
                })
            } else if n3 == 0x1 {
                can_continue && post == (MachineState {
                    variable_register: pre.variable_register.update(
                        x,
                        pre.variable_register[x] | pre.variable_register[y],
                    ),
                    ..stepped
                })
            } else if n3 == 0x2 {
                can_continue && post == (MachineState {
                    variable_register: pre.variable_register.update(
                        x,
                        pre.variable_register[x] & pre.variable_register[y],
                    ),
                    ..stepped
                })
            } else if n3 == 0x3 {
                can_continue && post == (MachineState {
                    variable_register: pre.variable_register.update(
                        x,
                        pre.variable_register[x] ^ pre.variable_register[y],
                    ),
                    ..stepped
                })
            } else if n3 == 0x4 {
                can_continue && post == (MachineState {
                    variable_register: pre.variable_register.update(
                        0xF,
                        if pre.variable_register[x] + pre.variable_register[y] > 0xFF {
                            1u8
                        } else {
                            0u8
                        },
                    ).update(
                        x,
                        instructions::byte_add(pre.variable_register[x], pre.variable_register[y]),
                    ),
                    ..stepped
                })
            } else if n3 == 0x5 {
                can_continue && post == (MachineState {
                    variable_register: pre.variable_register.update(
                        0xF,
                        if pre.variable_register[x] >= pre.variable_register[y] {
                            1u8
                        } else {
                            0u8
                        },
                    ).update(
                        x,
                        instructions::byte_sub(pre.variable_register[x], pre.variable_register[y]),
                    ),
                    ..stepped
                })
            } else if n3 == 0x6 {
                can_continue && post == (MachineState {
                    variable_register: ({
                        let source: int = if pre.configuration.shift_reads_y {
                            y
                        } else {
                            x
                        };
                        let flagged = pre.variable_register.update(
                            0xF,
                            pre.variable_register[source] & 1,
                        );
                        flagged.update(x, flagged[source] >> 1u8)
                    }),
                    ..stepped
                })
            } else if n3 == 0x7 {
                can_continue && post == (MachineState {
                    variable_register: pre.variable_register.update(
                        0xF,
                        if pre.variable_register[y] >= pre.variable_register[x] {
                            1u8
                        } else {
                            0u8
                        },
                    ).update(
                        x,
                        instructions::byte_sub(pre.variable_register[y], pre.variable_register[x]),
                    ),
                    ..stepped
                })
            } else if n3 == 0xE {
                can_continue && post == (MachineState {
                    variable_register: ({
                        let source: int = if pre.configuration.shift_reads_y {
                            y
                        } else {
                            x
                        };
                        let flagged = pre.variable_register.update(
                            0xF,
                            (pre.variable_register[source] & 0x80) >> 7u8,
                        );
                        flagged.update(x, flagged[source] << 1u8)
                    }),
                    ..stepped
                })
            } else {
                can_continue && post == (MachineState {
                    unknown_opcode_count: next_count(pre.unknown_opcode_count),
                    ..stepped
                })
            }
        } else if n0 == 0x9 {
            if n3 == 0x0 {
                can_continue && post == (MachineState {
                    program_counter: if pre.variable_register[x] != pre.variable_register[y] {
                        instructions::next_pc(pc2)
                    } else {
                        pc2
                    },
                    ..pre
                })
            } else {
                can_continue && post == (MachineState {
                    unknown_opcode_count: next_count(pre.unknown_opcode_count),
                    ..stepped
                })
            }
        } else if n0 == 0xA {
            can_continue && post == (MachineState { address_register: nnn, ..stepped })
        } else if n0 == 0xB {
            can_continue && post == (MachineState {
                program_counter: (nnn + if pre.configuration.use_variable_offset {
                    pre.variable_register[x]
                } else {
                    pre.variable_register[0]
                }) as u16,
                ..pre
            })
        } else if n0 == 0xC {
            can_continue && post == (MachineState {
                random_state: instructions::next_random(pre.random_state),
                variable_register: pre.variable_register.update(
                    x,
                    ((instructions::next_random(pre.random_state) & 0xFF) as u8) & kk,
                ),
                ..stepped
            })
        } else if n0 == 0xD {
            if pre.address_register + n3 > pre.memory.len() {
                !can_continue && post == pre
            } else {
                can_continue && ({
                    let width = pre.configuration.display_width as int;
                    let height = pre.configuration.display_height as int;
                    let anchor_x = pre.variable_register[x] as int % width;
                    let anchor_y = pre.variable_register[y] as int % height;
                    let drawn = instructions::draw_rows(
                        pre.display,
                        false,
                        pre.memory,
                        pre.address_register as int,
                        width,
                        height,
                        anchor_x,
                        anchor_y,
                        n3 as int,
                    );
                    post == (MachineState {
                        display: drawn.0,
                        variable_register: pre.variable_register.update(
                            0xF,
                            if drawn.1 {
                                1u8
                            } else {
                                0u8
                            },
                        ),
                        ..stepped
                    })
                })
            }
        } else if n0 == 0xE {
            if n2 == 0x9 && n3 == 0xE {
                if pre.variable_register[x] >= 16 {
                    !can_continue && post == pre
                } else {
                    can_continue && post == (MachineState {
                        program_counter: if pre.keypad[pre.variable_register[x] as int] {
                            instructions::next_pc(pc2)
                        } else {
                            pc2
                        },
                        ..pre
                    })
                }
            } else if n2 == 0xA && n3 == 0x1 {
                if pre.variable_register[x] >= 16 {
                    !can_continue && post == pre
                } else {
                    can_continue && post == (MachineState {
                        program_counter: if !pre.keypad[pre.variable_register[x] as int] {
                            instructions::next_pc(pc2)
                        } else {
                            pc2
                        },
                        ..pre
                    })
                }
            } else {
                can_continue && post == (MachineState {
                    unknown_opcode_count: next_count(pre.unknown_opcode_count),
                    ..stepped
                })
            }
        } else {
            if n2 == 0x0 && n3 == 0x7 {
                can_continue && post == (MachineState {
                    variable_register: pre.variable_register.update(x, pre.delay_timer),
                    ..stepped
                })
            } else if n2 == 0x0 && n3 == 0xA {
                if exists|k: int| 0 <= k < 16 && pre.keypad[k] {
                    can_continue && exists|k: int|
                        0 <= k < 16 && pre.keypad[k] && (forall|j: int|
                            0 <= j < k ==> !pre.keypad[j]) && post == (MachineState {
                            variable_register: pre.variable_register.update(x, k as u8),
                            ..stepped
                        })
                } else {
                    can_continue && post == pre
                }
            } else if n2 == 0x1 && n3 == 0x5 {
                can_continue && post == (MachineState {
                    delay_timer: pre.variable_register[x],
                    ..stepped
                })
            } else if n2 == 0x1 && n3 == 0x8 {
                can_continue && post == (MachineState {
                    sound_timer: pre.variable_register[x],
                    ..stepped
                })
            } else if n2 == 0x1 && n3 == 0xE {
                can_continue && post == (MachineState {
                    address_register: instructions::address_add(
                        pre.address_register,
                        pre.variable_register[x] as u16,
                    ),
                    ..stepped
                })
            } else if n2 == 0x2 && n3 == 0x9 {
                can_continue && post == (MachineState {
                    address_register: (pre.configuration.font_data_start + (pre.variable_register[x]
                        & 0xF) * 5) as u16,
                    ..stepped
                })
            } else if n2 == 0x3 && n3 == 0x3 {
                if pre.address_register + 3 > pre.memory.len() {
                    !can_continue && post == pre
                } else {
                    can_continue && post == (MachineState {
                        memory: ({
                            let v = pre.variable_register[x];
                            pre.memory.update(pre.address_register + 2, v % 10).update(
                                pre.address_register + 1,
                                (v / 10) % 10,
                            ).update(pre.address_register as int, v / 100)
                        }),
                        ..stepped
                    })
                }
            } else if n2 == 0x5 && n3 == 0x5 {
                if pre.address_register + x + 1 > pre.memory.len() {
                    !can_continue && post == pre
                } else {
                    can_continue && post == (MachineState {
                        memory: instructions::store_regs_memory(
                            pre.memory,
                            pre.variable_register,
                            pre.address_register as int,
                            x,
                        ),
                        address_register: if pre.configuration.increment_on_store {
                            instructions::address_add(pre.address_register, (x + 1) as u16)
                        } else {
                            pre.address_register
                        },
                        ..stepped
                    })
                }
            } else if n2 == 0x6 && n3 == 0x5 {
                if pre.address_register + x + 1 > pre.memory.len() {
                    !can_continue && post == pre
                } else {
                    can_continue && post == (MachineState {
                        variable_register: instructions::load_regs_registers(
                            pre.variable_register,
                            pre.memory,
                            pre.address_register as int,
                            x,
                        ),
                        address_register: if pre.configuration.increment_on_store {
                            instructions::address_add(pre.address_register, (x + 1) as u16)
                        } else {
                            pre.address_register
                        },
                        ..stepped
                    })
                }
            } else {
                can_continue && post == (MachineState {
                    unknown_opcode_count: next_count(pre.unknown_opcode_count),
                    ..stepped
                })
            }
        }
    }
}

impl Interpreter {
    /// The four nibbles of the opcode under the program counter, or `None`
    /// when the program counter has run off memory.
    pub fn get_current_instruction(&self) -> (r: Option<[u8; 4]>)
        requires
            self.wf(),
        ensures
            match r {
                None => !fetch_ok(self@),
                Some(n) => fetch_ok(self@) && n@ == seq![
                    nibble0(self@),
                    nibble1(self@),
                    nibble2(self@),
                    nibble3(self@),
                ],
            },
    {
        let program_counter = self.program_counter as usize;

        if program_counter >= self.memory.len() || program_counter + 1 >= self.memory.len() {
            return None;
        }
        let most_significant_byte = self.memory[program_counter];
        let least_significant_byte = self.memory[program_counter + 1];

        let nibbles = [
            crate::nibbles::get_first_nibble(most_significant_byte),
            crate::nibbles::get_second_nibble(most_significant_byte),
            crate::nibbles::get_first_nibble(least_significant_byte),
            crate::nibbles::get_second_nibble(least_significant_byte),
        ];
        proof {
            assert(nibbles@ =~= seq![
                nibble0(self@),
                nibble1(self@),
                nibble2(self@),
                nibble3(self@),
            ]);
        }
        Some(nibbles)
    }

    /// One fetch-decode-execute cycle.  Returns whether the machine can go
    /// on; `false` reports the halt conditions [`step_post`] describes, with
    /// the state left untouched.
    pub fn execute_current_instruction(&mut self) -> (can_continue: bool)
        requires
            old(self).wf(),
        ensures
            final(self).wf(),
            step_post(old(self)@, final(self)@, can_continue),
    {
        let nibbles = match self.get_current_instruction() {
            Some(nibbles) => nibbles,
            None => {
                return false;
            },
        };

        let address = crate::nibbles::combine_three_nibbles(nibbles[1], nibbles[2], nibbles[3]);
        let value = crate::nibbles::combine_two_nibbles(nibbles[2], nibbles[3]);
        let x_register_index = nibbles[1] as usize;
        let y_register_index = nibbles[2] as usize;
        let sprite_height = nibbles[3];

        let shape = (nibbles[0], nibbles[1], nibbles[2], nibbles[3]);

        // Every precondition an opcode puts on the state is tested here,
        // before anything changes: a failing one halts the step whole.
        let preconditions_hold: bool = match shape {
            (0x0, 0x0, 0xE, 0xE) => self.call_stack_index > 0,
            (0x2, _, _, _) => self.call_stack_index < 16,
            (0xD, _, _, _) => (self.address_register as usize) + (sprite_height as usize)
                <= self.memory.len(),
            (0xE, _, 0x9, 0xE) => self.variable_register[x_register_index] < 16,
            (0xE, _, 0xA, 0x1) => self.variable_register[x_register_index] < 16,
            (0xF, _, 0x3, 0x3) => (self.address_register as usize) + 3 <= self.memory.len(),
            (0xF, _, 0x5, 0x5) => (self.address_register as usize) + x_register_index + 1
                <= self.memory.len(),
            (0xF, _, 0x6, 0x5) => (self.address_register as usize) + x_register_index + 1
                <= self.memory.len(),
            _ => true,
        };
        if !preconditions_hold {
            return false;
        }

        self.program_counter = self.program_counter.wrapping_add(2);

        match shape {
            (0x0, 0x0, 0xE, 0x0) => self.clear_display(),
            (0x0, 0x0, 0xE, 0xE) => self.return_subroutine(),
            (0x1, _, _, _) => self.jump(address),
            (0x2, _, _, _) => self.call_subroutine(address),
            (0x3, _, _, _) => self.skip_if_equal_value(x_register_index, value),
            (0x4, _, _, _) => self.skip_if_not_equal_value(x_register_index, value),
            (0x5, _, _, 0x0) => self.skip_if_equal(x_register_index, y_register_index),
            (0x6, _, _, _) => self.assign_value(x_register_index, value),
            (0x7, _, _, _) => self.add_assign_value(x_register_index, value),
            (0x8, _, _, 0x0) => self.assign(x_register_index, y_register_index),
            (0x8, _, _, 0x1) => self.bitwise_or_assign(x_register_index, y_register_index),
            (0x8, _, _, 0x2) => self.bitwise_and_assign(x_register_index, y_register_index),
            (0x8, _, _, 0x3) => self.bitwise_xor_assign(x_register_index, y_register_index),
            (0x8, _, _, 0x4) => self.add_assign(x_register_index, y_register_index),
            (0x8, _, _, 0x5) => self.sub_assign(x_register_index, y_register_index),
            (0x8, _, _, 0x6) => self.right_shift_assign(x_register_index, y_register_index),
            (0x8, _, _, 0x7) => self.sub_assign_swapped(x_register_index, y_register_index),
            (0x8, _, _, 0xE) => self.left_shift_assign(x_register_index, y_register_index),
            (0x9, _, _, 0x0) => self.skip_if_not_equal(x_register_index, y_register_index),
            (0xA, _, _, _) => self.address_register_assign(address),
            (0xB, _, _, _) => self.jump_offset(x_register_index, address),
            (0xC, _, _, _) => self.random_number_assign(x_register_index, value),
            (0xD, _, _, _) => self.draw_sprite(x_register_index, y_register_index, sprite_height),
            (0xE, _, 0x9, 0xE) => self.skip_on_key_pressed(x_register_index),
            (0xE, _, 0xA, 0x1) => self.skip_on_key_not_pressed(x_register_index),
            (0xF, _, 0x0, 0x7) => self.store_delay_timer(x_register_index),
            (0xF, _, 0x0, 0xA) => self.wait_for_key_press(x_register_index),
            (0xF, _, 0x1, 0x5) => self.delay_timer_assign(x_register_index),
            (0xF, _, 0x1, 0x8) => self.sound_timer_assign(x_register_index),
            (0xF, _, 0x1, 0xE) => self.address_register_add_assign(x_register_index),
            (0xF, _, 0x2, 0x9) => self.address_register_assign_character_address(x_register_index),
            (0xF, _, 0x3, 0x3) => self.store_binary_coded_decimal_address(x_register_index),
            (0xF, _, 0x5, 0x5) => self.store_variable_registers(x_register_index),
            (0xF, _, 0x6, 0x5) => self.load_variable_registers(x_register_index),
            _ => {
                self.unknown_opcode_count = self.unknown_opcode_count.wrapping_add(1);
            },
        }

        true
    }
}

impl Interpreter {
    /// Copies a program into memory at the configured program start.
    ///
    /// Succeeds exactly when the program fits into the memory past that
    /// start; an oversized program is reported before any write, leaving
    /// memory untouched.
    pub fn load_program_from_bytes(&mut self, program_data: &[u8]) -> (r: Result<
        (),
        crate::error::Chip8Error,
    >)
        requires
            old(self).wf(),
        ensures
            final(self).wf(),
            match r {
                Ok(_) => program_data@.len() + old(self).configuration.program_start <= old(
                    self,
                )@.memory.len() && final(self)@ == (MachineState {
                    memory: loaded_memory(
                        old(self)@.memory,
                        program_data@,
                        old(self).configuration.program_start as int,
                    ),
                    ..old(self)@
                }),
                Err(e) => program_data@.len() + old(self).configuration.program_start > old(
                    self,
                )@.memory.len() && final(self)@ == old(self)@ && e
                    == crate::error::Chip8Error::ProgramTooLarge,
            },
    {
        let program_size = program_data.len();
        let program_start = self.configuration.program_start;

        if program_size > self.memory.len() - program_start {
            return Err(crate::error::Chip8Error::ProgramTooLarge);
        }

        let mut offset: usize = 0;
        while offset < program_size
            invariant
                old(self).wf(),
                offset <= program_size,
                program_size == program_data@.len(),
                program_start == old(self).configuration.program_start,
                program_start + program_size <= old(self)@.memory.len(),
                *self == (Interpreter { memory: self.memory, ..*old(self) }),
                self.memory@.len() == old(self)@.memory.len(),
                forall|k: int|
                    program_start <= k < program_start + offset ==> self.memory@[k]
                        == program_data@[k - program_start],
                forall|k: int|
                    0 <= k < self.memory@.len() && !(program_start <= k < program_start + offset)
                        ==> self.memory@[k] == old(self)@.memory[k],
            decreases program_size - offset,
        {
            let byte = program_data[offset];
            self.memory.set(program_start + offset, byte);
            offset += 1;
        }

        proof {
            assert(self.memory@ =~= loaded_memory(
                old(self)@.memory,
                program_data@,
                old(self).configuration.program_start as int,
            ));
        }
        Ok(())
    }

    /// Gives the 60 Hz timers their chance to tick, `now_nanos` being the
    /// host's monotonic clock.  When a full tick interval has passed since
    /// the last tick, both timers decrement toward zero and the tick time is
    /// taken; the machine asks for a beep on every tick on which the sound
    /// timer was still running.  Timer pace is thereby independent of how
    /// fast instructions execute.
    pub fn update_timers(&mut self, now_nanos: u64) -> (beeped: bool)
        requires
            old(self).wf(),
        ensures
            final(self).wf(),
            now_nanos < old(self).last_timer_tick_nanos + TIMER_INTERVAL_NANOS ==> final(self)@
                == old(self)@ && !beeped,
            now_nanos >= old(self).last_timer_tick_nanos + TIMER_INTERVAL_NANOS ==> final(self)@
                == (MachineState {
                last_timer_tick_nanos: now_nanos,
                delay_timer: if old(self).delay_timer > 0 {
                    (old(self).delay_timer - 1) as u8
                } else {
                    0u8
                },
                sound_timer: if old(self).sound_timer > 0 {
                    (old(self).sound_timer - 1) as u8
                } else {
                    0u8
                },
                ..old(self)@
            }) && beeped == (old(self).sound_timer > 0),
    {
        if now_nanos >= self.last_timer_tick_nanos && now_nanos - self.last_timer_tick_nanos
            >= TIMER_INTERVAL_NANOS {
            self.last_timer_tick_nanos = now_nanos;

            if self.delay_timer > 0 {
                self.delay_timer = self.delay_timer - 1;
            }

            if self.sound_timer > 0 {
                self.sound_timer = self.sound_timer - 1;
                return true;
            }
        }
        false
    }

    /// Tells the host how long to rest before the next instruction so that
    /// execution keeps the configured pace, and remembers `now_nanos` as the
    /// time of the instruction just executed.
    pub fn instruction_pacing_wait_nanos(&mut self, now_nanos: u64) -> (wait_nanos: u64)
        requires
            old(self).wf(),
        ensures
            final(self).wf(),
            final(self)@ == (MachineState { last_instruction_nanos: now_nanos, ..old(self)@ }),
            wait_nanos == ({
                let delay = old(self).configuration.instruction_delay_nanos;
                let elapsed = if now_nanos >= old(self).last_instruction_nanos {
                    now_nanos - old(self).last_instruction_nanos
                } else {
                    0
                };
                if elapsed < delay {
                    (delay - elapsed) as u64
                } else {
                    0u64
                }
            }),
    {
        let elapsed: u64 = if now_nanos >= self.last_instruction_nanos {
            now_nanos - self.last_instruction_nanos
        } else {
            0
        };
        self.last_instruction_nanos = now_nanos;

        let delay = self.configuration.instruction_delay_nanos;
        if elapsed < delay {
            delay - elapsed
        } else {
            0
        }
    }

    /// The current program counter.
    pub fn program_counter(&self) -> (r: u16)
        ensures
            r == self.program_counter,
    {
        self.program_counter
    }

    /// The current address register `I`.
    pub fn address_register(&self) -> (r: u16)
        ensures
            r == self.address_register,
    {
        self.address_register
    }

    /// Read-only view of the registers `V0` to `VF`.
    pub fn variable_register(&self) -> (r: &Vec<u8>)
        ensures
            r@ == self@.variable_register,
    {
        &self.variable_register
    }

    /// Read-only view of memory.
    pub fn memory(&self) -> (r: &Vec<u8>)
        ensures
            r@ == self@.memory,
    {
        &self.memory
    }

    /// How many return addresses the call stack holds.
    pub fn call_stack_index(&self) -> (r: usize)
        ensures
            r == self.call_stack_index,
    {
        self.call_stack_index
    }

    /// The current delay timer value.
    pub fn delay_timer(&self) -> (r: u8)
        ensures
            r == self.delay_timer,
    {
        self.delay_timer
    }

    /// The current sound timer value; nonzero asks the host for sound.
    pub fn sound_timer(&self) -> (r: u8)
        ensures
            r == self.sound_timer,
    {
        self.sound_timer
    }

    /// How many unrecognised opcodes have been ignored so far.
    pub fn unknown_opcode_count(&self) -> (r: u64)
        ensures
            r == self.unknown_opcode_count,
    {
        self.unknown_opcode_count
    }
}

impl Default for Interpreter {
    /// A machine with the default configuration and a freshly cleared state.
    fn default() -> (r: Self)
        ensures
            r.wf(),
            r.configuration.is_default(),
            builder::initial_state(r@, r@.configuration),
    {
        Interpreter::builder().build()
    }
}

} // verus!
