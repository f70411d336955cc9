//! The 35 instruction behaviours, each with an exact contract.
//!
//! Every handler relates the machine state after the call to the state before
//! it through [`MachineState`], the mathematical view of the machine.  The
//! program counter is 16 bits wide and all arithmetic on it wraps modulo
//! `0x10000`; byte arithmetic wraps modulo `0x100` exactly where the opcode
//! table calls for wrapping.

use vstd::prelude::*;
use crate::interpreter::{Interpreter, MachineState};

verus! {

/// The program counter two bytes further on, wrapping at 16 bits.
pub open spec fn next_pc(pc: u16) -> u16 {
    if pc + 2 > 0xFFFF {
        (pc + 2 - 0x10000) as u16
    } else {
        (pc + 2) as u16
    }
}

/// The program counter two bytes back, wrapping at 16 bits.
pub open spec fn prev_pc(pc: u16) -> u16 {
    if pc - 2 < 0 {
        (pc - 2 + 0x10000) as u16
    } else {
        (pc - 2) as u16
    }
}

/// Byte addition, wrapping modulo 256.
pub open spec fn byte_add(a: u8, b: u8) -> u8 {
    if a + b > 0xFF {
        (a + b - 0x100) as u8
    } else {
        (a + b) as u8
    }
}

/// Byte subtraction, wrapping modulo 256.
pub open spec fn byte_sub(a: u8, b: u8) -> u8 {
    if a - b < 0 {
        (a - b + 0x100) as u8
    } else {
        (a - b) as u8
    }
}

/// The address register moved forward, wrapping at 16 bits.
pub open spec fn address_add(i: u16, v: u16) -> u16 {
    if i + v > 0xFFFF {
        (i + v - 0x10000) as u16
    } else {
        (i + v) as u16
    }
}

/// One advance of the xorshift pseudo-random generator: shift left 13, shift
/// right 17, shift left 5 over the 64-bit state word.
pub open spec fn next_random(s: u64) -> u64 {
    let a = s ^ (s << 13u64);
    let b = a ^ (a >> 17u64);
    b ^ (b << 5u64)
}

/// Memory after the register-store opcode: the bytes at
/// `address ..= address + x` become `V0 ..= VX`, the rest stays.
pub open spec fn store_regs_memory(memory: Seq<u8>, registers: Seq<u8>, address: int, x: int) -> Seq<
    u8,
> {
    Seq::new(
        memory.len(),
        |k: int|
            if address <= k < address + x + 1 {
                registers[k - address]
            } else {
                memory[k]
            },
    )
}

/// Registers after the register-load opcode: `V0 ..= VX` take the bytes at
/// `address ..= address + x`, the rest stays.
pub open spec fn load_regs_registers(
    registers: Seq<u8>,
    memory: Seq<u8>,
    address: int,
    x: int,
) -> Seq<u8> {
    Seq::new(
        16,
        |j: int|
            if 0 <= j <= x {
                memory[address + j]
            } else {
                registers[j]
            },
    )
}

/// Whether a sprite byte lights the given column, most significant bit first.
pub open spec fn sprite_pixel_on(sprite_byte: u8, column: int) -> bool {
    sprite_byte & (0x80u8 >> (column as u8)) != 0
}

/// The flat display index a sprite pixel lands on: both coordinates wrap
/// around their dimension, per pixel.
pub open spec fn pixel_index(width: int, height: int, x: int, y: int, row: int, column: int) -> int {
    ((y + row) % height) * width + (x + column) % width
}

/// The display and collision flag after drawing the first `columns` columns
/// of one sprite row, in column order: each lit sprite bit toggles its cell,
/// and the flag latches once a toggle darkens a lit cell.
pub open spec fn draw_columns(
    display: Seq<bool>,
    collided: bool,
    sprite_byte: u8,
    width: int,
    height: int,
    x: int,
    y: int,
    row: int,
    columns: int,
) -> (Seq<bool>, bool)
    decreases columns,
{
    if columns <= 0 {
        (display, collided)
    } else {
        let prior = draw_columns(display, collided, sprite_byte, width, height, x, y, row, columns
            - 1);
        let column = columns - 1;
        if sprite_pixel_on(sprite_byte, column) {
            let index = pixel_index(width, height, x, y, row, column);
            (prior.0.update(index, !prior.0[index]), prior.1 || prior.0[index])
        } else {
            prior
        }
    }
}

/// The display and collision flag after drawing the first `rows` sprite rows,
/// in row order; row `r` is the eight bits of the byte at `address + r`.
pub open spec fn draw_rows(
    display: Seq<bool>,
    collided: bool,
    memory: Seq<u8>,
    address: int,
    width: int,
    height: int,
    x: int,
    y: int,
    rows: int,
) -> (Seq<bool>, bool)
    decreases rows,
{
    if rows <= 0 {
        (display, collided)
    } else {
        let prior = draw_rows(display, collided, memory, address, width, height, x, y, rows - 1);
        draw_columns(prior.0, prior.1, memory[address + rows - 1], width, height, x, y, rows - 1, 8)
    }
}

impl Interpreter {
    /// Opcode: 00E0
    ///
    /// Clears the display: every cell goes unlit, whatever it held before.
    pub fn clear_display(&mut self)
        requires
            old(self).wf(),
        ensures
            final(self).wf(),
            final(self)@ == (MachineState {
                display: Seq::new(old(self)@.display.len(), |i: int| false),
                ..old(self)@
            }),
    {
        let mut i: usize = 0;
        let size = self.display.len();
        while i < size
            invariant
                size == self.display@.len(),
                i <= size,
                *self == (Interpreter { display: self.display, ..*old(self) }),
                forall|j: int| 0 <= j < i ==> self.display@[j] == false,
                forall|j: int| i <= j < size ==> self.display@[j] == old(self).display@[j],
            decreases size - i,
        {
            self.display.set(i, false);
            i += 1;
        }
        proof {
            assert(self.display@ =~= Seq::new(old(self)@.display.len(), |i: int| false));
        }
    }

    /// Opcode: 00EE
    ///
    /// Returns from a subroutine: pops the most recent return address into
    /// the program counter.  The caller must know the stack is not empty;
    /// the stepper halts instead of executing this on an empty stack.
    pub fn return_subroutine(&mut self)
        requires
            old(self).wf(),
            old(self).call_stack_index > 0,
        ensures
            final(self).wf(),
            final(self)@ == (MachineState {
                program_counter: old(self)@.call_stack[old(self)@.call_stack_index - 1],
                call_stack_index: (old(self).call_stack_index - 1) as usize,
                ..old(self)@
            }),
    {
        self.call_stack_index = self.call_stack_index - 1;
        self.program_counter = self.call_stack[self.call_stack_index];
    }

    /// Opcode: 1nnn
    ///
    /// Jumps: the program counter becomes the given address.
    pub fn jump(&mut self, address: u16)
        requires
            old(self).wf(),
        ensures
            final(self).wf(),
            final(self)@ == (MachineState { program_counter: address, ..old(self)@ }),
    {
        self.program_counter = address;
    }

    /// Opcode: 2nnn
    ///
    /// Calls the subroutine at the given address: pushes the current program
    /// counter and jumps.  The caller must know the stack is not full; the
    /// stepper halts instead of executing this on a full stack.
    pub fn call_subroutine(&mut self, address: u16)
        requires
            old(self).wf(),
            old(self).call_stack_index < 16,
        ensures
            final(self).wf(),
            final(self)@ == (MachineState {
                program_counter: address,
                call_stack: old(self)@.call_stack.update(
                    old(self).call_stack_index as int,
                    old(self).program_counter,
                ),
                call_stack_index: (old(self).call_stack_index + 1) as usize,
                ..old(self)@
            }),
    {
        self.call_stack.set(self.call_stack_index, self.program_counter);
        self.call_stack_index = self.call_stack_index + 1;
        self.program_counter = address;
    }

    /// Opcode: 3xkk
    ///
    /// Skips the next instruction if `VX` equals the opcode's low byte.
    pub fn skip_if_equal_value(&mut self, x_register_index: usize, value: u8)
        requires
            old(self).wf(),
            x_register_index < 16,
        ensures
            final(self).wf(),
            final(self)@ == (MachineState {
                program_counter: if old(self)@.variable_register[x_register_index as int]
                    == value {
                    next_pc(old(self).program_counter)
                } else {
                    old(self).program_counter
                },
                ..old(self)@
            }),
    {
        if self.variable_register[x_register_index] == value {
            self.program_counter = self.program_counter.wrapping_add(2);
        }
    }

    /// Opcode: 4xkk
    ///
    /// Skips the next instruction if `VX` differs from the opcode's low byte.
    pub fn skip_if_not_equal_value(&mut self, x_register_index: usize, value: u8)
        requires
            old(self).wf(),
            x_register_index < 16,
        ensures
            final(self).wf(),
            final(self)@ == (MachineState {
                program_counter: if old(self)@.variable_register[x_register_index as int]
                    != value {
                    next_pc(old(self).program_counter)
                } else {
                    old(self).program_counter
                },
                ..old(self)@
            }),
    {
        if self.variable_register[x_register_index] != value {
            self.program_counter = self.program_counter.wrapping_add(2);
        }
    }

    /// Opcode: 5xy0
    ///
    /// Skips the next instruction if `VX` equals `VY`.
    pub fn skip_if_equal(&mut self, x_register_index: usize, y_register_index: usize)
        requires
            old(self).wf(),
            x_register_index < 16,
            y_register_index < 16,
        ensures
            final(self).wf(),
            final(self)@ == (MachineState {
                program_counter: if old(self)@.variable_register[x_register_index as int]
                    == old(self)@.variable_register[y_register_index as int] {
                    next_pc(old(self).program_counter)
                } else {
                    old(self).program_counter
                },
                ..old(self)@
            }),
    {
        if self.variable_register[x_register_index] == self.variable_register[y_register_index] {
            self.program_counter = self.program_counter.wrapping_add(2);
        }
    }

    /// Opcode: 6xkk
    ///
    /// Sets `VX` to the opcode's low byte.
    pub fn assign_value(&mut self, x_register_index: usize, value: u8)
        requires
            old(self).wf(),
            x_register_index < 16,
        ensures
            final(self).wf(),
            final(self)@ == (MachineState {
                variable_register: old(self)@.variable_register.update(
                    x_register_index as int,
                    value,
                ),
                ..old(self)@
            }),
    {
        self.variable_register.set(x_register_index, value);
    }

    /// Opcode: 7xkk
    ///
    /// Adds the opcode's low byte to `VX`, wrapping; the carry flag is not
    /// touched.
    pub fn add_assign_value(&mut self, x_register_index: usize, value: u8)
        requires
            old(self).wf(),
            x_register_index < 16,
        ensures
            final(self).wf(),
            final(self)@ == (MachineState {
                variable_register: old(self)@.variable_register.update(
                    x_register_index as int,
                    byte_add(old(self)@.variable_register[x_register_index as int], value),
                ),
                ..old(self)@
            }),
    {
        let sum = self.variable_register[x_register_index].wrapping_add(value);
        self.variable_register.set(x_register_index, sum);
    }

    /// Opcode: 8xy0
    ///
    /// Sets `VX` to the value of `VY`.
    pub fn assign(&mut self, x_register_index: usize, y_register_index: usize)
        requires
            old(self).wf(),
            x_register_index < 16,
            y_register_index < 16,
        ensures
            final(self).wf(),
            final(self)@ == (MachineState {
                variable_register: old(self)@.variable_register.update(
                    x_register_index as int,
                    old(self)@.variable_register[y_register_index as int],
                ),
                ..old(self)@
            }),
    {
        let value = self.variable_register[y_register_index];
        self.variable_register.set(x_register_index, value);
    }

    /// Opcode: 8xy1
    ///
    /// Sets `VX` to `VX | VY`.
    pub fn bitwise_or_assign(&mut self, x_register_index: usize, y_register_index: usize)
        requires
            old(self).wf(),
            x_register_index < 16,
            y_register_index < 16,
        ensures
            final(self).wf(),
            final(self)@ == (MachineState {
                variable_register: old(self)@.variable_register.update(
                    x_register_index as int,
                    old(self)@.variable_register[x_register_index as int]
                        | old(self)@.variable_register[y_register_index as int],
                ),
                ..old(self)@
            }),
    {
        let value = self.variable_register[x_register_index]
            | self.variable_register[y_register_index];
        self.variable_register.set(x_register_index, value);
    }

    /// Opcode: 8xy2
    ///
    /// Sets `VX` to `VX & VY`.
    pub fn bitwise_and_assign(&mut self, x_register_index: usize, y_register_index: usize)
        requires
            old(self).wf(),
            x_register_index < 16,
            y_register_index < 16,
        ensures
            final(self).wf(),
            final(self)@ == (MachineState {
                variable_register: old(self)@.variable_register.update(
                    x_register_index as int,
                    old(self)@.variable_register[x_register_index as int]
                        & old(self)@.variable_register[y_register_index as int],
                ),
                ..old(self)@
            }),
    {
        let value = self.variable_register[x_register_index]
            & self.variable_register[y_register_index];
        self.variable_register.set(x_register_index, value);
    }

    /// Opcode: 8xy3
    ///
    /// Sets `VX` to `VX ^ VY`.
    pub fn bitwise_xor_assign(&mut self, x_register_index: usize, y_register_index: usize)
        requires
            old(self).wf(),
            x_register_index < 16,
            y_register_index < 16,
        ensures
            final(self).wf(),
            final(self)@ == (MachineState {
                variable_register: old(self)@.variable_register.update(
                    x_register_index as int,
                    old(self)@.variable_register[x_register_index as int]
                        ^ old(self)@.variable_register[y_register_index as int],
                ),
                ..old(self)@
            }),
    {
        let value = self.variable_register[x_register_index]
            ^ self.variable_register[y_register_index];
        self.variable_register.set(x_register_index, value);
    }

    /// Opcode: 8xy4
    ///
    /// Adds `VY` to `VX` with 8-bit wrapping; `VF` becomes 1 on carry, else 0.
    /// The flag is written first, so with `X = 0xF` the sum wins.
    pub fn add_assign(&mut self, x_register_index: usize, y_register_index: usize)
        requires
            old(self).wf(),
            x_register_index < 16,
            y_register_index < 16,
        ensures
            final(self).wf(),
            final(self)@ == (MachineState {
                variable_register: old(self)@.variable_register.update(
                    0xF,
                    if old(self)@.variable_register[x_register_index as int]
                        + old(self)@.variable_register[y_register_index as int] > 0xFF {
                        1u8
                    } else {
                        0u8
                    },
                ).update(
                    x_register_index as int,
                    byte_add(
                        old(self)@.variable_register[x_register_index as int],
                        old(self)@.variable_register[y_register_index as int],
                    ),
                ),
                ..old(self)@
            }),
    {
        let vx = self.variable_register[x_register_index];
        let vy = self.variable_register[y_register_index];
        let carry: u8 = if (vx as u16) + (vy as u16) > 0xFF {
            1
        } else {
            0
        };
        self.variable_register.set(0xF, carry);
        self.variable_register.set(x_register_index, vx.wrapping_add(vy));
    }

    /// Opcode: 8xy5
    ///
    /// Subtracts `VY` from `VX` with 8-bit wrapping; `VF` becomes 1 when no
    /// borrow happens, else 0.  The flag is written first, so with `X = 0xF`
    /// the difference wins.
    pub fn sub_assign(&mut self, x_register_index: usize, y_register_index: usize)
        requires
            old(self).wf(),
            x_register_index < 16,
            y_register_index < 16,
        ensures
            final(self).wf(),
            final(self)@ == (MachineState {
                variable_register: old(self)@.variable_register.update(
                    0xF,
                    if old(self)@.variable_register[x_register_index as int]
                        >= old(self)@.variable_register[y_register_index as int] {
                        1u8
                    } else {
                        0u8
                    },
                ).update(
                    x_register_index as int,
                    byte_sub(
                        old(self)@.variable_register[x_register_index as int],
                        old(self)@.variable_register[y_register_index as int],
                    ),
                ),
                ..old(self)@
            }),
    {
        let vx = self.variable_register[x_register_index];
        let vy = self.variable_register[y_register_index];
        let no_borrow: u8 = if vx >= vy {
            1
        } else {
            0
        };
        self.variable_register.set(0xF, no_borrow);
        self.variable_register.set(x_register_index, vx.wrapping_sub(vy));
    }

    /// Opcode: 8xy7
    ///
    /// Sets `VX` to `VY - VX` with 8-bit wrapping; `VF` becomes 1 when no
    /// borrow happens, else 0.  The flag is written first, so with `X = 0xF`
    /// the difference wins.
    pub fn sub_assign_swapped(&mut self, x_register_index: usize, y_register_index: usize)
        requires
            old(self).wf(),
            x_register_index < 16,
            y_register_index < 16,
        ensures
            final(self).wf(),
            final(self)@ == (MachineState {
                variable_register: old(self)@.variable_register.update(
                    0xF,
                    if old(self)@.variable_register[y_register_index as int]
                        >= old(self)@.variable_register[x_register_index as int] {
                        1u8
                    } else {
                        0u8
                    },
                ).update(
                    x_register_index as int,
                    byte_sub(
                        old(self)@.variable_register[y_register_index as int],
                        old(self)@.variable_register[x_register_index as int],
                    ),
                ),
                ..old(self)@
            }),
    {
        let vx = self.variable_register[x_register_index];
        let vy = self.variable_register[y_register_index];
        let no_borrow: u8 = if vy >= vx {
            1
        } else {
            0
        };
        self.variable_register.set(0xF, no_borrow);
        self.variable_register.set(x_register_index, vy.wrapping_sub(vx));
    }

    /// Opcode: 8xy6
    ///
    /// Shifts right by one.  The shifted register is `VY` when the shift
    /// quirk is on and `VX` when it is not; `VF` first takes the bit shifted
    /// out, then `VX` takes the shifted value, reading the registers as they
    /// stand after the flag write.
    pub fn right_shift_assign(&mut self, x_register_index: usize, y_register_index: usize)
        requires
            old(self).wf(),
            x_register_index < 16,
            y_register_index < 16,
        ensures
            final(self).wf(),
            final(self)@ == (MachineState {
                variable_register: ({
                    let source_index: int = if old(self).configuration.shift_reads_y {
                        y_register_index as int
                    } else {
                        x_register_index as int
                    };
                    let flagged = old(self)@.variable_register.update(
                        0xF,
                        old(self)@.variable_register[source_index] & 1,
                    );
                    flagged.update(x_register_index as int, flagged[source_index] >> 1u8)
                }),
                ..old(self)@
            }),
    {
        let source_index: usize = if self.configuration.shift_reads_y {
            y_register_index
        } else {
            x_register_index
        };
        let flag = self.variable_register[source_index] & 1;
        self.variable_register.set(0xF, flag);
        let shifted = self.variable_register[source_index] >> 1u8;
        self.variable_register.set(x_register_index, shifted);
    }

    /// Opcode: 8xyE
    ///
    /// Shifts left by one.  The shifted register is `VY` when the shift quirk
    /// is on and `VX` when it is not; `VF` first takes the bit shifted out,
    /// then `VX` takes the shifted value, reading the registers as they stand
    /// after the flag write.
    pub fn left_shift_assign(&mut self, x_register_index: usize, y_register_index: usize)
        requires
            old(self).wf(),
            x_register_index < 16,
            y_register_index < 16,
        ensures
            final(self).wf(),
            final(self)@ == (MachineState {
                variable_register: ({
                    let source_index: int = if old(self).configuration.shift_reads_y {
                        y_register_index as int
                    } else {
                        x_register_index as int
                    };
                    let flagged = old(self)@.variable_register.update(
                        0xF,
                        (old(self)@.variable_register[source_index] & 0x80) >> 7u8,
                    );
                    flagged.update(x_register_index as int, flagged[source_index] << 1u8)
                }),
                ..old(self)@
            }),
    {
        let source_index: usize = if self.configuration.shift_reads_y {
            y_register_index
        } else {
            x_register_index
        };
        let flag = (self.variable_register[source_index] & 0x80) >> 7u8;
        self.variable_register.set(0xF, flag);
        let shifted = self.variable_register[source_index] << 1u8;
        self.variable_register.set(x_register_index, shifted);
    }

    /// Opcode: 9xy0
    ///
    /// Skips the next instruction if `VX` differs from `VY`.
    pub fn skip_if_not_equal(&mut self, x_register_index: usize, y_register_index: usize)
        requires
            old(self).wf(),
            x_register_index < 16,
            y_register_index < 16,
        ensures
            final(self).wf(),
            final(self)@ == (MachineState {
                program_counter: if old(self)@.variable_register[x_register_index as int]
                    != old(self)@.variable_register[y_register_index as int] {
                    next_pc(old(self).program_counter)
                } else {
                    old(self).program_counter
                },
                ..old(self)@
            }),
    {
        if self.variable_register[x_register_index] != self.variable_register[y_register_index] {
            self.program_counter = self.program_counter.wrapping_add(2);
        }
    }

    /// Opcode: Annn
    ///
    /// Sets the address register `I` to the given address.
    pub fn address_register_assign(&mut self, address: u16)
        requires
            old(self).wf(),
        ensures
            final(self).wf(),
            final(self)@ == (MachineState { address_register: address, ..old(self)@ }),
    {
        self.address_register = address;
    }

    /// Opcode: Bnnn
    ///
    /// Jumps to the given address plus an offset register: `VX` when the
    /// variable-offset quirk is on, `V0` when it is not.
    pub fn jump_offset(&mut self, x_register_index: usize, address: u16)
        requires
            old(self).wf(),
            x_register_index < 16,
            address <= 0xFFF,
        ensures
            final(self).wf(),
            final(self)@ == (MachineState {
                program_counter: (address + if old(self).configuration.use_variable_offset {
                    old(self)@.variable_register[x_register_index as int]
                } else {
                    old(self)@.variable_register[0]
                }) as u16,
                ..old(self)@
            }),
    {
        let offset_register: usize = if self.configuration.use_variable_offset {
            x_register_index
        } else {
            0
        };
        self.program_counter = address + self.variable_register[offset_register] as u16;
    }

    /// Opcode: Cxkk
    ///
    /// Advances the pseudo-random generator and sets `VX` to the low byte of
    /// the new state masked with the opcode's low byte.
    pub fn random_number_assign(&mut self, x_register_index: usize, value: u8)
        requires
            old(self).wf(),
            x_register_index < 16,
        ensures
            final(self).wf(),
            final(self)@ == (MachineState {
                random_state: next_random(old(self).random_state),
                variable_register: old(self)@.variable_register.update(
                    x_register_index as int,
                    ((next_random(old(self).random_state) & 0xFF) as u8) & value,
                ),
                ..old(self)@
            }),
    {
        let mut state = self.random_state;
        state = state ^ (state << 13u64);
        state = state ^ (state >> 17u64);
        state = state ^ (state << 5u64);
        self.random_state = state;
        proof {
            assert(state & 0xFF < 256) by (bit_vector);
        }
        let random_number: u8 = (state & 0xFF) as u8;
        self.variable_register.set(x_register_index, random_number & value);
    }

    /// Opcode: Ex9E
    ///
    /// Skips the next instruction if the key numbered by `VX` is pressed.
    /// The caller must know `VX` names a key; the stepper halts instead of
    /// executing this when it does not.
    pub fn skip_on_key_pressed(&mut self, x_register_index: usize)
        requires
            old(self).wf(),
            x_register_index < 16,
            old(self)@.variable_register[x_register_index as int] < 16,
        ensures
            final(self).wf(),
            final(self)@ == (MachineState {
                program_counter: if old(self)@.keypad[old(
                    self,
                )@.variable_register[x_register_index as int] as int] {
                    next_pc(old(self).program_counter)
                } else {
                    old(self).program_counter
                },
                ..old(self)@
            }),
    {
        let key = self.variable_register[x_register_index] as usize;
        if self.keypad[key] {
            self.program_counter = self.program_counter.wrapping_add(2);
        }
    }

    /// Opcode: ExA1
    ///
    /// Skips the next instruction if the key numbered by `VX` is not pressed.
    /// The caller must know `VX` names a key; the stepper halts instead of
    /// executing this when it does not.
    pub fn skip_on_key_not_pressed(&mut self, x_register_index: usize)
        requires
            old(self).wf(),
            x_register_index < 16,
            old(self)@.variable_register[x_register_index as int] < 16,
        ensures
            final(self).wf(),
            final(self)@ == (MachineState {
                program_counter: if !old(self)@.keypad[old(
                    self,
                )@.variable_register[x_register_index as int] as int] {
                    next_pc(old(self).program_counter)
                } else {
                    old(self).program_counter
                },
                ..old(self)@
            }),
    {
        let key = self.variable_register[x_register_index] as usize;
        if !self.keypad[key] {
            self.program_counter = self.program_counter.wrapping_add(2);
        }
    }

    /// Opcode: Fx07
    ///
    /// Sets `VX` to the value of the delay timer.
    pub fn store_delay_timer(&mut self, x_register_index: usize)
        requires
            old(self).wf(),
            x_register_index < 16,
        ensures
            final(self).wf(),
            final(self)@ == (MachineState {
                variable_register: old(self)@.variable_register.update(
                    x_register_index as int,
                    old(self).delay_timer,
                ),
                ..old(self)@
            }),
    {
        let value = self.delay_timer;
        self.variable_register.set(x_register_index, value);
    }

    /// Opcode: Fx0A
    ///
    /// Waits for a key: if some key is pressed, `VX` takes the lowest pressed
    /// key number; if none is, the program counter steps back two bytes so
    /// the same opcode runs again on the next step.  The machine never blocks
    /// here, so a host loop stays responsive while a program waits.
    pub fn wait_for_key_press(&mut self, x_register_index: usize)
        requires
            old(self).wf(),
            x_register_index < 16,
        ensures
            final(self).wf(),
            (exists|k: int| 0 <= k < 16 && old(self)@.keypad[k]) ==> exists|k: int|
                0 <= k < 16 && old(self)@.keypad[k] && (forall|j: int|
                    0 <= j < k ==> !old(self)@.keypad[j]) && final(self)@ == (MachineState {
                    variable_register: old(self)@.variable_register.update(
                        x_register_index as int,
                        k as u8,
                    ),
                    ..old(self)@
                }),
            (forall|k: int| 0 <= k < 16 ==> !old(self)@.keypad[k]) ==> final(self)@
                == (MachineState {
                program_counter: prev_pc(old(self).program_counter),
                ..old(self)@
            }),
    {
        let mut key: usize = 0;
        while key < 16
            invariant
                old(self).wf(),
                x_register_index < 16,
                key <= 16,
                *self == *old(self),
                forall|j: int| 0 <= j < key ==> !old(self)@.keypad[j],
            decreases 16 - key,
        {
            if self.keypad[key] {
                self.variable_register.set(x_register_index, key as u8);
                return ;
            }
            key += 1;
        }
        self.program_counter = self.program_counter.wrapping_sub(2);
    }

    /// Opcode: Fx15
    ///
    /// Sets the delay timer to `VX`.
    pub fn delay_timer_assign(&mut self, x_register_index: usize)
        requires
            old(self).wf(),
            x_register_index < 16,
        ensures
            final(self).wf(),
            final(self)@ == (MachineState {
                delay_timer: old(self)@.variable_register[x_register_index as int],
                ..old(self)@
            }),
    {
        self.delay_timer = self.variable_register[x_register_index];
    }

    /// Opcode: Fx18
    ///
    /// Sets the sound timer to `VX`.
    pub fn sound_timer_assign(&mut self, x_register_index: usize)
        requires
            old(self).wf(),
            x_register_index < 16,
        ensures
            final(self).wf(),
            final(self)@ == (MachineState {
                sound_timer: old(self)@.variable_register[x_register_index as int],
                ..old(self)@
            }),
    {
        self.sound_timer = self.variable_register[x_register_index];
    }

    /// Opcode: Fx1E
    ///
    /// Adds `VX` to the address register, wrapping at 16 bits; no flag is
    /// touched.
    pub fn address_register_add_assign(&mut self, x_register_index: usize)
        requires
            old(self).wf(),
            x_register_index < 16,
        ensures
            final(self).wf(),
            final(self)@ == (MachineState {
                address_register: address_add(
                    old(self).address_register,
                    old(self)@.variable_register[x_register_index as int] as u16,
                ),
                ..old(self)@
            }),
    {
        let value = self.variable_register[x_register_index] as u16;
        self.address_register = self.address_register.wrapping_add(value);
    }

    /// Opcode: Fx29
    ///
    /// Points the address register at the font glyph for the low nibble of
    /// `VX`: glyphs are five bytes each, laid out in order from the start of
    /// the font region.
    pub fn address_register_assign_character_address(&mut self, x_register_index: usize)
        requires
            old(self).wf(),
            x_register_index < 16,
        ensures
            final(self).wf(),
            final(self)@ == (MachineState {
                address_register: (old(self).configuration.font_data_start + (old(
                    self,
                )@.variable_register[x_register_index as int] & 0xF) * 5) as u16,
                ..old(self)@
            }),
    {
        let character = self.variable_register[x_register_index] & 0xF;
        proof {
            let v = old(self)@.variable_register[x_register_index as int];
            assert(v & 0xF < 16) by (bit_vector);
        }
        self.address_register = (self.configuration.font_data_start + (character as usize) * 5)
            as u16;
    }

    /// Opcode: Fx33
    ///
    /// Stores the three decimal digits of `VX` at `I`, `I + 1` and `I + 2`:
    /// hundreds, tens, ones.  The caller must know those addresses are in
    /// memory; the stepper halts instead of executing this when they are not.
    pub fn store_binary_coded_decimal_address(&mut self, x_register_index: usize)
        requires
            old(self).wf(),
            x_register_index < 16,
            old(self).address_register + 3 <= old(self)@.memory.len(),
        ensures
            final(self).wf(),
            final(self)@ == (MachineState {
                memory: ({
                    let v = old(self)@.variable_register[x_register_index as int];
                    old(self)@.memory.update(old(self).address_register + 2, v % 10).update(
                        old(self).address_register + 1,
                        (v / 10) % 10,
                    ).update(old(self).address_register as int, v / 100)
                }),
                ..old(self)@
            }),
    {
        let address = self.address_register as usize;
        let mut accumulator = self.variable_register[x_register_index];

        self.memory.set(address + 2, accumulator % 10);
        accumulator = accumulator / 10;

        self.memory.set(address + 1, accumulator % 10);
        accumulator = accumulator / 10;

        self.memory.set(address, accumulator);
    }

    /// Opcode: Fx55
    ///
    /// Stores `V0` to `VX` inclusive into memory starting at `I`.  With the
    /// increment quirk on, `I` then moves past the stored bytes; without it,
    /// `I` keeps its value.  The caller must know the target range is in
    /// memory; the stepper halts instead of executing this when it is not.
    #[verifier::loop_isolation(false)]
    pub fn store_variable_registers(&mut self, x_register_index: usize)
        requires
            old(self).wf(),
            x_register_index < 16,
            old(self).address_register + x_register_index + 1 <= old(self)@.memory.len(),
        ensures
            final(self).wf(),
            final(self)@ == (MachineState {
                memory: store_regs_memory(
                    old(self)@.memory,
                    old(self)@.variable_register,
                    old(self).address_register as int,
                    x_register_index as int,
                ),
                address_register: if old(self).configuration.increment_on_store {
                    address_add(old(self).address_register, (x_register_index + 1) as u16)
                } else {
                    old(self).address_register
                },
                ..old(self)@
            }),
    {
        let address = self.address_register as usize;

        let mut offset: usize = 0;
        while offset <= x_register_index
            invariant
                offset <= x_register_index + 1,
                *self == (Interpreter { memory: self.memory, ..*old(self) }),
                self.memory@.len() == old(self)@.memory.len(),
                forall|k: int|
                    address <= k < address + offset ==> self.memory@[k]
                        == old(self)@.variable_register[k - address],
                forall|k: int|
                    0 <= k < self.memory@.len() && !(address <= k < address + offset)
                        ==> self.memory@[k] == old(self)@.memory[k],
            decreases x_register_index + 1 - offset,
        {
            let value = self.variable_register[offset];
            self.memory.set(address + offset, value);
            offset += 1;
        }

        proof {
            assert(self.memory@ =~= store_regs_memory(
                old(self)@.memory,
                old(self)@.variable_register,
                old(self).address_register as int,
                x_register_index as int,
            ));
        }

        if self.configuration.increment_on_store {
            self.address_register = self.address_register.wrapping_add(
                x_register_index as u16 + 1,
            );
        }
    }

    /// Opcode: Fx65
    ///
    /// Loads `V0` to `VX` inclusive from memory starting at `I`.  With the
    /// increment quirk on, `I` then moves past the read bytes; without it,
    /// `I` keeps its value.  The caller must know the source range is in
    /// memory; the stepper halts instead of executing this when it is not.
    #[verifier::loop_isolation(false)]
    pub fn load_variable_registers(&mut self, x_register_index: usize)
        requires
            old(self).wf(),
            x_register_index < 16,
            old(self).address_register + x_register_index + 1 <= old(self)@.memory.len(),
        ensures
            final(self).wf(),
            final(self)@ == (MachineState {
                variable_register: load_regs_registers(
                    old(self)@.variable_register,
                    old(self)@.memory,
                    old(self).address_register as int,
                    x_register_index as int,
                ),
                address_register: if old(self).configuration.increment_on_store {
                    address_add(old(self).address_register, (x_register_index + 1) as u16)
                } else {
                    old(self).address_register
                },
                ..old(self)@
            }),
    {
        let address = self.address_register as usize;

        let mut offset: usize = 0;
        while offset <= x_register_index
            invariant
                offset <= x_register_index + 1,
                *self == (Interpreter { variable_register: self.variable_register, ..*old(self) }),
                self.variable_register@.len() == 16,
                forall|j: int|
                    0 <= j < offset ==> self.variable_register@[j] == old(self)@.memory[address + j],
                forall|j: int|
                    offset <= j < 16 ==> self.variable_register@[j]
                        == old(self)@.variable_register[j],
            decreases x_register_index + 1 - offset,
        {
            let value = self.memory[address + offset];
            self.variable_register.set(offset, value);
            offset += 1;
        }

        proof {
            assert(self.variable_register@ =~= load_regs_registers(
                old(self)@.variable_register,
                old(self)@.memory,
                old(self).address_register as int,
                x_register_index as int,
            ));
        }

        if self.configuration.increment_on_store {
            self.address_register = self.address_register.wrapping_add(
                x_register_index as u16 + 1,
            );
        }
    }

    /// Opcode: Dxyn
    ///
    /// Draws the sprite of `sprite_height` rows stored at the address
    /// register, anchored at `(VX mod width, VY mod height)`.  Each lit
    /// sprite bit toggles its display cell, wrapping both coordinates per
    /// pixel; `VF` becomes 1 exactly when some toggle darkened a lit cell.
    /// The caller must know the sprite bytes are in memory; the stepper halts
    /// instead of executing this when they are not.
    #[verifier::loop_isolation(false)]
    pub fn draw_sprite(
        &mut self,
        x_register_index: usize,
        y_register_index: usize,
        sprite_height: u8,
    )
        requires
            old(self).wf(),
            x_register_index < 16,
            y_register_index < 16,
            sprite_height < 16,
            old(self).address_register + sprite_height <= old(self)@.memory.len(),
        ensures
            final(self).wf(),
            ({
                let width = old(self).configuration.display_width as int;
                let height = old(self).configuration.display_height as int;
                let x = old(self)@.variable_register[x_register_index as int] as int % width;
                let y = old(self)@.variable_register[y_register_index as int] as int % height;
                let drawn = draw_rows(
                    old(self)@.display,
                    false,
                    old(self)@.memory,
                    old(self).address_register as int,
                    width,
                    height,
                    x,
                    y,
                    sprite_height as int,
                );
                final(self)@ == (MachineState {
                    display: drawn.0,
                    variable_register: old(self)@.variable_register.update(
                        0xF,
                        if drawn.1 {
                            1u8
                        } else {
                            0u8
                        },
                    ),
                    ..old(self)@
                })
            }),
    {
        let display_width = self.configuration.display_width;
        let display_height = self.configuration.display_height;
        let address_register = self.address_register as usize;
        let x_position = (self.variable_register[x_register_index] as usize) % display_width;
        let y_position = (self.variable_register[y_register_index] as usize) % display_height;
        let mut collided = false;

        proof {
            assert(display_width <= 0x100_0000 && display_height <= 0x100_0000)
                by (nonlinear_arith)
                requires
                    8 <= display_width,
                    1 <= display_height,
                    display_width * display_height <= 0x100_0000,
            ;
        }

        let ghost width = display_width as int;
        let ghost height = display_height as int;

        let mut sprite_row_index: usize = 0;
        while sprite_row_index < sprite_height as usize
            invariant
                sprite_row_index <= sprite_height,
                *self == (Interpreter { display: self.display, ..*old(self) }),
                self.display@.len() == old(self)@.display.len(),
                (self.display@, collided) == draw_rows(
                    old(self)@.display,
                    false,
                    old(self)@.memory,
                    address_register as int,
                    width,
                    height,
                    x_position as int,
                    y_position as int,
                    sprite_row_index as int,
                ),
            decreases sprite_height - sprite_row_index,
        {
            let display_row_index = (y_position + sprite_row_index) % display_height;
            let sprite_byte = self.memory[address_register + sprite_row_index];

            let ghost row_start = draw_rows(
                old(self)@.display,
                false,
                old(self)@.memory,
                address_register as int,
                width,
                height,
                x_position as int,
                y_position as int,
                sprite_row_index as int,
            );

            let mut sprite_column_index: usize = 0;
            while sprite_column_index < 8
                invariant
                    sprite_column_index <= 8,
                    *self == (Interpreter { display: self.display, ..*old(self) }),
                    self.display@.len() == old(self)@.display.len(),
                    (self.display@, collided) == draw_columns(
                        row_start.0,
                        row_start.1,
                        sprite_byte,
                        width,
                        height,
                        x_position as int,
                        y_position as int,
                        sprite_row_index as int,
                        sprite_column_index as int,
                    ),
                decreases 8 - sprite_column_index,
            {
                let display_column_index = (x_position + sprite_column_index) % display_width;

                let pixel_bitmask: u8 = 0x80u8 >> (sprite_column_index as u8);
                let sprite_pixel = (sprite_byte & pixel_bitmask) > 0;

                if sprite_pixel {
                    proof {
                        assert(display_row_index * display_width + display_column_index < height
                            * width) by (nonlinear_arith)
                            requires
                                display_row_index < height,
                                display_column_index < display_width,
                                display_width == width,
                                0 < width,
                                0 < height,
                        ;
                    }
                    let index = display_row_index * display_width + display_column_index;
                    let display_pixel = self.display[index];
                    if display_pixel {
                        collided = true;
                    }
                    self.display.set(index, !display_pixel);
                }

                sprite_column_index += 1;
            }

            sprite_row_index += 1;
        }

        let flag: u8 = if collided {
            1
        } else {
            0
        };
        self.variable_register.set(0xF, flag);
    }
}

} // verus!
