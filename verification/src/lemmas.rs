//! Laws of the machine: properties that span several opcodes or several
//! steps, proved once and for all from the step semantics.

use vstd::prelude::*;
use crate::interpreter::{MachineState, fetch_ok, nibble0, nibble1, nibble2, nibble3, step_post};
use crate::interpreter::instructions::{
    byte_add,
    draw_columns,
    draw_rows,
    load_regs_registers,
    next_pc,
    pixel_index,
    sprite_pixel_on,
    store_regs_memory,
};

verus! {

/// Loading `VX` with one byte and then adding another ("6XKK then 7XKK")
/// leaves `VX` holding the sum modulo 256, and — as long as `VX` is not the
/// flag register itself — leaves `VF` untouched, since the plain add opcode
/// produces no carry flag.
pub proof fn lemma_assign_then_add_value(
    pre: MachineState,
    mid: MachineState,
    post: MachineState,
    x: u8,
    k1: u8,
    k2: u8,
)
    requires
        pre.variable_register.len() == 16,
        fetch_ok(pre),
        nibble0(pre) == 6,
        nibble1(pre) == x,
        nibble2(pre) * 16 + nibble3(pre) == k1,
        step_post(pre, mid, true),
        fetch_ok(mid),
        nibble0(mid) == 7,
        nibble1(mid) == x,
        nibble2(mid) * 16 + nibble3(mid) == k2,
        step_post(mid, post, true),
    ensures
        post.variable_register[x as int] == (k1 + k2) % 256,
        x != 0xF ==> post.variable_register[0xF] == pre.variable_register[0xF],
{
    assert(mid.variable_register[x as int] == k1);
    assert(post.variable_register[x as int] == byte_add(k1, k2));
}

/// Storing `V0 ..= VX` to memory and loading them back from the same address
/// ("FX55 then FX65" with the same X and I) reads back exactly the registers
/// that were stored, for every X.
pub proof fn lemma_store_load_round_trip(memory: Seq<u8>, registers: Seq<u8>, address: int, x: int)
    requires
        registers.len() == 16,
        0 <= x < 16,
        0 <= address,
        address + x + 1 <= memory.len(),
    ensures
        load_regs_registers(registers, store_regs_memory(memory, registers, address, x), address, x)
            == registers,
{
    assert(load_regs_registers(
        registers,
        store_regs_memory(memory, registers, address, x),
        address,
        x,
    ) =~= registers);
}

/// A CALL followed by the RET it reaches brings the program counter to the
/// instruction immediately after the CALL, with the stack depth back where
/// it was.
pub proof fn lemma_call_then_return(pre: MachineState, mid: MachineState, post: MachineState)
    requires
        pre.call_stack.len() == 16,
        fetch_ok(pre),
        nibble0(pre) == 2,
        pre.call_stack_index < 16,
        step_post(pre, mid, true),
        fetch_ok(mid),
        nibble0(mid) == 0,
        nibble1(mid) == 0,
        nibble2(mid) == 0xE,
        nibble3(mid) == 0xE,
        step_post(mid, post, true),
    ensures
        post.program_counter == next_pc(pre.program_counter),
        post.call_stack_index == pre.call_stack_index,
{
    assert(mid.call_stack_index == pre.call_stack_index + 1);
    assert(mid.call_stack == pre.call_stack.update(
        pre.call_stack_index as int,
        next_pc(pre.program_counter),
    ));
    assert(mid.call_stack[pre.call_stack_index as int] == next_pc(pre.program_counter));
    assert(post.program_counter == mid.call_stack[mid.call_stack_index - 1]);
}

/// The random-number opcode with mask `0x00` writes zero into `VX`, whatever
/// the state of the pseudo-random generator.
pub proof fn lemma_random_zero_mask(pre: MachineState, post: MachineState)
    requires
        pre.variable_register.len() == 16,
        fetch_ok(pre),
        nibble0(pre) == 0xC,
        nibble2(pre) == 0,
        nibble3(pre) == 0,
        step_post(pre, post, true),
    ensures
        post.variable_register[nibble1(pre) as int] == 0,
{
    let b = (crate::interpreter::instructions::next_random(pre.random_state) & 0xFF) as u8;
    assert(b & 0 == 0) by (bit_vector);
}

/// The wait-for-key opcode with no key pressed leaves the machine exactly
/// as it was after one step: the two bytes the fetch advances are undone by
/// the handler, so the same opcode runs again on the next step.
pub proof fn lemma_wait_for_key_spins(pre: MachineState, post: MachineState)
    requires
        fetch_ok(pre),
        nibble0(pre) == 0xF,
        nibble2(pre) == 0x0,
        nibble3(pre) == 0xA,
        forall|k: int| 0 <= k < 16 ==> !pre.keypad[k],
        step_post(pre, post, true),
    ensures
        post == pre,
{
}

/// Two distinct offsets below the modulus land on distinct residues when
/// added to the same base.
proof fn lemma_offset_mod_distinct(base: int, d1: int, d2: int, m: int)
    by (nonlinear_arith)
    requires
        0 < m,
        0 <= base,
        0 <= d1 < m,
        0 <= d2 < m,
        d1 != d2,
    ensures
        (base + d1) % m != (base + d2) % m,
{
}

/// A row-major pixel index determines its row and column.
proof fn lemma_row_major_injective(width: int, r1: int, c1: int, r2: int, c2: int)
    by (nonlinear_arith)
    requires
        0 < width,
        0 <= c1 < width,
        0 <= c2 < width,
        0 <= r1,
        0 <= r2,
        r1 * width + c1 == r2 * width + c2,
    ensures
        r1 == r2 && c1 == c2,
{
}

/// Every sprite pixel lands inside the display grid.
proof fn lemma_pixel_index_in_range(width: int, height: int, x: int, y: int, row: int, c: int)
    by (nonlinear_arith)
    requires
        0 < width,
        0 < height,
        0 <= x,
        0 <= y,
        0 <= row,
        0 <= c,
    ensures
        0 <= pixel_index(width, height, x, y, row, c) < height * width,
        pixel_index(width, height, x, y, row, c) == ((y + row) % height) * width + (x + c) % width,
        0 <= (y + row) % height < height,
        0 <= (x + c) % width < width,
{
}

/// What one sprite row does, cell by cell: since a display at least eight
/// cells wide gives the eight columns eight distinct cells, every lit sprite
/// bit inverts its own cell, every other cell keeps its value, and the
/// collision flag latches exactly when some lit bit met a lit cell.
pub proof fn lemma_draw_columns_effect(
    display: Seq<bool>,
    collided: bool,
    sprite_byte: u8,
    width: int,
    height: int,
    x: int,
    y: int,
    row: int,
    columns: int,
)
    requires
        8 <= width,
        0 < height,
        0 <= x < width,
        0 <= y,
        0 <= row,
        0 <= columns <= 8,
        height * width <= display.len(),
    ensures
        ({
            let out = draw_columns(display, collided, sprite_byte, width, height, x, y, row,
                columns);
            &&& out.0.len() == display.len()
            &&& (forall|c: int|
                0 <= c < columns && sprite_pixel_on(sprite_byte, c)
                    ==> out.0[pixel_index(width, height, x, y, row, c)] == !display[pixel_index(
                    width,
                    height,
                    x,
                    y,
                    row,
                    c,
                )])
            &&& (forall|i: int|
                0 <= i < display.len() && (forall|c: int|
                    0 <= c < columns && sprite_pixel_on(sprite_byte, c) ==> i != pixel_index(
                        width,
                        height,
                        x,
                        y,
                        row,
                        c,
                    )) ==> out.0[i] == display[i])
            &&& out.1 == (collided || exists|c: int|
                0 <= c < columns && sprite_pixel_on(sprite_byte, c) && display[pixel_index(
                    width,
                    height,
                    x,
                    y,
                    row,
                    c,
                )])
        }),
    decreases columns,
{
    if columns > 0 {
        lemma_draw_columns_effect(display, collided, sprite_byte, width, height, x, y, row, columns
            - 1);
        let prior = draw_columns(display, collided, sprite_byte, width, height, x, y, row, columns
            - 1);
        let out = draw_columns(display, collided, sprite_byte, width, height, x, y, row, columns);
        let c = columns - 1;
        lemma_pixel_index_in_range(width, height, x, y, row, c);
        if sprite_pixel_on(sprite_byte, c) {
            let idx = pixel_index(width, height, x, y, row, c);
            assert forall|cp: int| 0 <= cp < c && sprite_pixel_on(sprite_byte, cp) implies idx
                != pixel_index(width, height, x, y, row, cp) by {
                lemma_pixel_index_in_range(width, height, x, y, row, cp);
                lemma_offset_mod_distinct(x, c, cp, width);
            }
            assert(prior.0[idx] == display[idx]);
            assert forall|cp: int| 0 <= cp < columns && sprite_pixel_on(sprite_byte, cp)
                implies out.0[pixel_index(width, height, x, y, row, cp)] == !display[pixel_index(
                width,
                height,
                x,
                y,
                row,
                cp,
            )] by {
                lemma_pixel_index_in_range(width, height, x, y, row, cp);
                if cp < c {
                    lemma_offset_mod_distinct(x, c, cp, width);
                }
            }
            assert(out.1 == (collided || exists|cp: int|
                0 <= cp < columns && sprite_pixel_on(sprite_byte, cp) && display[pixel_index(
                    width,
                    height,
                    x,
                    y,
                    row,
                    cp,
                )])) by {
                if prior.1 || display[idx] {
                    if display[idx] {
                        assert(0 <= c < columns && sprite_pixel_on(sprite_byte, c)
                            && display[pixel_index(width, height, x, y, row, c)]);
                    }
                }
            }
        }
    }
}

/// What a whole sprite does, cell by cell: a sprite no taller than the
/// display touches each display row at most once, so every lit sprite bit
/// inverts its own cell, every other cell keeps its value, and the collision
/// flag is set exactly when some lit bit met a lit cell.
pub proof fn lemma_draw_rows_effect(
    display: Seq<bool>,
    collided: bool,
    memory: Seq<u8>,
    address: int,
    width: int,
    height: int,
    x: int,
    y: int,
    rows: int,
)
    requires
        8 <= width,
        0 < height,
        0 <= x < width,
        0 <= y,
        0 <= rows <= height,
        height * width <= display.len(),
    ensures
        ({
            let out = draw_rows(display, collided, memory, address, width, height, x, y, rows);
            &&& out.0.len() == display.len()
            &&& (forall|r: int, c: int|
                0 <= r < rows && 0 <= c < 8 && sprite_pixel_on(memory[address + r], c)
                    ==> out.0[pixel_index(width, height, x, y, r, c)] == !display[pixel_index(
                    width,
                    height,
                    x,
                    y,
                    r,
                    c,
                )])
            &&& (forall|i: int|
                0 <= i < display.len() && (forall|r: int, c: int|
                    0 <= r < rows && 0 <= c < 8 && sprite_pixel_on(memory[address + r], c) ==> i
                        != pixel_index(width, height, x, y, r, c)) ==> out.0[i] == display[i])
            &&& out.1 == (collided || exists|r: int, c: int|
                0 <= r < rows && 0 <= c < 8 && sprite_pixel_on(memory[address + r], c)
                    && display[pixel_index(width, height, x, y, r, c)])
        }),
    decreases rows,
{
    if rows > 0 {
        lemma_draw_rows_effect(display, collided, memory, address, width, height, x, y, rows - 1);
        let prior = draw_rows(display, collided, memory, address, width, height, x, y, rows - 1);
        let out = draw_rows(display, collided, memory, address, width, height, x, y, rows);
        let r = rows - 1;
        let sprite_byte = memory[address + r];
        lemma_draw_columns_effect(prior.0, prior.1, sprite_byte, width, height, x, y, r, 8);

        // A cell of the current row was never touched by an earlier row.
        assert forall|c: int, rp: int, cp: int|
            0 <= c < 8 && 0 <= rp < r && 0 <= cp < 8 implies pixel_index(width, height, x, y, r, c)
            != pixel_index(width, height, x, y, rp, cp) by {
            lemma_pixel_index_in_range(width, height, x, y, r, c);
            lemma_pixel_index_in_range(width, height, x, y, rp, cp);
            lemma_offset_mod_distinct(y, r, rp, height);
            if pixel_index(width, height, x, y, r, c) == pixel_index(width, height, x, y, rp, cp) {
                lemma_row_major_injective(
                    width,
                    (y + r) % height,
                    (x + c) % width,
                    (y + rp) % height,
                    (x + cp) % width,
                );
            }
        }

        // Lit bits of the current row invert cells still at their original
        // value; lit bits of earlier rows sit in cells this row leaves alone.
        assert forall|rp: int, c: int|
            0 <= rp < rows && 0 <= c < 8 && sprite_pixel_on(memory[address + rp], c)
            implies out.0[pixel_index(width, height, x, y, rp, c)] == !display[pixel_index(
            width,
            height,
            x,
            y,
            rp,
            c,
        )] by {
            lemma_pixel_index_in_range(width, height, x, y, rp, c);
            if rp == r {
                assert(prior.0[pixel_index(width, height, x, y, r, c)] == display[pixel_index(
                    width,
                    height,
                    x,
                    y,
                    r,
                    c,
                )]);
            }
        }

        // The collision flag after this row: either an earlier row collided,
        // or this row's lit bits met a cell that is lit in `prior.0` — which,
        // being untouched by earlier rows, still holds its original value.
        assert forall|c: int| 0 <= c < 8 && sprite_pixel_on(sprite_byte, c) implies prior.0[
            pixel_index(width, height, x, y, r, c)
        ] == display[pixel_index(width, height, x, y, r, c)] by {
            lemma_pixel_index_in_range(width, height, x, y, r, c);
        }
        assert(out.1 == (collided || exists|rp: int, c: int|
            0 <= rp < rows && 0 <= c < 8 && sprite_pixel_on(memory[address + rp], c)
                && display[pixel_index(width, height, x, y, rp, c)])) by {
            if out.1 {
                if !collided {
                    if prior.1 {
                        assert(exists|rp: int, c: int|
                            0 <= rp < r && 0 <= c < 8 && sprite_pixel_on(memory[address + rp], c)
                                && display[pixel_index(width, height, x, y, rp, c)]);
                    } else {
                        let c = choose|c: int|
                            0 <= c < 8 && sprite_pixel_on(sprite_byte, c) && prior.0[pixel_index(
                                width,
                                height,
                                x,
                                y,
                                r,
                                c,
                            )];
                        assert(0 <= r < rows && 0 <= c < 8 && sprite_pixel_on(
                            memory[address + r],
                            c,
                        ) && display[pixel_index(width, height, x, y, r, c)]);
                    }
                }
            } else {
                if exists|rp: int, c: int|
                    0 <= rp < rows && 0 <= c < 8 && sprite_pixel_on(memory[address + rp], c)
                        && display[pixel_index(width, height, x, y, rp, c)] {
                    let (rp, c) = choose|rp: int, c: int|
                        0 <= rp < rows && 0 <= c < 8 && sprite_pixel_on(memory[address + rp], c)
                            && display[pixel_index(width, height, x, y, rp, c)];
                    if rp < r {
                        assert(prior.1);
                    } else {
                        assert(prior.0[pixel_index(width, height, x, y, r, c)] == display[
                            pixel_index(width, height, x, y, r, c)
                        ]);
                    }
                }
            }
        }
    }
}

/// Wraparound at the right edge: a sprite anchored on the last display
/// column puts its second column on column zero — each row's bit 1, when
/// lit, inverts the cell at column zero of that row.
pub proof fn lemma_draw_wraps_second_column(
    display: Seq<bool>,
    memory: Seq<u8>,
    address: int,
    width: int,
    height: int,
    y: int,
    rows: int,
    r: int,
)
    requires
        8 <= width,
        0 < height,
        0 <= y,
        0 <= rows <= height,
        height * width <= display.len(),
        0 <= r < rows,
        sprite_pixel_on(memory[address + r], 1),
    ensures
        ({
            let out = draw_rows(display, false, memory, address, width, height, width - 1, y, rows);
            out.0[((y + r) % height) * width] == !display[((y + r) % height) * width]
        }),
{
    lemma_draw_rows_effect(display, false, memory, address, width, height, width - 1, y, rows);
    lemma_pixel_index_in_range(width, height, width - 1, y, r, 1);
    assert(width % width == 0) by (nonlinear_arith)
        requires
            0 < width,
    ;
    assert(pixel_index(width, height, width - 1, y, r, 1) == ((y + r) % height) * width);
}

/// Drawing the same sprite twice at the same anchor restores every display
/// cell, and the second draw reports a collision exactly when some lit
/// sprite bit fell on a cell that was unlit before the first draw — that
/// cell came out of the first draw lit, and the second draw darkened it.
pub proof fn lemma_draw_twice(
    display: Seq<bool>,
    memory: Seq<u8>,
    address: int,
    width: int,
    height: int,
    x: int,
    y: int,
    rows: int,
)
    requires
        8 <= width,
        0 < height,
        0 <= x < width,
        0 <= y,
        0 <= rows <= height,
        height * width <= display.len(),
    ensures
        ({
            let first = draw_rows(display, false, memory, address, width, height, x, y, rows);
            let second = draw_rows(first.0, false, memory, address, width, height, x, y, rows);
            &&& second.0 == display
            &&& second.1 == (exists|r: int, c: int|
                0 <= r < rows && 0 <= c < 8 && sprite_pixel_on(memory[address + r], c)
                    && !display[pixel_index(width, height, x, y, r, c)])
        }),
{
    let first = draw_rows(display, false, memory, address, width, height, x, y, rows);
    let second = draw_rows(first.0, false, memory, address, width, height, x, y, rows);
    lemma_draw_rows_effect(display, false, memory, address, width, height, x, y, rows);
    lemma_draw_rows_effect(first.0, false, memory, address, width, height, x, y, rows);

    assert forall|i: int| 0 <= i < display.len() implies second.0[i] == display[i] by {
        if exists|r: int, c: int|
            0 <= r < rows && 0 <= c < 8 && sprite_pixel_on(memory[address + r], c) && i
                == pixel_index(width, height, x, y, r, c) {
            let (r, c) = choose|r: int, c: int|
                0 <= r < rows && 0 <= c < 8 && sprite_pixel_on(memory[address + r], c) && i
                    == pixel_index(width, height, x, y, r, c);
            assert(first.0[i] == !display[i]);
            assert(second.0[i] == !first.0[i]);
        } else {
            assert(first.0[i] == display[i]);
            assert(second.0[i] == first.0[i]);
        }
    }
    assert(second.0 =~= display);

    assert(second.1 == (exists|r: int, c: int|
        0 <= r < rows && 0 <= c < 8 && sprite_pixel_on(memory[address + r], c) && !display[
            pixel_index(width, height, x, y, r, c)
        ])) by {
        if second.1 {
            let (r, c) = choose|r: int, c: int|
                0 <= r < rows && 0 <= c < 8 && sprite_pixel_on(memory[address + r], c) && first.0[
                    pixel_index(width, height, x, y, r, c)
                ];
            assert(first.0[pixel_index(width, height, x, y, r, c)] == !display[pixel_index(
                width,
                height,
                x,
                y,
                r,
                c,
            )]);
            assert(0 <= r < rows && 0 <= c < 8 && sprite_pixel_on(memory[address + r], c)
                && !display[pixel_index(width, height, x, y, r, c)]);
        } else {
            if exists|r: int, c: int|
                0 <= r < rows && 0 <= c < 8 && sprite_pixel_on(memory[address + r], c) && !display[
                    pixel_index(width, height, x, y, r, c)
                ] {
                let (r, c) = choose|r: int, c: int|
                    0 <= r < rows && 0 <= c < 8 && sprite_pixel_on(memory[address + r], c)
                        && !display[pixel_index(width, height, x, y, r, c)];
                assert(first.0[pixel_index(width, height, x, y, r, c)]);
            }
        }
    }
}

/// The draw-twice law over two actual machine steps: a machine that executes
/// the same draw opcode twice in a row — anchored by registers other than
/// the flag, with the sprite no taller than the display — gets its display
/// back exactly, and the second step reports a collision in `VF` precisely
/// when some lit sprite bit had fallen on a cell that was unlit at the
/// start.
pub proof fn lemma_draw_twice_steps(pre: MachineState, mid: MachineState, post: MachineState)
    requires
        pre.variable_register.len() == 16,
        pre.display.len() == pre.configuration.display_width * pre.configuration.display_height,
        8 <= pre.configuration.display_width,
        0 < pre.configuration.display_height,
        fetch_ok(pre),
        nibble0(pre) == 0xD,
        nibble1(pre) != 0xF,
        nibble2(pre) != 0xF,
        nibble3(pre) <= pre.configuration.display_height,
        step_post(pre, mid, true),
        fetch_ok(mid),
        nibble0(mid) == 0xD,
        nibble1(mid) == nibble1(pre),
        nibble2(mid) == nibble2(pre),
        nibble3(mid) == nibble3(pre),
        step_post(mid, post, true),
    ensures
        post.display == pre.display,
        ({
            let width = pre.configuration.display_width as int;
            let height = pre.configuration.display_height as int;
            let anchor_x = pre.variable_register[nibble1(pre) as int] as int % width;
            let anchor_y = pre.variable_register[nibble2(pre) as int] as int % height;
            post.variable_register[0xF] == (if exists|r: int, c: int|
                0 <= r < nibble3(pre) && 0 <= c < 8 && sprite_pixel_on(
                    pre.memory[pre.address_register + r],
                    c,
                ) && !pre.display[pixel_index(width, height, anchor_x, anchor_y, r, c)] {
                1u8
            } else {
                0u8
            })
        }),
{
    let width = pre.configuration.display_width as int;
    let height = pre.configuration.display_height as int;
    let x = nibble1(pre) as int;
    let y = nibble2(pre) as int;
    let rows = nibble3(pre) as int;
    let anchor_x = pre.variable_register[x] as int % width;
    let anchor_y = pre.variable_register[y] as int % height;
    let address = pre.address_register as int;

    let first = draw_rows(pre.display, false, pre.memory, address, width, height, anchor_x,
        anchor_y, rows);

    assert(mid.display == first.0);
    assert(mid.variable_register[x] == pre.variable_register[x]);
    assert(mid.variable_register[y] == pre.variable_register[y]);
    assert(mid.memory == pre.memory);
    assert(mid.address_register == pre.address_register);
    assert(mid.configuration == pre.configuration);

    let second = draw_rows(first.0, false, pre.memory, address, width, height, anchor_x, anchor_y,
        rows);
    assert(post.display == second.0);
    assert(post.variable_register == mid.variable_register.update(
        0xF,
        if second.1 {
            1u8
        } else {
            0u8
        },
    ));

    assert(width * height == height * width) by (nonlinear_arith);
    lemma_draw_twice(pre.display, pre.memory, address, width, height, anchor_x, anchor_y, rows);
}

} // verus!
