//! An end-to-end golden test: a small ROM in the style of the classic
//! IBM-logo test program clears the screen, points the address register at
//! sprite data carried inside the ROM, and draws three letter sprites at
//! fixed positions.  After its fixed instruction count the display must hold
//! exactly the expected bitmap.

use chip8::interpreter::Interpreter;

const LETTER_I: [u8; 5] = [0xE0, 0x40, 0x40, 0x40, 0xE0];
const LETTER_B: [u8; 5] = [0xC0, 0xA0, 0xC0, 0xA0, 0xC0];
const LETTER_M: [u8; 5] = [0x88, 0xD8, 0xA8, 0x88, 0x88];

fn logo_rom() -> Vec<u8> {
    let mut rom = vec![
        0x00, 0xE0, // clear the display
        0xA2, 0x1E, // I = 0x21E: the first sprite
        0x60, 0x00, // V0 = 0
        0x61, 0x00, // V1 = 0
        0xD0, 0x15, // draw at (0, 0)
        0xA2, 0x23, // I = 0x223: the second sprite
        0x60, 0x08, // V0 = 8
        0xD0, 0x15, // draw at (8, 0)
        0xA2, 0x28, // I = 0x228: the third sprite
        0x60, 0x10, // V0 = 16
        0xD0, 0x15, // draw at (16, 0)
        0x12, 0x16, // jump to itself: spin forever
    ];
    while rom.len() < 0x1E {
        rom.push(0x00);
    }
    rom.extend_from_slice(&LETTER_I);
    rom.extend_from_slice(&LETTER_B);
    rom.extend_from_slice(&LETTER_M);
    rom
}

#[test]
fn ibm_logo_style_rom_draws_the_expected_bitmap() {
    let mut machine = Interpreter::default();
    machine.load_program_from_bytes(&logo_rom()).unwrap();

    for _ in 0..11 {
        assert!(machine.execute_current_instruction());
    }

    // No sprite overlapped another: no collision was reported.
    assert_eq!(machine.variable_register()[0xF], 0);

    // Every cell holds exactly the bit its sprite carries; all others dark.
    let mut expected = vec![false; 64 * 32];
    let letters: [(usize, &[u8; 5]); 3] = [(0, &LETTER_I), (8, &LETTER_B), (16, &LETTER_M)];
    for (anchor_x, rows) in letters.iter() {
        for (row, byte) in rows.iter().enumerate() {
            for column in 0..8 {
                expected[row * 64 + anchor_x + column] = (byte >> (7 - column)) & 1 == 1;
            }
        }
    }
    assert_eq!(machine.display().len(), expected.len());
    for (index, pixel) in machine.display().iter().enumerate() {
        assert_eq!(*pixel, expected[index], "pixel {} differs", index);
    }

    let lit = machine.display().iter().filter(|&&pixel| pixel).count();
    assert_eq!(lit, 32);

    // The ROM now spins on its jump-to-self without further display change.
    assert!(machine.execute_current_instruction());
    assert_eq!(machine.program_counter(), 0x216);
}
