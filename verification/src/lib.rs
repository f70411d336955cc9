//! A CHIP-8 virtual machine.
//!
//! The library owns the fetch-decode-execute engine and its register, memory,
//! display and timer state.  A host loop writes key presses into the keypad,
//! steps the machine one instruction at a time, and reads the display buffer
//! back for rendering.  The machine itself performs no I/O: loading a program
//! copies plain bytes, the display is a boolean grid, the sound signal is a
//! return value, and the 60 Hz timer tick is driven by a timestamp the host
//! passes in.

pub mod error;
pub mod interpreter;
pub mod lemmas;
pub mod nibbles;
