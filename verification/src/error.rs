//! The error taxonomy of the machine.

use vstd::prelude::*;

verus! {

/// What can go wrong while feeding a program to the machine.
///
/// `ProgramTooLarge` is reported before any memory write: loading is
/// all-or-nothing.  `Io` carries, verbatim, the message of an input failure
/// met by a host that reads program bytes from somewhere; the machine itself
/// never constructs it.
#[derive(Debug)]
pub enum Chip8Error {
    ProgramTooLarge,
    Io(String),
}

impl Chip8Error {
    /// A short human-readable description of the error.
    pub fn message(&self) -> (r: &'static str)
    {
        match self {
            Chip8Error::ProgramTooLarge => "program does not fit into memory past the program start",
            Chip8Error::Io(_) => "could not read the program bytes",
        }
    }
}

} // verus!
