//! Loading the bootloader program itself.

use crate::engine::{parse_program, parsed_program};
use crate::tasks::main_entrypoint;
use cairo_vm::types::errors::program_errors::ProgramError;
use cairo_vm::types::program::Program;
use vstd::prelude::*;

verus! {

/// Parses a compiled bootloader, given as the contents of its JSON file, into
/// a program that starts at `main`.
pub fn load_bootloader(bootloader: &[u8]) -> (r: Result<Program, ProgramError>)
    ensures
        r is Ok <==> parsed_program(bootloader@, main_entrypoint()) is Some,
        r matches Ok(program) ==> parsed_program(bootloader@, main_entrypoint()) == Some(program),
{
    parse_program(bootloader, Some("main"))
}

} // verus!
