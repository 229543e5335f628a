//! Instruction decoding and dispatch for the two-function example program.
//!
//! The first byte of the instruction data is a function flag that selects
//! which of the program's two functions the call is for.

use crate::errors::ProgError;
use vstd::prelude::*;

verus! {

/// The two functions the program exposes.
#[derive(Debug, Clone, Copy, PartialEq, Eq, Structural)]
pub enum Instruction {
    FunctionA,
    FunctionB,
}

/// What decoding a byte buffer yields: flag `0` selects `FunctionA`,
/// flag `1` selects `FunctionB`, an empty buffer carries no parameters,
/// and any other flag is unknown.
pub open spec fn unpack_result(input: Seq<u8>) -> Result<Instruction, ProgError> {
    if input.len() == 0 {
        Err(ProgError::InvalidParameters)
    } else if input[0] == 0 {
        Ok(Instruction::FunctionA)
    } else if input[0] == 1 {
        Ok(Instruction::FunctionB)
    } else {
        Err(ProgError::InvalidFunctionFlag)
    }
}

impl Instruction {
    /// Unpacks a byte buffer into an `Instruction`.
    pub fn unpack(input: &Vec<u8>) -> (r: Result<Instruction, ProgError>)
        ensures
            r == unpack_result(input@),
    {
        if input.len() == 0 {
            return Err(ProgError::InvalidParameters);
        }
        let function_flag = input[0];
        if function_flag == 0 {
            Ok(Instruction::FunctionA)
        } else if function_flag == 1 {
            Ok(Instruction::FunctionB)
        } else {
            Err(ProgError::InvalidFunctionFlag)
        }
    }
}

pub struct Processor;

impl Processor {
    /// Decides which function a program call is for. The host entrypoint
    /// performs the chosen function on its accounts; the decision itself is
    /// exactly the decoded instruction.
    pub fn process_program_call(instruction_data: &Vec<u8>) -> (r: Result<Instruction, ProgError>)
        ensures
            r == unpack_result(instruction_data@),
    {
        Instruction::unpack(instruction_data)
    }
}

} // verus!
