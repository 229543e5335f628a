//! The program-derived-account example: instruction decoding and the
//! account update.
//!
//! The instruction data is laid out as a function flag, a seed length, the
//! seed bytes, and — for a creation call — a bump byte, with the account
//! size as the buffer's last byte. The seed is kept as raw bytes; address
//! derivation and account allocation work on the bytes alone and belong to
//! the host runtime.

use crate::errors::ProgError;
use crate::game::key_eq;
use vstd::prelude::*;

verus! {

/// The state stored in a word account.
#[derive(Debug, Clone, PartialEq, Eq)]
pub struct StringAccount {
    pub word: String,
}

/// The two calls the program accepts.
#[derive(Debug, Clone, PartialEq, Eq)]
pub enum Instruction {
    /// Allocate the derived account: `seed` and `bump` name it,
    /// `account_size` is its byte size.
    PdaCreate { seed: Vec<u8>, bump: u8, account_size: u8 },
    /// Store the seed's text into the derived account.
    PdaWrite { seed: Vec<u8> },
}

impl Instruction {
    /// Unpacks a byte buffer into an `Instruction`. The buffer must be long
    /// enough to carry the fields its own flag and seed length declare; a
    /// buffer without even those two bytes is rejected, as is an unknown
    /// flag.
    pub fn unpack(input: &Vec<u8>) -> (r: Result<Instruction, ProgError>)
        requires
            input@.len() >= 2 && input@[0] == 0 ==> input@.len() >= input@[1] as int + 3,
            input@.len() >= 2 && input@[0] == 1 ==> input@.len() >= input@[1] as int + 2,
        ensures
            input@.len() < 2 ==> r == Err::<Instruction, ProgError>(ProgError::InvalidParameters),
            input@.len() >= 2 && input@[0] != 0 && input@[0] != 1 ==> r == Err::<
                Instruction,
                ProgError,
            >(ProgError::InvalidFunctionFlag),
            input@.len() >= 2 && input@[0] == 0 ==> (r matches Ok(inst) && inst matches
                Instruction::PdaCreate { seed, bump, account_size } && seed@ == input@.subrange(
                2,
                2 + input@[1] as int,
            ) && bump == input@[2 + input@[1] as int] && account_size == input@[input@.len() - 1]),
            input@.len() >= 2 && input@[0] == 1 ==> (r matches Ok(inst) && inst matches
                Instruction::PdaWrite { seed } && seed@ == input@.subrange(
                2,
                2 + input@[1] as int,
            )),
    {
        if input.len() < 2 {
            return Err(ProgError::InvalidParameters);
        }
        let function_flag = input[0];
        let key_length = input[1];
        if function_flag != 0 && function_flag != 1 {
            return Err(ProgError::InvalidFunctionFlag);
        }
        let k = key_length as usize;
        let mut seed: Vec<u8> = Vec::new();
        let mut t: usize = 0;
        while t < k
            invariant
                t <= k,
                k <= 255,
                input@.len() >= k + 2,
                seed@ == input@.subrange(2, 2 + t as int),
            decreases k - t,
        {
            seed.push(input[2 + t]);
            proof {
                assert(seed@ =~= input@.subrange(2, 2 + t as int + 1));
            }
            t = t + 1;
        }
        if function_flag == 0 {
            let bump = input[2 + k];
            let account_size = input[input.len() - 1];
            Ok(Instruction::PdaCreate { seed, bump, account_size })
        } else {
            Ok(Instruction::PdaWrite { seed })
        }
    }
}

pub struct Processor;

impl Processor {
    /// Decides which call the instruction data is for. The host entrypoint
    /// performs the chosen call — allocation or the word write — on its
    /// accounts.
    pub fn process_program_call(instruction_data: &Vec<u8>) -> (r: Result<Instruction, ProgError>)
        requires
            instruction_data@.len() >= 2 && instruction_data@[0] == 0 ==> instruction_data@.len()
                >= instruction_data@[1] as int + 3,
            instruction_data@.len() >= 2 && instruction_data@[0] == 1 ==> instruction_data@.len()
                >= instruction_data@[1] as int + 2,
        ensures
            instruction_data@.len() < 2 ==> r == Err::<Instruction, ProgError>(
                ProgError::InvalidParameters,
            ),
            instruction_data@.len() >= 2 && instruction_data@[0] != 0 && instruction_data@[0] != 1
                ==> r == Err::<Instruction, ProgError>(ProgError::InvalidFunctionFlag),
            instruction_data@.len() >= 2 && instruction_data@[0] == 0 ==> (r matches Ok(inst)
                && inst matches Instruction::PdaCreate { seed, bump, account_size } && seed@
                == instruction_data@.subrange(2, 2 + instruction_data@[1] as int) && bump
                == instruction_data@[2 + instruction_data@[1] as int] && account_size
                == instruction_data@[instruction_data@.len() - 1]),
            instruction_data@.len() >= 2 && instruction_data@[0] == 1 ==> (r matches Ok(inst)
                && inst matches Instruction::PdaWrite { seed } && seed@
                == instruction_data@.subrange(2, 2 + instruction_data@[1] as int)),
    {
        Instruction::unpack(instruction_data)
    }
}

/// Whether the derived account still needs to be allocated: an account
/// that already holds lamports is left alone.
pub fn pda_needs_creation(lamports: u64) -> (r: bool)
    ensures
        r == (lamports == 0u64),
{
    lamports == 0
}

/// Stores the seed's text into the word account. The account must belong
/// to the running program; otherwise nothing changes.
pub fn write_pda(program_id: &[u8; 32], account_owner: &[u8; 32], word_account: &mut StringAccount, seed: String) -> (r: Result<(), ProgError>)
    ensures
        *account_owner != *program_id ==> r == Err::<(), ProgError>(ProgError::IncorrectProgramId)
            && final(word_account).word == old(word_account).word,
        *account_owner == *program_id ==> r == Ok::<(), ProgError>(()) && final(word_account).word
            == seed,
{
    if !key_eq(account_owner, program_id) {
        return Err(ProgError::IncorrectProgramId);
    }
    word_account.word = seed;
    Ok(())
}

} // verus!
