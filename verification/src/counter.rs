//! The greeting-counter example: a four-byte little-endian counter stored
//! in an account, incremented once per call.
//!
//! The account codec is the standard little-endian layout of a 32-bit
//! integer, stated directly as arithmetic over the four bytes.

use crate::errors::ProgError;
use crate::game::key_eq;
use vstd::prelude::*;

verus! {

/// The state stored in the greeted account.
#[derive(Debug, Clone, Copy, PartialEq, Eq, Structural)]
pub struct GreetingStruct {
    pub counter: u32,
}

/// The value of four little-endian bytes.
pub open spec fn le32(b: Seq<u8>) -> int
    recommends
        b.len() == 4,
{
    b[0] + b[1] * 0x100 + b[2] * 0x10000 + b[3] * 0x1000000
}

/// Decodes an account buffer into the greeting state: exactly four bytes,
/// little-endian.
pub fn greeting_from_bytes(data: &Vec<u8>) -> (r: Result<GreetingStruct, ProgError>)
    ensures
        data@.len() == 4 ==> (r matches Ok(g) && g.counter as int == le32(data@)),
        data@.len() != 4 ==> r == Err::<GreetingStruct, ProgError>(ProgError::InvalidParameters),
{
    if data.len() != 4 {
        return Err(ProgError::InvalidParameters);
    }
    let counter: u32 = data[0] as u32 + data[1] as u32 * 0x100 + data[2] as u32 * 0x10000 + data[3]
        as u32 * 0x1000000;
    Ok(GreetingStruct { counter })
}

/// Encodes the greeting state back into its four-byte account form.
pub fn greeting_to_bytes(g: &GreetingStruct) -> (r: Vec<u8>)
    ensures
        r@.len() == 4,
        le32(r@) == g.counter as int,
{
    let c = g.counter;
    let b0 = (c % 0x100) as u8;
    let b1 = (c / 0x100 % 0x100) as u8;
    let b2 = (c / 0x10000 % 0x100) as u8;
    let b3 = (c / 0x1000000) as u8;
    let r: Vec<u8> = vec![b0, b1, b2, b3];
    proof {
        assert(le32(r@) == g.counter as int) by {
            assert(r@[0] == (c as int) % 0x100);
            assert(r@[1] == (c as int) / 0x100 % 0x100);
            assert(r@[2] == (c as int) / 0x10000 % 0x100);
            assert(r@[3] == (c as int) / 0x1000000);
        }
    }
    r
}

/// One greeting call: the account must belong to the program; its buffer is
/// decoded, the counter incremented (wrapping at the 32-bit limit, as the
/// on-chain build does), and the new buffer returned for the runtime to
/// store.
pub fn process_instruction(program_id: &[u8; 32], account_owner: &[u8; 32], account_data: &Vec<
    u8,
>) -> (r: Result<Vec<u8>, ProgError>)
    ensures
        *account_owner != *program_id ==> r == Err::<Vec<u8>, ProgError>(
            ProgError::IncorrectProgramId,
        ),
        *account_owner == *program_id && account_data@.len() != 4 ==> r == Err::<Vec<u8>, ProgError>(
            ProgError::InvalidParameters,
        ),
        *account_owner == *program_id && account_data@.len() == 4 ==> (r matches Ok(out)
            && out@.len() == 4 && le32(out@) == (le32(account_data@) + 1) % 0x100000000),
    {
    if !key_eq(account_owner, program_id) {
        return Err(ProgError::IncorrectProgramId);
    }
    let greeting = match greeting_from_bytes(account_data) {
        Ok(g) => g,
        Err(e) => {
            return Err(e);
        },
    };
    let bumped: u32 = if greeting.counter == u32::MAX {
        0
    } else {
        greeting.counter + 1
    };
    let out = greeting_to_bytes(&GreetingStruct { counter: bumped });
    Ok(out)
}

} // verus!
