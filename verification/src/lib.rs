//! Instruction dispatch and account-state codec of the hello-world program.
//!
//! The host hands the program the bytes of an instruction and a list of
//! accounts. [`processor::process_instruction`] decodes the bytes
//! ([`instruction`]), binds the accounts to the roles of the operation
//! ([`instruction::accounts`]), views the account data as a typed record
//! ([`state`]) and runs the operation ([`processor`]).

pub mod account_info;
pub mod error;
pub mod instruction;
pub mod layout;
mod pod;
pub mod processor;
pub mod pubkey;
pub mod state;
pub mod system_program;

use crate::pubkey::Pubkey;
use vstd::prelude::*;

verus! {

/// The address under which the host knows this program.
pub open spec fn spec_id() -> Pubkey {
    Pubkey(
        [
            4, 67, 131, 224, 50, 101, 212, 51, 250, 217, 205, 163, 164, 159, 182, 252, 54, 67, 244,
            169, 207, 107, 195, 163, 7, 37, 166, 178, 23, 148, 76, 199,
        ],
    )
}

/// The address under which the host knows this program.
pub fn id() -> (id: Pubkey)
    ensures
        id == spec_id(),
{
    let id = Pubkey(
        [
            4, 67, 131, 224, 50, 101, 212, 51, 250, 217, 205, 163, 164, 159, 182, 252, 54, 67, 244,
            169, 207, 107, 195, 163, 7, 37, 166, 178, 23, 148, 76, 199,
        ],
    );
    assert(id.0 =~= spec_id().0);
    id
}

} // verus!
