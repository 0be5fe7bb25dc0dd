//! The dispatcher: from the bytes of an instruction to the handler of its
//! operation.

mod hello_world;

pub use hello_world::{hello_world, spec_hello_world, spec_sum, HelloWorldArgs};
pub use hello_world::{lemma_args_round_trip, lemma_hello_world_repeatable};
pub use hello_world::{lemma_hello_world_succeeds, lemma_sum_exact};

use crate::account_info::AccountInfo;
use crate::error::{HelloWorldError, ProgramError};
use crate::instruction::{lemma_unknown_discriminant_rejected, lemma_unpack_pack};
use crate::instruction::{HelloWorldInstruction, HelloWorldInstructionDiscriminants};
use crate::pubkey::Pubkey;
use vstd::prelude::*;

verus! {

/// What the program reports for an instruction with the bytes
/// `instruction_data` on `accounts`: the failure of the decoding if the
/// bytes are no instruction, else what the handler of the operation
/// reports.
pub open spec fn spec_process_instruction(
    accounts: Seq<AccountInfo<'_>>,
    instruction_data: Seq<u8>,
) -> Result<u64, ProgramError> {
    match HelloWorldInstruction::spec_unpack(instruction_data) {
        Err(e) => Err(e),
        Ok(HelloWorldInstruction::HelloWorld(_)) => spec_hello_world(accounts),
    }
}

/// Runs one instruction: decodes `instruction_data`, and hands the accounts
/// and the arguments to the handler of the operation that it names.
pub fn process_instruction<'a>(
    _program_id: &Pubkey,
    accounts: &'a [AccountInfo<'a>],
    instruction_data: &[u8],
) -> (r: Result<u64, ProgramError>)
    ensures
        r == spec_process_instruction(accounts@, instruction_data@),
{
    match HelloWorldInstruction::unpack(instruction_data)? {
        HelloWorldInstruction::HelloWorld(args) => hello_world(accounts, &args),
    }
}

/// Bytes whose first byte names an operation are run by the handler of that
/// operation and by no other: what the program reports is what that handler
/// reports, unless the bytes after the first are no argument record of the
/// operation.
pub proof fn lemma_dispatch(accounts: Seq<AccountInfo<'_>>, data: Seq<u8>)
    requires
        data.len() > 0,
    ensures
        match HelloWorldInstructionDiscriminants::spec_from_value(data[0]) {
            Ok(HelloWorldInstructionDiscriminants::HelloWorld) => spec_process_instruction(
                accounts,
                data,
            ) == match HelloWorldArgs::spec_try_from_bytes(data.skip(1)) {
                Ok(_) => spec_hello_world(accounts),
                Err(e) => Err(e),
            },
            Err(e) => spec_process_instruction(accounts, data) == Err::<u64, _>(e),
        },
{
}

/// What the program reports on the bytes of a valid instruction is what the
/// handler of its operation reports.
pub proof fn lemma_dispatch_packed(
    accounts: Seq<AccountInfo<'_>>,
    instruction: HelloWorldInstruction,
)
    requires
        instruction.is_valid(),
    ensures
        match instruction {
            HelloWorldInstruction::HelloWorld(_) => spec_process_instruction(
                accounts,
                instruction.spec_pack(),
            ) == spec_hello_world(accounts),
        },
{
    lemma_unpack_pack(instruction);
}

/// No handler runs on bytes whose first byte names no operation: the
/// program reports `InvalidInstruction`, whatever the accounts are.
pub proof fn lemma_unknown_operation_rejected(accounts: Seq<AccountInfo<'_>>, data: Seq<u8>)
    requires
        data.len() > 0 ==> forall|discriminant: HelloWorldInstructionDiscriminants|
            discriminant.spec_value() != data[0],
    ensures
        spec_process_instruction(accounts, data) == Err::<u64, _>(
            HelloWorldError::InvalidInstruction.spec_program_error(),
        ),
{
    lemma_unknown_discriminant_rejected(data);
}

} // verus!
