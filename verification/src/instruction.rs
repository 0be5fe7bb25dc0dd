//! The instructions of the program and their wire form: one byte that names
//! the operation, then the argument record of that operation.

pub mod accounts;

use crate::error::{HelloWorldError, ProgramError};
use crate::processor::HelloWorldArgs;
use vstd::prelude::*;
use vstd::slice::slice_subrange;
use vstd::std_specs::convert::{FromSpecImpl, TryFromSpecImpl};

verus! {

/// An instruction: an operation with its arguments.
#[derive(Clone, Copy, Debug, PartialEq, Eq, Structural)]
pub enum HelloWorldInstruction {
    /// The addition.
    HelloWorld(HelloWorldArgs),
}

/// The operations, as the first byte of an instruction names them.
#[derive(Clone, Copy, Debug, PartialEq, Eq, Structural)]
pub enum HelloWorldInstructionDiscriminants {
    /// The addition: byte 0.
    HelloWorld,
}

impl HelloWorldInstructionDiscriminants {
    /// The byte that names this operation.
    pub open spec fn spec_value(self) -> u8 {
        match self {
            HelloWorldInstructionDiscriminants::HelloWorld => 0,
        }
    }

    /// The operation that `value` names. A byte that names none is refused.
    pub open spec fn spec_from_value(value: u8) -> Result<
        HelloWorldInstructionDiscriminants,
        ProgramError,
    > {
        if value == 0 {
            Ok(HelloWorldInstructionDiscriminants::HelloWorld)
        } else {
            Err(HelloWorldError::InvalidInstruction.spec_program_error())
        }
    }
}

impl FromSpecImpl<HelloWorldInstructionDiscriminants> for u8 {
    open spec fn obeys_from_spec() -> bool {
        true
    }

    open spec fn from_spec(discriminant: HelloWorldInstructionDiscriminants) -> u8 {
        discriminant.spec_value()
    }
}

impl From<HelloWorldInstructionDiscriminants> for u8 {
    fn from(discriminant: HelloWorldInstructionDiscriminants) -> (value: u8) {
        match discriminant {
            HelloWorldInstructionDiscriminants::HelloWorld => 0,
        }
    }
}

impl TryFromSpecImpl<u8> for HelloWorldInstructionDiscriminants {
    open spec fn obeys_try_from_spec() -> bool {
        true
    }

    open spec fn try_from_spec(value: u8) -> Result<
        HelloWorldInstructionDiscriminants,
        ProgramError,
    > {
        HelloWorldInstructionDiscriminants::spec_from_value(value)
    }
}

impl TryFrom<u8> for HelloWorldInstructionDiscriminants {
    type Error = ProgramError;

    fn try_from(value: u8) -> (discriminant: Result<
        HelloWorldInstructionDiscriminants,
        ProgramError,
    >) {
        match value {
            0 => Ok(HelloWorldInstructionDiscriminants::HelloWorld),
            _ => Err(ProgramError::from(HelloWorldError::InvalidInstruction)),
        }
    }
}

impl HelloWorldInstruction {
    /// The operation of this instruction.
    pub open spec fn spec_discriminant(self) -> HelloWorldInstructionDiscriminants {
        match self {
            HelloWorldInstruction::HelloWorld(_) => HelloWorldInstructionDiscriminants::HelloWorld,
        }
    }

    /// The arguments hold what the wire form allows.
    pub open spec fn is_valid(self) -> bool {
        match self {
            HelloWorldInstruction::HelloWorld(args) => args.is_valid(),
        }
    }

    /// The bytes of this instruction: the byte of its operation, then its
    /// argument record.
    pub open spec fn spec_pack(self) -> Seq<u8> {
        match self {
            HelloWorldInstruction::HelloWorld(args) => seq![self.spec_discriminant().spec_value()]
                + args.spec_bytes_of(),
        }
    }

    /// The instruction that `data` spell, or the failure where they spell
    /// none. The first byte is tested first; the bytes after it must be
    /// exactly one valid argument record of the operation.
    pub open spec fn spec_unpack(data: Seq<u8>) -> Result<HelloWorldInstruction, ProgramError> {
        if data.len() == 0 {
            Err(HelloWorldError::InvalidInstruction.spec_program_error())
        } else {
            match HelloWorldInstructionDiscriminants::spec_from_value(data[0]) {
                Err(e) => Err(e),
                Ok(HelloWorldInstructionDiscriminants::HelloWorld) => {
                    match HelloWorldArgs::spec_try_from_bytes(data.skip(1)) {
                        Err(e) => Err(e),
                        Ok(args) => Ok(HelloWorldInstruction::HelloWorld(args)),
                    }
                },
            }
        }
    }

    /// The operation of this instruction.
    pub fn discriminant(&self) -> (discriminant: HelloWorldInstructionDiscriminants)
        ensures
            discriminant == self.spec_discriminant(),
    {
        match self {
            HelloWorldInstruction::HelloWorld(_) => HelloWorldInstructionDiscriminants::HelloWorld,
        }
    }

    /// Decodes an instruction. Either all of `data` is one instruction, or
    /// the decoding fails.
    pub fn unpack(data: &[u8]) -> (r: Result<HelloWorldInstruction, ProgramError>)
        ensures
            r == Self::spec_unpack(data@),
    {
        if data.len() == 0 {
            return Err(ProgramError::from(HelloWorldError::InvalidInstruction));
        }
        match HelloWorldInstructionDiscriminants::try_from(data[0])? {
            HelloWorldInstructionDiscriminants::HelloWorld => {
                let args = HelloWorldArgs::try_from_bytes(slice_subrange(data, 1, data.len()))?;
                Ok(HelloWorldInstruction::HelloWorld(args))
            },
        }
    }

    /// Encodes this instruction.
    pub fn pack(&self) -> (data: Vec<u8>)
        ensures
            data@ == self.spec_pack(),
    {
        let mut data: Vec<u8> = Vec::new();
        data.push(u8::from(self.discriminant()));
        match self {
            HelloWorldInstruction::HelloWorld(args) => {
                data.push(args.discriminator);
            },
        }
        assert(data@ =~= self.spec_pack());
        data
    }
}

/// A first byte that names no operation makes the decoding fail with
/// `InvalidInstruction`, whatever follows it; so does an empty buffer.
pub proof fn lemma_unknown_discriminant_rejected(data: Seq<u8>)
    requires
        data.len() > 0 ==> forall|discriminant: HelloWorldInstructionDiscriminants|
            discriminant.spec_value() != data[0],
    ensures
        HelloWorldInstruction::spec_unpack(data) == Err::<HelloWorldInstruction, _>(
            HelloWorldError::InvalidInstruction.spec_program_error(),
        ),
{
    if data.len() > 0 {
        assert(HelloWorldInstructionDiscriminants::HelloWorld.spec_value() != data[0]);
    }
}

/// Each operation has a byte of its own, and the byte names that operation:
/// the operations and the bytes that are not refused match one to one.
pub proof fn lemma_discriminants_distinct(
    first: HelloWorldInstructionDiscriminants,
    second: HelloWorldInstructionDiscriminants,
    value: u8,
)
    ensures
        first.spec_value() == second.spec_value() ==> first == second,
        HelloWorldInstructionDiscriminants::spec_from_value(first.spec_value()) == Ok::<
            _,
            ProgramError,
        >(first),
        HelloWorldInstructionDiscriminants::spec_from_value(value) matches Ok(discriminant)
            ==> discriminant.spec_value() == value,
{
}

/// A decoded instruction is of the operation that the first byte names, and
/// its bytes are the bytes it was decoded from: nothing is skipped and
/// nothing is left over.
pub proof fn lemma_unpack_exact(data: Seq<u8>)
    ensures
        HelloWorldInstruction::spec_unpack(data) matches Ok(instruction) ==> {
            &&& instruction.is_valid()
            &&& instruction.spec_discriminant().spec_value() == data[0]
            &&& instruction.spec_pack() == data
        },
        HelloWorldInstruction::spec_unpack(data) matches Err(e) ==> e
            == HelloWorldError::InvalidInstruction.spec_program_error() || e
            == ProgramError::InvalidInstructionData,
{
    if let Ok(instruction) = HelloWorldInstruction::spec_unpack(data) {
        assert(instruction.spec_pack() =~= data);
    }
}

/// A valid instruction is decoded from its own bytes.
pub proof fn lemma_unpack_pack(instruction: HelloWorldInstruction)
    requires
        instruction.is_valid(),
    ensures
        HelloWorldInstruction::spec_unpack(instruction.spec_pack()) == Ok::<_, ProgramError>(
            instruction,
        ),
{
    match instruction {
        HelloWorldInstruction::HelloWorld(args) => {
            assert(instruction.spec_pack().skip(1) =~= args.spec_bytes_of());
        },
    }
}

} // verus!
