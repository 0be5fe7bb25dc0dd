//! The addition: its argument record and its handler.

use crate::account_info::AccountInfo;
use crate::error::ProgramError;
use crate::instruction::accounts::HelloWorldAccounts;
use crate::pod;
use crate::state::{HelloWorldAccount, Key};
use vstd::prelude::*;

verus! {

/// The argument record of the addition: one reserved byte, which is zero.
#[derive(Clone, Copy, Debug, PartialEq, Eq, Structural)]
pub struct HelloWorldArgs {
    /// Reserved; zero.
    pub discriminator: u8,
}

impl HelloWorldArgs {
    /// The number of bytes that the record takes in an instruction.
    pub const BASE_LEN: usize = 1;

    /// The record holds what the wire form allows: the reserved byte is
    /// zero.
    pub open spec fn is_valid(self) -> bool {
        self.discriminator == 0
    }

    /// The bytes that store this record.
    pub open spec fn spec_bytes_of(self) -> Seq<u8> {
        seq![self.discriminator]
    }

    /// The record that `bytes` store, or the failure where they store none:
    /// where they are not exactly one byte, or that byte is not zero.
    pub open spec fn spec_try_from_bytes(bytes: Seq<u8>) -> Result<HelloWorldArgs, ProgramError> {
        if bytes.len() == Self::BASE_LEN && bytes[0] == 0 {
            Ok(HelloWorldArgs { discriminator: bytes[0] })
        } else {
            Err(ProgramError::InvalidInstructionData)
        }
    }

    /// The bytes that store this record.
    pub fn bytes_of(&self) -> (bytes: [u8; HelloWorldArgs::BASE_LEN])
        ensures
            bytes@ == self.spec_bytes_of(),
    {
        let bytes = [self.discriminator];
        assert(bytes@ =~= self.spec_bytes_of());
        bytes
    }

    /// Reads the record that `bytes` store.
    pub fn try_from_bytes(bytes: &[u8]) -> (r: Result<HelloWorldArgs, ProgramError>)
        ensures
            r == Self::spec_try_from_bytes(bytes@),
    {
        let cast: Result<&[u8; HelloWorldArgs::BASE_LEN], _> = pod::try_from_bytes(bytes);
        match cast {
            Ok(record) => {
                if record[0] == 0 {
                    Ok(HelloWorldArgs { discriminator: record[0] })
                } else {
                    Err(ProgramError::InvalidInstructionData)
                }
            },
            Err(_) => Err(ProgramError::InvalidInstructionData),
        }
    }
}

/// A valid argument record read back from its own bytes is the record.
pub proof fn lemma_args_round_trip(args: HelloWorldArgs)
    requires
        args.is_valid(),
    ensures
        args.spec_bytes_of().len() == HelloWorldArgs::BASE_LEN,
        HelloWorldArgs::spec_try_from_bytes(args.spec_bytes_of()) == Ok::<
            HelloWorldArgs,
            ProgramError,
        >(args),
{
}

/// The sum that the addition reports: `a + b`, and where that does not fit
/// in 64 bits, what is left of it after taking `2^64` away.
pub open spec fn spec_sum(a: u64, b: u64) -> u64 {
    ((a + b) % 0x1_0000_0000_0000_0000) as u64
}

/// Where `a + b` fits in 64 bits, the sum that is reported is `a + b`.
pub proof fn lemma_sum_exact(a: u64, b: u64)
    requires
        a + b <= u64::MAX,
    ensures
        spec_sum(a, b) == a + b,
{
}

/// What the addition reports on `accounts`: the failure of the first check
/// that fails, in the order binding, length of the record, kind of the
/// record; or else the sum of the record's two numbers.
pub open spec fn spec_hello_world(accounts: Seq<AccountInfo<'_>>) -> Result<u64, ProgramError> {
    match HelloWorldAccounts::spec_context(accounts) {
        Err(e) => Err(e),
        Ok(()) => {
            let data = accounts[1].data@;
            if data.len() != HelloWorldAccount::BASE_LEN {
                Err(ProgramError::InvalidAccountData)
            } else if data[0] != Key::HelloWorldAccount.spec_tag() {
                Err(ProgramError::InvalidAccountData)
            } else {
                let record = HelloWorldAccount::spec_from_bytes(data);
                Ok(spec_sum(record.a, record.b))
            }
        },
    }
}

/// The addition. Binds the accounts, views the second one as a
/// [`HelloWorldAccount`] and reports the sum of its two numbers. The sum
/// wraps around at `2^64`: no pair of numbers makes the addition fail.
/// Nothing is written to any account.
pub fn hello_world<'a>(accounts: &'a [AccountInfo<'a>], _args: &HelloWorldArgs) -> (r: Result<
    u64,
    ProgramError,
>)
    ensures
        r == spec_hello_world(accounts@),
{
    let ctx = HelloWorldAccounts::context(accounts)?;
    let hello_world_account = HelloWorldAccount::view_as(ctx.accounts.hello_world_account.data)?;
    if hello_world_account.key() != u8::from(Key::HelloWorldAccount) {
        return Err(ProgramError::InvalidAccountData);
    }
    let c = hello_world_account.a().wrapping_add(hello_world_account.b());
    Ok(c)
}

/// The addition keeps nothing between two runs. What it reports depends on
/// the number of accounts, the address of the first, and whether the second
/// is writable and which bytes it holds, and on nothing else: with these
/// unchanged it reports the same again. Where it succeeds, what it reports
/// is the sum of the two numbers that those bytes store.
pub proof fn lemma_hello_world_repeatable(
    first: Seq<AccountInfo<'_>>,
    second: Seq<AccountInfo<'_>>,
)
    requires
        first.len() == second.len(),
        first.len() >= 2 ==> {
            &&& first[0].key@ == second[0].key@
            &&& first[1].is_writable == second[1].is_writable
            &&& first[1].data@ == second[1].data@
        },
    ensures
        spec_hello_world(first) == spec_hello_world(second),
        spec_hello_world(first) matches Ok(c) ==> {
            let record = HelloWorldAccount::spec_from_bytes(first[1].data@);
            c == spec_sum(record.a, record.b)
        },
{
}

/// The addition succeeds exactly on accounts that bind and whose record
/// account holds a record of the right length and kind; the numbers in the
/// record never make it fail.
pub proof fn lemma_hello_world_succeeds(accounts: Seq<AccountInfo<'_>>)
    ensures
        spec_hello_world(accounts) is Ok <==> {
            &&& HelloWorldAccounts::spec_context(accounts) is Ok
            &&& accounts[1].data@.len() == HelloWorldAccount::BASE_LEN
            &&& accounts[1].data@[0] == Key::HelloWorldAccount.spec_tag()
        },
{
}

} // verus!
