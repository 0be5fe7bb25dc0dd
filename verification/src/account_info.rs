//! What the host hands over for each account of an instruction.

use crate::pubkey::Pubkey;
use vstd::prelude::*;

verus! {

/// One account as the host supplies it for the length of one instruction.
/// The buffer belongs to the host; it is borrowed here, never copied.
#[derive(Clone, Copy, Debug)]
pub struct AccountInfo<'a> {
    /// The address of the account.
    pub key: Pubkey,
    /// The balance of the account.
    pub lamports: u64,
    /// The bytes stored in the account; possibly none.
    pub data: &'a [u8],
    /// The program that may change the account.
    pub owner: Pubkey,
    /// Whether the account signed the transaction.
    pub is_signer: bool,
    /// Whether the host lets this instruction write to the account.
    pub is_writable: bool,
}

} // verus!
