//! The system program, under whose address the host creates accounts.

use crate::pubkey::Pubkey;
use vstd::prelude::*;

verus! {

/// The address of the system program: 32 zero bytes.
pub open spec fn spec_id() -> Pubkey {
    Pubkey(
        [
            0, 0, 0, 0, 0, 0, 0, 0, 0, 0, 0, 0, 0, 0, 0, 0, 0, 0, 0, 0, 0, 0, 0, 0, 0, 0, 0, 0, 0, 0,
            0, 0,
        ],
    )
}

/// The address of the system program.
pub fn id() -> (id: Pubkey)
    ensures
        id == spec_id(),
{
    let id = Pubkey([0u8; 32]);
    assert(id.0 =~= spec_id().0);
    id
}

} // verus!
