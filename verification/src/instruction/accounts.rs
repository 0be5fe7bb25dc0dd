//! Binding the accounts of an instruction to the roles that its operation
//! declares.

use crate::account_info::AccountInfo;
use crate::error::{HelloWorldError, ProgramError};
use crate::pubkey::Pubkey;
use crate::system_program;
use vstd::prelude::*;
use vstd::slice::slice_subrange;

verus! {

/// What an operation asks of the account in one position of the list.
#[derive(Clone, Copy, Debug)]
pub struct Role {
    /// The address that the account must have, where the role fixes one.
    pub identity: Option<Pubkey>,
    /// Whether the operation writes to the account.
    pub writable: bool,
}

impl Role {
    /// `account` has the address that the role fixes, if it fixes one.
    pub open spec fn identity_met(self, account: AccountInfo<'_>) -> bool {
        self.identity matches Some(key) ==> account.key@ == key@
    }

    /// The host lets the instruction write to `account`, if the role writes.
    pub open spec fn mutability_met(self, account: AccountInfo<'_>) -> bool {
        self.writable ==> account.is_writable
    }

    /// `account` can be bound to the role.
    pub open spec fn met_by(self, account: AccountInfo<'_>) -> bool {
        self.identity_met(account) && self.mutability_met(account)
    }
}

/// Whether `accounts` can be bound to `roles`, position by position, and the
/// failure if they cannot. Accounts beyond the last role are not looked at.
pub open spec fn spec_check_shape(accounts: Seq<AccountInfo<'_>>, roles: Seq<Role>) -> Result<
    (),
    ProgramError,
> {
    if accounts.len() < roles.len() {
        Err(ProgramError::NotEnoughAccountKeys)
    } else if exists|i: int| 0 <= i < roles.len() && !#[trigger] roles[i].met_by(accounts[i]) {
        Err(HelloWorldError::InvalidAccount.spec_program_error())
    } else {
        Ok(())
    }
}

/// Checks `accounts` against `roles`: first that there are enough of them,
/// then each role's address, then each role's write access.
pub fn check_shape(accounts: &[AccountInfo<'_>], roles: &[Role]) -> (r: Result<(), ProgramError>)
    ensures
        r == spec_check_shape(accounts@, roles@),
{
    if accounts.len() < roles.len() {
        return Err(ProgramError::NotEnoughAccountKeys);
    }
    let mut i: usize = 0;
    while i < roles.len()
        invariant
            i <= roles@.len() <= accounts@.len(),
            forall|j: int| 0 <= j < i ==> (#[trigger] roles@[j]).identity_met(accounts@[j]),
        decreases roles@.len() - i,
    {
        match roles[i].identity {
            Some(key) => {
                if accounts[i].key != key {
                    assert(!roles@[i as int].met_by(accounts@[i as int]));
                    return Err(ProgramError::from(HelloWorldError::InvalidAccount));
                }
            },
            None => {},
        }
        i += 1;
    }
    let mut i: usize = 0;
    while i < roles.len()
        invariant
            i <= roles@.len() <= accounts@.len(),
            forall|j: int| 0 <= j < roles@.len() ==> (#[trigger] roles@[j]).identity_met(accounts@[j]),
            forall|j: int| 0 <= j < i ==> (#[trigger] roles@[j]).mutability_met(accounts@[j]),
        decreases roles@.len() - i,
    {
        if roles[i].writable && !accounts[i].is_writable {
            assert(!roles@[i as int].met_by(accounts@[i as int]));
            return Err(ProgramError::from(HelloWorldError::InvalidAccount));
        }
        i += 1;
    }
    Ok(())
}

/// The accounts of an instruction, bound by name, and those left over.
pub struct Context<'a, T> {
    /// The accounts that the operation declares, by name.
    pub accounts: T,
    /// The accounts after the last declared one, in their order.
    pub remaining_accounts: &'a [AccountInfo<'a>],
}

/// The accounts of the addition: the system program first, then the account
/// that holds the record, to which the instruction must be let to write.
pub struct HelloWorldAccounts<'a> {
    /// The system program.
    pub system_program: &'a AccountInfo<'a>,
    /// The account that holds the [`crate::state::HelloWorldAccount`].
    pub hello_world_account: &'a AccountInfo<'a>,
}

impl<'a> HelloWorldAccounts<'a> {
    /// The roles of the addition, in the order of its accounts.
    pub open spec fn spec_roles() -> Seq<Role> {
        seq![
            Role { identity: Some(system_program::spec_id()), writable: false },
            Role { identity: None, writable: true },
        ]
    }

    /// Whether `accounts` can be bound to the roles of the addition, and the
    /// failure if they cannot.
    pub open spec fn spec_context(accounts: Seq<AccountInfo<'_>>) -> Result<(), ProgramError> {
        if accounts.len() < 2 {
            Err(ProgramError::NotEnoughAccountKeys)
        } else if accounts[0].key@ != system_program::spec_id()@ || !accounts[1].is_writable {
            Err(HelloWorldError::InvalidAccount.spec_program_error())
        } else {
            Ok(())
        }
    }

    /// Binds `accounts` to the roles of the addition. The bindings are
    /// references into `accounts`.
    pub fn context(accounts: &'a [AccountInfo<'a>]) -> (r: Result<
        Context<'a, HelloWorldAccounts<'a>>,
        ProgramError,
    >)
        ensures
            match r {
                Ok(ctx) => {
                    &&& Self::spec_context(accounts@) is Ok
                    &&& *ctx.accounts.system_program == accounts@[0]
                    &&& *ctx.accounts.hello_world_account == accounts@[1]
                    &&& ctx.remaining_accounts@ == accounts@.skip(2)
                },
                Err(e) => Self::spec_context(accounts@) == Err::<(), ProgramError>(e),
            },
    {
        let roles = [
            Role { identity: Some(system_program::id()), writable: false },
            Role { identity: None, writable: true },
        ];
        proof {
            assert(roles@ =~= Self::spec_roles());
            lemma_hello_world_shape(accounts@);
        }
        match check_shape(accounts, roles.as_slice()) {
            Ok(()) => Ok(
                Context {
                    accounts: HelloWorldAccounts {
                        system_program: &accounts[0],
                        hello_world_account: &accounts[1],
                    },
                    remaining_accounts: slice_subrange(accounts, 2, accounts.len()),
                },
            ),
            Err(e) => Err(e),
        }
    }
}

/// The roles of the addition ask that there are two accounts, that the first
/// has the address of the system program and that the second is writable.
pub proof fn lemma_hello_world_shape(accounts: Seq<AccountInfo<'_>>)
    ensures
        spec_check_shape(accounts, HelloWorldAccounts::spec_roles())
            == HelloWorldAccounts::spec_context(accounts),
{
    let roles = HelloWorldAccounts::spec_roles();
    if accounts.len() >= 2 {
        assert(roles[0].met_by(accounts[0]) <==> accounts[0].key@ == system_program::spec_id()@);
        assert(roles[1].met_by(accounts[1]) <==> accounts[1].is_writable);
    }
}

/// `accounts` with its first two entries in each other's place.
pub open spec fn swap_first_two<'a>(accounts: Seq<AccountInfo<'a>>) -> Seq<AccountInfo<'a>>
    recommends
        accounts.len() >= 2,
{
    accounts.update(0, accounts[1]).update(1, accounts[0])
}

/// Accounts in the wrong order are refused, not bound to the wrong roles:
/// where a list binds to the roles of the addition, the list with the two
/// in each other's place fails with `InvalidAccount`. The lists for which
/// the other order is as good as the first are left out: those whose second
/// account has the address of the system program while the first is
/// writable.
pub proof fn lemma_swapped_accounts_rejected(accounts: Seq<AccountInfo<'_>>)
    requires
        HelloWorldAccounts::spec_context(accounts) is Ok,
        accounts[1].key@ != system_program::spec_id()@ || !accounts[0].is_writable,
    ensures
        HelloWorldAccounts::spec_context(swap_first_two(accounts)) == Err::<(), ProgramError>(
            HelloWorldError::InvalidAccount.spec_program_error(),
        ),
{
}

/// Accounts after the declared ones do not change the outcome of binding.
pub proof fn lemma_trailing_accounts_ignored(accounts: Seq<AccountInfo<'_>>, more: Seq<AccountInfo<'_>>)
    requires
        accounts.len() >= 2,
    ensures
        HelloWorldAccounts::spec_context(accounts + more) == HelloWorldAccounts::spec_context(
            accounts,
        ),
{
}

} // verus!
