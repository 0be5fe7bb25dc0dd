//! The records that the program keeps in accounts.

pub mod hello_world_account;

pub use hello_world_account::{HelloWorldAccount, HelloWorldAccountMut, HelloWorldAccountRef};

use crate::error::ProgramError;
use vstd::prelude::*;
use vstd::std_specs::convert::{FromSpecImpl, TryFromSpecImpl};

verus! {

/// The kind of record that an account holds. The first byte of every record
/// is the tag of its kind.
#[derive(Clone, Copy, Debug, PartialEq, Eq, Structural)]
pub enum Key {
    /// Nothing was written yet: tag 0.
    Uninitialized,
    /// A [`HelloWorldAccount`]: tag 1.
    HelloWorldAccount,
}

impl Key {
    /// The byte that stands for this kind.
    pub open spec fn spec_tag(self) -> u8 {
        match self {
            Key::Uninitialized => 0,
            Key::HelloWorldAccount => 1,
        }
    }

    /// The kind that `tag` stands for. A byte that is the tag of no kind is
    /// refused as corrupt account data.
    pub open spec fn spec_from_tag(tag: u8) -> Result<Key, ProgramError> {
        if tag == 0 {
            Ok(Key::Uninitialized)
        } else if tag == 1 {
            Ok(Key::HelloWorldAccount)
        } else {
            Err(ProgramError::InvalidAccountData)
        }
    }
}

impl FromSpecImpl<Key> for u8 {
    open spec fn obeys_from_spec() -> bool {
        true
    }

    open spec fn from_spec(key: Key) -> u8 {
        key.spec_tag()
    }
}

impl From<Key> for u8 {
    fn from(key: Key) -> (tag: u8) {
        match key {
            Key::Uninitialized => 0,
            Key::HelloWorldAccount => 1,
        }
    }
}

impl TryFromSpecImpl<u8> for Key {
    open spec fn obeys_try_from_spec() -> bool {
        true
    }

    open spec fn try_from_spec(tag: u8) -> Result<Key, ProgramError> {
        Key::spec_from_tag(tag)
    }
}

impl TryFrom<u8> for Key {
    type Error = ProgramError;

    fn try_from(tag: u8) -> (key: Result<Key, ProgramError>) {
        match tag {
            0 => Ok(Key::Uninitialized),
            1 => Ok(Key::HelloWorldAccount),
            _ => Err(ProgramError::InvalidAccountData),
        }
    }
}

/// A kind and its tag determine each other.
pub proof fn lemma_key_tag_round_trip(key: Key, tag: u8)
    ensures
        Key::spec_from_tag(key.spec_tag()) == Ok::<Key, ProgramError>(key),
        Key::spec_from_tag(tag) matches Ok(k) ==> k.spec_tag() == tag,
        Key::spec_from_tag(tag) is Ok <==> tag <= 1,
{
}

} // verus!
