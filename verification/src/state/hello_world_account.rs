//! The record of the addition: its layout and the typed views over a buffer
//! that holds it.

use crate::error::ProgramError;
use crate::layout::{le_bytes, le_u64, overwrite, read_u64, write_u64};
use crate::layout::{lemma_le_bytes_of_le_u64, lemma_le_u64_of_le_bytes};
use crate::pod;
use crate::state::Key;
use vstd::prelude::*;

verus! {

/// The record of the addition. In an account it takes
/// [`HelloWorldAccount::BASE_LEN`] bytes: the tag of its kind at 0, seven
/// bytes of padding at 1, `a` at 8 and `b` at 16, both little-endian.
#[derive(Clone, Copy, Debug)]
pub struct HelloWorldAccount {
    /// The tag of the record's kind.
    pub key: u8,
    /// Fills the space up to the first number. Writers store zeros here;
    /// readers hand on what they find.
    pub padding: [u8; 7],
    /// The first summand.
    pub a: u64,
    /// The second summand.
    pub b: u64,
}

impl HelloWorldAccount {
    /// The number of bytes that the record takes in an account.
    pub const BASE_LEN: usize = 24;

    /// The bytes that store this record.
    pub open spec fn spec_bytes_of(self) -> Seq<u8> {
        seq![self.key] + self.padding@ + le_bytes(self.a) + le_bytes(self.b)
    }

    /// The record that `bytes` store.
    pub open spec fn spec_from_bytes(bytes: Seq<u8>) -> HelloWorldAccount
        recommends
            bytes.len() == Self::BASE_LEN,
    {
        HelloWorldAccount {
            key: bytes[0],
            padding: [bytes[1], bytes[2], bytes[3], bytes[4], bytes[5], bytes[6], bytes[7]],
            a: le_u64(bytes.subrange(8, 16)),
            b: le_u64(bytes.subrange(16, 24)),
        }
    }

    /// The bytes that store this record.
    pub fn bytes_of(&self) -> (bytes: [u8; HelloWorldAccount::BASE_LEN])
        ensures
            bytes@ == self.spec_bytes_of(),
    {
        let mut bytes = [0u8; HelloWorldAccount::BASE_LEN];
        bytes[0] = self.key;
        bytes[1] = self.padding[0];
        bytes[2] = self.padding[1];
        bytes[3] = self.padding[2];
        bytes[4] = self.padding[3];
        bytes[5] = self.padding[4];
        bytes[6] = self.padding[5];
        bytes[7] = self.padding[6];
        write_u64(&mut bytes, 8, self.a);
        write_u64(&mut bytes, 16, self.b);
        proof {
            lemma_le_u64_of_le_bytes(self.a);
            lemma_le_u64_of_le_bytes(self.b);
        }
        assert(bytes@ =~= self.spec_bytes_of());
        bytes
    }

    /// The record with the kind [`Key::HelloWorldAccount`], zero padding and
    /// the two numbers `a` and `b`.
    pub fn new(a: u64, b: u64) -> (record: HelloWorldAccount)
        ensures
            record.key == Key::HelloWorldAccount.spec_tag(),
            record.padding@ == Seq::new(7, |i: int| 0u8),
            record.a == a,
            record.b == b,
    {
        let record = HelloWorldAccount {
            key: u8::from(Key::HelloWorldAccount),
            padding: [0u8; 7],
            a,
            b,
        };
        assert(record.padding@ =~= Seq::new(7, |i: int| 0u8));
        record
    }

    /// The record that a buffer with the bytes `buffer` is viewed as, or the
    /// failure where it cannot be viewed: where it has any other length than
    /// [`HelloWorldAccount::BASE_LEN`]. No byte of the buffer is tested.
    pub open spec fn spec_view_as(buffer: Seq<u8>) -> Result<HelloWorldAccount, ProgramError> {
        if buffer.len() != Self::BASE_LEN {
            Err(ProgramError::InvalidAccountData)
        } else {
            Ok(Self::spec_from_bytes(buffer))
        }
    }

    /// A read view of the record that `buffer` stores. The view is the
    /// buffer itself, typed; nothing is copied. A buffer of any other length
    /// than [`HelloWorldAccount::BASE_LEN`] stores no record and is refused.
    pub fn view_as(buffer: &[u8]) -> (r: Result<HelloWorldAccountRef<'_>, ProgramError>)
        ensures
            buffer@.len() != Self::BASE_LEN ==> r == Err::<HelloWorldAccountRef<'_>, _>(
                ProgramError::InvalidAccountData,
            ),
            match r {
                Ok(view) => view.bytes@ == buffer@ && Self::spec_view_as(buffer@) == Ok::<
                    _,
                    ProgramError,
                >(view@),
                Err(e) => Self::spec_view_as(buffer@) == Err::<HelloWorldAccount, _>(e),
            },
    {
        match pod::try_from_bytes(buffer) {
            Ok(bytes) => Ok(HelloWorldAccountRef { bytes }),
            Err(_) => Err(ProgramError::InvalidAccountData),
        }
    }

    /// A read-write view of the record that `buffer` stores. The view is the
    /// buffer itself, typed: what is written through the view is written to
    /// the buffer, and the buffer holds in the end what the view holds in
    /// the end. A buffer of any other length than
    /// [`HelloWorldAccount::BASE_LEN`] is refused and left as it was.
    pub fn view_as_mut(buffer: &mut [u8]) -> (r: Result<HelloWorldAccountMut<'_>, ProgramError>)
        ensures
            old(buffer)@.len() != Self::BASE_LEN ==> r == Err::<HelloWorldAccountMut<'_>, _>(
                ProgramError::InvalidAccountData,
            ),
            match r {
                Ok(view) => {
                    &&& view.bytes@ == old(buffer)@
                    &&& Self::spec_view_as(old(buffer)@) == Ok::<_, ProgramError>(view@)
                    &&& final(buffer)@ == final(view.bytes)@
                },
                Err(e) => {
                    &&& Self::spec_view_as(old(buffer)@) == Err::<HelloWorldAccount, _>(e)
                    &&& final(buffer)@ == old(buffer)@
                },
            },
    {
        match pod::try_from_bytes_mut(buffer) {
            Ok(bytes) => Ok(HelloWorldAccountMut { bytes }),
            Err(_) => Err(ProgramError::InvalidAccountData),
        }
    }
}

/// A buffer that holds the bytes of a record is viewed as that record,
/// whatever the record's fields hold: every field reads as it was written.
pub proof fn lemma_record_round_trip(record: HelloWorldAccount)
    ensures
        record.spec_bytes_of().len() == HelloWorldAccount::BASE_LEN,
        HelloWorldAccount::spec_from_bytes(record.spec_bytes_of()) == record,
        HelloWorldAccount::spec_view_as(record.spec_bytes_of()) == Ok::<_, ProgramError>(record),
{
    let bytes = record.spec_bytes_of();
    let back = HelloWorldAccount::spec_from_bytes(bytes);
    lemma_le_u64_of_le_bytes(record.a);
    lemma_le_u64_of_le_bytes(record.b);
    assert(bytes.subrange(8, 16) =~= le_bytes(record.a));
    assert(bytes.subrange(16, 24) =~= le_bytes(record.b));
    assert(back.padding =~= record.padding);
}

/// The bytes of the record that a buffer stores are the buffer's bytes: the
/// layout leaves no byte out and reads none twice.
pub proof fn lemma_bytes_round_trip(bytes: Seq<u8>)
    requires
        bytes.len() == HelloWorldAccount::BASE_LEN,
    ensures
        HelloWorldAccount::spec_from_bytes(bytes).spec_bytes_of() == bytes,
{
    lemma_le_bytes_of_le_u64(bytes.subrange(8, 16));
    lemma_le_bytes_of_le_u64(bytes.subrange(16, 24));
    assert(HelloWorldAccount::spec_from_bytes(bytes).spec_bytes_of() =~= bytes);
}

/// A read-write view of a [`HelloWorldAccount`] over the buffer that stores
/// it. Its view is the record that the bytes spell now.
pub struct HelloWorldAccountMut<'a> {
    /// The buffer, known to have the record's length.
    pub bytes: &'a mut [u8; HelloWorldAccount::BASE_LEN],
}

impl<'a> View for HelloWorldAccountMut<'a> {
    type V = HelloWorldAccount;

    open spec fn view(&self) -> HelloWorldAccount {
        HelloWorldAccount::spec_from_bytes(self.bytes@)
    }
}

impl<'a> HelloWorldAccountMut<'a> {
    /// The bytes that the buffer holds now.
    pub open spec fn spec_bytes(&self) -> Seq<u8> {
        self.bytes@
    }

    /// A read view of the same buffer, for as long as nothing is written.
    pub fn as_ref(&self) -> (view: HelloWorldAccountRef<'_>)
        ensures
            view.bytes@ == self.spec_bytes(),
            view@ == self@,
    {
        HelloWorldAccountRef { bytes: &*self.bytes }
    }

    /// The tag of the record's kind.
    pub fn key(&self) -> (key: u8)
        ensures
            key == self@.key,
    {
        self.as_ref().key()
    }

    /// The padding as it is stored.
    pub fn padding(&self) -> (padding: [u8; 7])
        ensures
            padding == self@.padding,
    {
        self.as_ref().padding()
    }

    /// The first summand.
    pub fn a(&self) -> (a: u64)
        ensures
            a == self@.a,
    {
        self.as_ref().a()
    }

    /// The second summand.
    pub fn b(&self) -> (b: u64)
        ensures
            b == self@.b,
    {
        self.as_ref().b()
    }

    /// The whole record, copied out of the buffer.
    pub fn get(&self) -> (record: HelloWorldAccount)
        ensures
            record == self@,
    {
        self.as_ref().get()
    }

    /// Stores `record` in the buffer, every byte of it.
    pub fn set(&mut self, record: &HelloWorldAccount)
        ensures
            final(self).bytes@ == record.spec_bytes_of(),
            final(self)@ == *record,
            final(final(self).bytes)@ == final(old(self).bytes)@,
    {
        *self.bytes = record.bytes_of();
        proof {
            lemma_record_round_trip(*record);
        }
    }

    /// Stores `key` as the tag, in the buffer's first byte, and nothing
    /// else.
    pub fn set_key(&mut self, key: u8)
        ensures
            final(self).bytes@ == old(self).bytes@.update(0, key),
            final(self)@ == (HelloWorldAccount { key, ..old(self)@ }),
            final(final(self).bytes)@ == final(old(self).bytes)@,
    {
        self.bytes[0] = key;
        assert(self@.padding =~= old(self)@.padding);
        assert(self.bytes@.subrange(8, 16) =~= old(self).bytes@.subrange(8, 16));
        assert(self.bytes@.subrange(16, 24) =~= old(self).bytes@.subrange(16, 24));
    }

    /// Stores `a` as the first summand, in the buffer's bytes 8 to 15, and
    /// nothing else.
    pub fn set_a(&mut self, a: u64)
        ensures
            final(self).bytes@ == overwrite(old(self).bytes@, 8, le_bytes(a)),
            final(self)@ == (HelloWorldAccount { a, ..old(self)@ }),
            final(final(self).bytes)@ == final(old(self).bytes)@,
    {
        write_u64(self.bytes, 8, a);
        proof {
            lemma_le_u64_of_le_bytes(a);
            assert(self@.padding =~= old(self)@.padding);
            assert(self.bytes@.subrange(8, 16) =~= le_bytes(a));
            assert(self.bytes@.subrange(16, 24) =~= old(self).bytes@.subrange(16, 24));
        }
    }

    /// Stores `b` as the second summand, in the buffer's bytes 16 to 23, and
    /// nothing else.
    pub fn set_b(&mut self, b: u64)
        ensures
            final(self).bytes@ == overwrite(old(self).bytes@, 16, le_bytes(b)),
            final(self)@ == (HelloWorldAccount { b, ..old(self)@ }),
            final(final(self).bytes)@ == final(old(self).bytes)@,
    {
        write_u64(self.bytes, 16, b);
        proof {
            lemma_le_u64_of_le_bytes(b);
            assert(self@.padding =~= old(self)@.padding);
            assert(self.bytes@.subrange(8, 16) =~= old(self).bytes@.subrange(8, 16));
            assert(self.bytes@.subrange(16, 24) =~= le_bytes(b));
        }
    }
}

/// A read view of a [`HelloWorldAccount`] over the buffer that stores it.
/// Its view is the record that the bytes spell.
#[derive(Clone, Copy, Debug)]
pub struct HelloWorldAccountRef<'a> {
    /// The buffer, known to have the record's length.
    pub bytes: &'a [u8; HelloWorldAccount::BASE_LEN],
}

impl<'a> View for HelloWorldAccountRef<'a> {
    type V = HelloWorldAccount;

    open spec fn view(&self) -> HelloWorldAccount {
        HelloWorldAccount::spec_from_bytes(self.bytes@)
    }
}

impl<'a> HelloWorldAccountRef<'a> {
    /// The tag of the record's kind.
    pub fn key(&self) -> (key: u8)
        ensures
            key == self@.key,
    {
        self.bytes[0]
    }

    /// The padding as it is stored.
    pub fn padding(&self) -> (padding: [u8; 7])
        ensures
            padding == self@.padding,
    {
        let padding = [
            self.bytes[1],
            self.bytes[2],
            self.bytes[3],
            self.bytes[4],
            self.bytes[5],
            self.bytes[6],
            self.bytes[7],
        ];
        assert(padding =~= self@.padding);
        padding
    }

    /// The first summand.
    pub fn a(&self) -> (a: u64)
        ensures
            a == self@.a,
    {
        read_u64(self.bytes, 8)
    }

    /// The second summand.
    pub fn b(&self) -> (b: u64)
        ensures
            b == self@.b,
    {
        read_u64(self.bytes, 16)
    }

    /// The whole record, copied out of the buffer.
    pub fn get(&self) -> (record: HelloWorldAccount)
        ensures
            record == self@,
    {
        HelloWorldAccount { key: self.key(), padding: self.padding(), a: self.a(), b: self.b() }
    }
}

} // verus!
