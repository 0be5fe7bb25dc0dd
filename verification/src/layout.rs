//! Numbers in the fixed record layouts: 64 bits in eight bytes, the lowest
//! byte first.

use vstd::arithmetic::div_mod::lemma_div_denominator;
use vstd::prelude::*;

verus! {

/// The number that eight bytes spell in little-endian order: byte `i` counts
/// `256^i`.
#[verifier::opaque]
pub open spec fn le_u64(bytes: Seq<u8>) -> u64
    recommends
        bytes.len() == 8,
{
    (bytes[0] as int
        + bytes[1] as int * 0x100
        + bytes[2] as int * 0x1_0000
        + bytes[3] as int * 0x100_0000
        + bytes[4] as int * 0x1_0000_0000
        + bytes[5] as int * 0x100_0000_0000
        + bytes[6] as int * 0x1_0000_0000_0000
        + bytes[7] as int * 0x100_0000_0000_0000) as u64
}

/// The eight bytes that spell `x` in little-endian order.
#[verifier::opaque]
pub open spec fn le_bytes(x: u64) -> Seq<u8> {
    seq![
        (x % 0x100) as u8,
        (x / 0x100 % 0x100) as u8,
        (x / 0x1_0000 % 0x100) as u8,
        (x / 0x100_0000 % 0x100) as u8,
        (x / 0x1_0000_0000 % 0x100) as u8,
        (x / 0x100_0000_0000 % 0x100) as u8,
        (x / 0x1_0000_0000_0000 % 0x100) as u8,
        (x / 0x100_0000_0000_0000 % 0x100) as u8,
    ]
}

/// `buffer` with the bytes from `at` on replaced by `part`.
pub open spec fn overwrite(buffer: Seq<u8>, at: int, part: Seq<u8>) -> Seq<u8>
    recommends
        0 <= at,
        at + part.len() <= buffer.len(),
{
    buffer.subrange(0, at) + part + buffer.subrange(at + part.len(), buffer.len() as int)
}

/// Reading back what was written gives the number that was written.
pub proof fn lemma_le_u64_of_le_bytes(x: u64)
    ensures
        le_bytes(x).len() == 8,
        le_u64(le_bytes(x)) == x,
{
    reveal(le_u64);
    reveal(le_bytes);
    let q1 = x as int / 0x100;
    let q2 = q1 / 0x100;
    let q3 = q2 / 0x100;
    let q4 = q3 / 0x100;
    let q5 = q4 / 0x100;
    let q6 = q5 / 0x100;
    let q7 = q6 / 0x100;
    lemma_quotients(x as int);
    assert(q7 < 0x100);
    let s = le_bytes(x);
    assert(s[0] == x as int % 0x100);
    assert(s[1] == q1 % 0x100);
    assert(s[2] == q2 % 0x100);
    assert(s[3] == q3 % 0x100);
    assert(s[4] == q4 % 0x100);
    assert(s[5] == q5 % 0x100);
    assert(s[6] == q6 % 0x100);
    assert(s[7] == q7);
}

/// Dividing by `256^k` is dividing `k` times by 256.
proof fn lemma_quotients(x: int)
    requires
        0 <= x,
    ensures
        x / 0x1_0000 == x / 0x100 / 0x100,
        x / 0x100_0000 == x / 0x100 / 0x100 / 0x100,
        x / 0x1_0000_0000 == x / 0x100 / 0x100 / 0x100 / 0x100,
        x / 0x100_0000_0000 == x / 0x100 / 0x100 / 0x100 / 0x100 / 0x100,
        x / 0x1_0000_0000_0000 == x / 0x100 / 0x100 / 0x100 / 0x100 / 0x100 / 0x100,
        x / 0x100_0000_0000_0000 == x / 0x100 / 0x100 / 0x100 / 0x100 / 0x100 / 0x100 / 0x100,
{
    lemma_div_denominator(x, 0x100, 0x100);
    lemma_div_denominator(x, 0x1_0000, 0x100);
    lemma_div_denominator(x, 0x100_0000, 0x100);
    lemma_div_denominator(x, 0x1_0000_0000, 0x100);
    lemma_div_denominator(x, 0x100_0000_0000, 0x100);
    lemma_div_denominator(x, 0x1_0000_0000_0000, 0x100);
}

/// Writing back what was read gives the bytes that were read.
pub proof fn lemma_le_bytes_of_le_u64(bytes: Seq<u8>)
    requires
        bytes.len() == 8,
    ensures
        le_bytes(le_u64(bytes)) == bytes,
{
    reveal(le_u64);
    reveal(le_bytes);
    let t7 = bytes[7] as int;
    let t6 = bytes[6] as int + t7 * 0x100;
    let t5 = bytes[5] as int + t6 * 0x100;
    let t4 = bytes[4] as int + t5 * 0x100;
    let t3 = bytes[3] as int + t4 * 0x100;
    let t2 = bytes[2] as int + t3 * 0x100;
    let t1 = bytes[1] as int + t2 * 0x100;
    let x = bytes[0] as int + t1 * 0x100;
    assert(x == le_u64(bytes));
    assert(x / 0x100 == t1);
    assert(t1 / 0x100 == t2);
    assert(t2 / 0x100 == t3);
    assert(t3 / 0x100 == t4);
    assert(t4 / 0x100 == t5);
    assert(t5 / 0x100 == t6);
    assert(t6 / 0x100 == t7);
    lemma_quotients(x);
    assert(le_bytes(le_u64(bytes)) =~= bytes);
}

/// Reads the little-endian number stored in the eight bytes from `at` on.
pub(crate) fn read_u64(bytes: &[u8], at: usize) -> (x: u64)
    requires
        at + 8 <= bytes@.len(),
    ensures
        x == le_u64(bytes@.subrange(at as int, at + 8)),
{
    proof {
        reveal(le_u64);
    }
    let b0: u64 = bytes[at] as u64;
    let b1: u64 = bytes[at + 1] as u64;
    let b2: u64 = bytes[at + 2] as u64;
    let b3: u64 = bytes[at + 3] as u64;
    let b4: u64 = bytes[at + 4] as u64;
    let b5: u64 = bytes[at + 5] as u64;
    let b6: u64 = bytes[at + 6] as u64;
    let b7: u64 = bytes[at + 7] as u64;
    b0 + b1 * 0x100 + b2 * 0x1_0000 + b3 * 0x100_0000 + b4 * 0x1_0000_0000 + b5
        * 0x100_0000_0000 + b6 * 0x1_0000_0000_0000 + b7 * 0x100_0000_0000_0000
}

/// Stores `x` in little-endian order in the eight bytes from `at` on and
/// leaves every other byte as it was.
pub(crate) fn write_u64(bytes: &mut [u8], at: usize, x: u64)
    requires
        at + 8 <= old(bytes)@.len(),
    ensures
        final(bytes)@ == overwrite(old(bytes)@, at as int, le_bytes(x)),
{
    bytes[at] = (x % 0x100) as u8;
    bytes[at + 1] = (x / 0x100 % 0x100) as u8;
    bytes[at + 2] = (x / 0x1_0000 % 0x100) as u8;
    bytes[at + 3] = (x / 0x100_0000 % 0x100) as u8;
    bytes[at + 4] = (x / 0x1_0000_0000 % 0x100) as u8;
    bytes[at + 5] = (x / 0x100_0000_0000 % 0x100) as u8;
    bytes[at + 6] = (x / 0x1_0000_0000_0000 % 0x100) as u8;
    bytes[at + 7] = (x / 0x100_0000_0000_0000 % 0x100) as u8;
    proof {
        reveal(le_bytes);
    }
    assert(bytes@ =~= overwrite(old(bytes)@, at as int, le_bytes(x)));
}

} // verus!
