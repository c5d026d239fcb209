//! Integers as the bytes this machine holds them in.
//!
//! TIPC puts its integers on the wire in the byte order of the host. What that
//! order is, is left to `vstd::endian::endianness`; the values are stated for
//! either order.

use vstd::endian::{endianness, Endian};
use vstd::prelude::*;

verus! {

/// The number that `b` spells with its first byte lowest.
pub open spec fn le_value(b: Seq<u8>) -> nat
    decreases b.len(),
{
    if b.len() == 0 {
        0
    } else {
        b[0] as nat + 256 * le_value(b.drop_first())
    }
}

/// The number that `b` spells in the byte order of this machine.
pub open spec fn ne_value(b: Seq<u8>) -> nat {
    match endianness() {
        Endian::Little => le_value(b),
        Endian::Big => le_value(b.reverse()),
    }
}

/// Bytes of one length that spell the same number, first byte lowest, are
/// the same bytes.
pub proof fn lemma_le_value_same(a: Seq<u8>, b: Seq<u8>)
    requires
        a.len() == b.len(),
        le_value(a) == le_value(b),
    ensures
        a == b,
    decreases a.len(),
{
    if a.len() > 0 {
        lemma_le_value_same(a.drop_first(), b.drop_first());
        assert forall|i: int| 0 <= i < a.len() implies a[i] == b[i] by {
            if i > 0 {
                assert(a[i] == a.drop_first()[i - 1]);
                assert(b[i] == b.drop_first()[i - 1]);
            }
        }
    }
    assert(a =~= b);
}

/// Bytes of one length that spell the same number in the byte order of this
/// machine are the same bytes.
pub proof fn lemma_ne_value_same(a: Seq<u8>, b: Seq<u8>)
    requires
        a.len() == b.len(),
        ne_value(a) == ne_value(b),
    ensures
        a == b,
{
    match endianness() {
        Endian::Little => {
            lemma_le_value_same(a, b);
        },
        Endian::Big => {
            lemma_le_value_same(a.reverse(), b.reverse());
            assert forall|i: int| 0 <= i < a.len() implies a[i] == b[i] by {
                assert(a[i] == a.reverse()[a.len() - 1 - i]);
                assert(b[i] == b.reverse()[b.len() - 1 - i]);
            }
            assert(a =~= b);
        },
    }
}

/// `u32::from_ne_bytes`: the number that four bytes spell in the byte order
/// of this machine.
#[verifier::external_body]
pub(crate) fn u32_from_ne_bytes(b: [u8; 4]) -> (r: u32)
    ensures
        r == ne_value(b@),
{
    u32::from_ne_bytes(b)
}

/// `u64::from_ne_bytes`: the number that eight bytes spell in the byte order
/// of this machine.
#[verifier::external_body]
pub(crate) fn u64_from_ne_bytes(b: [u8; 8]) -> (r: u64)
    ensures
        r == ne_value(b@),
{
    u64::from_ne_bytes(b)
}

/// `u64::to_ne_bytes`: the eight bytes that spell `x` in the byte order of
/// this machine.
#[verifier::external_body]
pub(crate) fn u64_to_ne_bytes(x: u64) -> (r: [u8; 8])
    ensures
        ne_value(r@) == x,
{
    x.to_ne_bytes()
}

/// The number spelled by the four bytes of `data` that start at `at`.
pub(crate) fn read_u32(data: &[u8], at: usize) -> (r: u32)
    requires
        at + 4 <= data.len(),
    ensures
        r == ne_value(data@.subrange(at as int, at + 4)),
{
    let b: [u8; 4] = [data[at], data[at + 1], data[at + 2], data[at + 3]];
    proof {
        assert(b@ =~= data@.subrange(at as int, at + 4));
    }
    u32_from_ne_bytes(b)
}

} // verus!
