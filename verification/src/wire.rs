//! Fixed-width little-endian fields, as the account records and the
//! instruction bytes hold them.

use vstd::prelude::*;
use vstd::bytes::{
    lemma_auto_spec_u64_to_from_le_bytes, spec_u64_from_le_bytes, spec_u64_to_le_bytes,
    u64_from_le_bytes, u64_to_le_bytes,
};
use vstd::slice::slice_subrange;
use crate::address::Address;

verus! {

/// The eight bytes of a signed 64-bit value: two's complement, low byte
/// first.
pub open spec fn spec_i64_to_le_bytes(x: i64) -> Seq<u8> {
    spec_u64_to_le_bytes(x as u64)
}

/// The one byte of a flag: 1 for true, 0 for false.
pub open spec fn spec_bool_to_byte(b: bool) -> u8 {
    if b {
        1
    } else {
        0
    }
}

/// The address whose bytes are `bytes`.
pub open spec fn spec_address_from(bytes: Seq<u8>) -> Address
    recommends
        bytes.len() == 32,
{
    choose|a: Address| a@ == bytes
}

/// The unsigned 64-bit field at offset `at`.
pub open spec fn spec_read_u64(bytes: Seq<u8>, at: int) -> u64
    recommends
        0 <= at,
        at + 8 <= bytes.len(),
{
    spec_u64_from_le_bytes(bytes.subrange(at, at + 8))
}

/// The signed 64-bit field at offset `at`.
pub open spec fn spec_read_i64(bytes: Seq<u8>, at: int) -> i64
    recommends
        0 <= at,
        at + 8 <= bytes.len(),
{
    spec_read_u64(bytes, at) as i64
}

/// The address field at offset `at`.
pub open spec fn spec_read_address(bytes: Seq<u8>, at: int) -> Address
    recommends
        0 <= at,
        at + 32 <= bytes.len(),
{
    spec_address_from(bytes.subrange(at, at + 32))
}

/// Thirty-two bytes of which the first `count` are those of `bytes`.
spec fn filled(bytes: Seq<u8>, count: nat) -> [u8; 32]
    decreases count,
{
    if count == 0 {
        vstd::array::spec_array_fill_for_copy_type(0u8)
    } else {
        vstd::array::spec_array_update(
            filled(bytes, (count - 1) as nat),
            count - 1,
            bytes[count - 1],
        )
    }
}

proof fn lemma_filled(bytes: Seq<u8>, count: nat)
    requires
        count <= 32,
        bytes.len() == 32,
    ensures
        forall|i: int| 0 <= i < count ==> filled(bytes, count)@[i] == bytes[i],
    decreases count,
{
    if count > 0 {
        lemma_filled(bytes, (count - 1) as nat);
    }
}

/// Any 32 bytes are the bytes of an address.
pub(crate) proof fn lemma_address_exists(bytes: Seq<u8>)
    requires
        bytes.len() == 32,
    ensures
        spec_address_from(bytes)@ == bytes,
{
    lemma_filled(bytes, 32);
    let witness = Address { bytes: filled(bytes, 32) };
    assert(witness@ =~= bytes);
}

/// An address is the one that its bytes give.
pub(crate) proof fn lemma_address_from_view(a: Address)
    ensures
        spec_address_from(a@) == a,
{
    let b = spec_address_from(a@);
    assert(b@ == a@);
    Address::lemma_view_is_injective(a, b);
}

/// A signed value and its unsigned reading determine each other.
pub(crate) proof fn lemma_i64_u64_casts(x: i64, y: u64)
    ensures
        (x as u64) as i64 == x,
        (y as i64) as u64 == y,
{
    assert((x as u64) as i64 == x) by (bit_vector);
    assert((y as i64) as u64 == y) by (bit_vector);
}

/// Reads the unsigned 64-bit field at offset `at`.
pub(crate) fn read_u64(data: &[u8], at: usize) -> (value: u64)
    requires
        at + 8 <= data@.len(),
    ensures
        value == spec_read_u64(data@, at as int),
{
    let len: usize = data.len();
    u64_from_le_bytes(slice_subrange(data, at, at + 8))
}

/// Reads the signed 64-bit field at offset `at`.
pub(crate) fn read_i64(data: &[u8], at: usize) -> (value: i64)
    requires
        at + 8 <= data@.len(),
    ensures
        value == spec_read_i64(data@, at as int),
{
    read_u64(data, at) as i64
}

/// Reads the address field at offset `at`.
pub(crate) fn read_address(data: &[u8], at: usize) -> (address: Address)
    requires
        at + 32 <= data@.len(),
    ensures
        address == spec_read_address(data@, at as int),
        address@ == data@.subrange(at as int, at + 32),
{
    let len: usize = data.len();
    let mut bytes: [u8; 32] = [0u8; 32];
    let mut i: usize = 0;
    while i < 32
        invariant
            i <= 32,
            at + 32 <= data@.len(),
            data@.len() == len,
            forall|j: int| 0 <= j < i ==> bytes@[j] == data@[at + j],
        decreases 32 - i,
    {
        bytes[i] = data[at + i];
        i += 1;
    }
    let address = Address::new(bytes);
    proof {
        assert(address@ =~= data@.subrange(at as int, at + 32));
        lemma_address_from_view(address);
    }
    address
}

/// Appends the eight bytes of an unsigned 64-bit value.
pub(crate) fn write_u64(out: &mut Vec<u8>, value: u64)
    ensures
        final(out)@ == old(out)@ + spec_u64_to_le_bytes(value),
{
    let mut bytes: Vec<u8> = u64_to_le_bytes(value);
    out.append(&mut bytes);
}

/// Appends the eight bytes of a signed 64-bit value.
pub(crate) fn write_i64(out: &mut Vec<u8>, value: i64)
    ensures
        final(out)@ == old(out)@ + spec_i64_to_le_bytes(value),
{
    write_u64(out, value as u64);
}

/// Appends the 32 bytes of an address.
pub(crate) fn write_address(out: &mut Vec<u8>, address: &Address)
    ensures
        final(out)@ == old(out)@ + address@,
{
    out.extend_from_slice(address.bytes.as_slice());
}

/// Appends the byte of a flag.
pub(crate) fn write_bool(out: &mut Vec<u8>, flag: bool)
    ensures
        final(out)@ == old(out)@ + seq![spec_bool_to_byte(flag)],
{
    let byte: u8 = if flag {
        1
    } else {
        0
    };
    out.push(byte);
    assert(out@ =~= old(out)@ + seq![spec_bool_to_byte(flag)]);
}

/// Reading back what was written gives the value, and eight bytes are
/// written.
pub(crate) proof fn lemma_u64_round_trip(x: u64)
    ensures
        spec_u64_to_le_bytes(x).len() == 8,
        spec_u64_from_le_bytes(spec_u64_to_le_bytes(x)) == x,
{
    lemma_auto_spec_u64_to_from_le_bytes();
}

/// Writing what was read from eight bytes gives those bytes.
pub(crate) proof fn lemma_u64_bytes_round_trip(s: Seq<u8>)
    requires
        s.len() == 8,
    ensures
        spec_u64_to_le_bytes(spec_u64_from_le_bytes(s)) == s,
{
    lemma_auto_spec_u64_to_from_le_bytes();
}

} // verus!
