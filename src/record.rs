//! The stored record: one `u32`, written as four little-endian bytes with no
//! header, and the borsh calls that write and read it.
use vstd::prelude::*;

verus! {

/// Number of bytes the record takes at the front of an account's data.
pub const RECORD_LEN: usize = 4;

/// The four little-endian bytes of `v`, least significant first.
pub open spec fn le_bytes(v: u32) -> Seq<u8> {
    seq![
        (v % 256) as u8,
        ((v / 256) % 256) as u8,
        ((v / 65536) % 256) as u8,
        (v / 16777216) as u8,
    ]
}

/// The unsigned integer whose little-endian bytes are the first four of `b`.
pub open spec fn le_value(b: Seq<u8>) -> int {
    b[0] as int + 256 * (b[1] as int) + 65536 * (b[2] as int) + 16777216 * (b[3] as int)
}

/// A buffer after the record of `v` has been written over its first four bytes.
pub open spec fn with_record(buf: Seq<u8>, v: u32) -> Seq<u8> {
    le_bytes(v) + buf.subrange(4, buf.len() as int)
}

/// Reading the first four bytes of a buffer that holds the record of `v`
/// gives `v` back, whatever follows the record.
pub proof fn lemma_record_round_trip(v: u32, rest: Seq<u8>)
    ensures
        le_value(le_bytes(v) + rest) == v as int,
        (le_bytes(v) + rest).subrange(0, 4) == le_bytes(v),
        le_value((le_bytes(v) + rest).subrange(0, 4)) == v as int,
{
    let s = le_bytes(v) + rest;
    assert(s.subrange(0, 4) =~= le_bytes(v));
    let x = v as int;
    assert(x == x % 256 + 256 * ((x / 256) % 256) + 65536 * ((x / 65536) % 256) + 16777216 * (
    x / 16777216)) by (nonlinear_arith)
        requires
            0 <= x < 0x1_0000_0000,
    ;
}

/// std's I/O error, which the borsh calls below return; it is only mapped to
/// `ProcessError`.
#[verifier::external_type_specification]
#[verifier::external_body]
pub struct ExIoError(std::io::Error);

/// Relies on borsh's `BorshSerialize` for `u32`, which hands `to_le_bytes` to
/// `write_all`; on a `&mut [u8]` that copies into the front of the slice, and
/// fails with `WriteZero` once the slice has no room left.
#[verifier::external_body]
fn borsh_write_u32(v: u32, buf: &mut Vec<u8>) -> (r: Result<(), std::io::Error>)
    ensures
        final(buf)@.len() == old(buf)@.len(),
        r is Ok <==> old(buf)@.len() >= 4,
        r is Ok ==> final(buf)@ == with_record(old(buf)@, v),
{
    borsh::BorshSerialize::serialize(&v, &mut &mut buf[..])
}

/// Relies on borsh's `BorshDeserialize::try_from_slice` for `u32`: it reads four
/// little-endian bytes with `read_exact`, and fails unless the slice held
/// exactly those four.
#[verifier::external_body]
fn borsh_u32_from_slice(b: &[u8]) -> (r: Result<u32, std::io::Error>)
    ensures
        r is Ok <==> b@.len() == 4,
        r is Ok ==> r->Ok_0 as int == le_value(b@),
{
    <u32 as borsh::BorshDeserialize>::try_from_slice(b)
}

/// The state kept in an account: the number drawn by the last invocation.
#[derive(Debug)]
pub struct GreetingAccount {
    pub random_number: u32,
}

impl GreetingAccount {
    /// Writes the record over the first four bytes of `data`, leaving the rest
    /// as it was. A buffer shorter than the record is left untouched and the
    /// call fails.
    pub fn serialize_into(&self, data: &mut Vec<u8>) -> (r: Result<(), crate::ProcessError>)
        ensures
            r is Ok <==> old(data)@.len() >= 4,
            r is Ok ==> final(data)@ == with_record(old(data)@, self.random_number),
            r is Err ==> r == Err::<(), crate::ProcessError>(crate::ProcessError::EncodingError)
                && final(data)@ == old(data)@,
    {
        if data.len() < RECORD_LEN {
            return Err(crate::ProcessError::EncodingError);
        }
        match borsh_write_u32(self.random_number, data) {
            Ok(()) => Ok(()),
            Err(_) => Err(crate::ProcessError::EncodingError),
        }
    }

    /// Reads a record that fills `data` exactly.
    pub fn try_from_slice(data: &[u8]) -> (r: Result<GreetingAccount, crate::ProcessError>)
        ensures
            r is Ok <==> data@.len() == 4,
            r is Ok ==> r->Ok_0.random_number as int == le_value(data@),
            r is Err ==> r == Err::<GreetingAccount, crate::ProcessError>(
                crate::ProcessError::EncodingError,
            ),
    {
        match borsh_u32_from_slice(data) {
            Ok(random_number) => Ok(GreetingAccount { random_number }),
            Err(_) => Err(crate::ProcessError::EncodingError),
        }
    }
}

} // verus!
