//! Random bytes from the operating system.

use vstd::prelude::*;

verus! {

/// The operating system's random source could not deliver.
#[derive(Clone, Copy, Debug, PartialEq, Eq, Structural)]
pub struct RngError;

/// A cryptographically secure random number generator backed by the
/// operating system.
#[derive(Clone, Copy, Debug, Default)]
pub struct GetRandomRng;

/// Calls `getrandom::fill`, which overwrites the whole buffer with bytes from
/// the operating system's random source or reports that it could not. The
/// contract claims only that the buffer keeps its length; nothing is claimed
/// of the bytes themselves.
#[verifier::external_body]
fn os_fill(dest: &mut [u8]) -> (ok: bool)
    ensures
        final(dest)@.len() == old(dest)@.len(),
{
    getrandom::fill(dest).is_ok()
}

/// The integer whose little-endian representation is the given four bytes:
/// the first byte is the least significant.
pub fn u32_from_le(bytes: [u8; 4]) -> (r: u32)
    ensures
        r == vstd::bytes::spec_u32_from_le_bytes(bytes@),
{
    vstd::bytes::u32_from_le_bytes(bytes.as_slice())
}

/// The integer whose little-endian representation is the given eight
/// bytes: the first byte is the least significant.
pub fn u64_from_le(bytes: [u8; 8]) -> (r: u64)
    ensures
        r == vstd::bytes::spec_u64_from_le_bytes(bytes@),
{
    vstd::bytes::u64_from_le_bytes(bytes.as_slice())
}

impl GetRandomRng {
    /// Overwrites `dest` with random bytes. On failure the contents of `dest`
    /// are unspecified and must not be used.
    pub fn fill_bytes(&mut self, dest: &mut [u8]) -> (r: Result<(), RngError>)
        ensures
            final(dest)@.len() == old(dest)@.len(),
    {
        if os_fill(dest) {
            Ok(())
        } else {
            Err(RngError)
        }
    }

    /// A random 32-bit integer: four bytes are drawn, and the integer is
    /// the one that `u32_from_le` makes of them.
    pub fn next_u32(&mut self) -> (r: Result<u32, RngError>)
        ensures
            r matches Ok(value) ==> exists|bytes: Seq<u8>|
                bytes.len() == 4 && value == #[trigger] vstd::bytes::spec_u32_from_le_bytes(bytes),
    {
        let mut bytes = [0u8; 4];
        match self.fill_bytes(&mut bytes) {
            Ok(()) => Ok(u32_from_le(bytes)),
            Err(e) => Err(e),
        }
    }

    /// A random 64-bit integer: eight bytes are drawn, and the integer is
    /// the one that `u64_from_le` makes of them.
    pub fn next_u64(&mut self) -> (r: Result<u64, RngError>)
        ensures
            r matches Ok(value) ==> exists|bytes: Seq<u8>|
                bytes.len() == 8 && value == #[trigger] vstd::bytes::spec_u64_from_le_bytes(bytes),
    {
        let mut bytes = [0u8; 8];
        match self.fill_bytes(&mut bytes) {
            Ok(()) => Ok(u64_from_le(bytes)),
            Err(e) => Err(e),
        }
    }

    /// `len` random bytes.
    pub fn random_bytes(&mut self, len: usize) -> (r: Result<Vec<u8>, RngError>)
        ensures
            r matches Ok(bytes) ==> bytes@.len() == len,
    {
        let mut bytes: Vec<u8> = vec![0u8; len];
        match self.fill_bytes(&mut bytes) {
            Ok(()) => Ok(bytes),
            Err(e) => Err(e),
        }
    }
}

/// A handle on the operating system's random source.
pub fn rng() -> (r: GetRandomRng)
    ensures
        r == GetRandomRng,
{
    GetRandomRng
}

} // verus!
