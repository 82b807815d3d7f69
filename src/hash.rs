//! Datum digests: blake2b-256 over a datum's encoded bytes.
use crate::ledger::PlutusData;
use vstd::prelude::*;

verus! {

/// The blake2b-256 digest of a byte string.
pub uninterp spec fn blake2b_256_of(input: Seq<u8>) -> Seq<u8>;

/// Relies on cryptoxide::hashing::blake2b_256: a 32-byte digest that depends
/// on the input bytes alone.
#[verifier::external_body]
fn blake2b_256(input: &[u8]) -> (r: [u8; 32])
    ensures
        r@ == blake2b_256_of(input@),
{
    cryptoxide::hashing::blake2b_256(input)
}

/// A 32-byte datum digest.
#[derive(Clone, Copy, Debug, PartialEq, Eq)]
pub struct DatumHash {
    pub bytes: [u8; 32],
}

impl View for DatumHash {
    type V = Seq<u8>;

    open spec fn view(&self) -> Seq<u8> {
        self.bytes@
    }
}

impl DatumHash {
    pub fn from_bytes(bytes: [u8; 32]) -> (r: DatumHash)
        ensures
            r@ == bytes@,
    {
        DatumHash { bytes }
    }

    /// Digest of `data`.
    pub fn of_bytes(data: &[u8]) -> (r: DatumHash)
        ensures
            r@ == blake2b_256_of(data@),
            r@.len() == 32,
    {
        DatumHash { bytes: blake2b_256(data) }
    }
}

/// The digest by which an output refers to `data`.
pub fn hash_plutus_data(data: &PlutusData) -> (r: DatumHash)
    ensures
        r@ == blake2b_256_of(data@),
{
    DatumHash::of_bytes(data.bytes.as_slice())
}

} // verus!
