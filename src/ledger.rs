//! The ledger record that the builders assemble, and the values it is made of.
use crate::hash::DatumHash;
use vstd::prelude::*;

verus! {

/// An amount of the ledger's base currency, in its smallest unit.
pub type Coin = u64;

/// The raw bytes of an output's owner address.
#[derive(Debug)]
pub struct Address {
    pub bytes: Vec<u8>,
}

/// A datum in its encoded form.
#[derive(Debug)]
pub struct PlutusData {
    pub bytes: Vec<u8>,
}

/// A script attached to an output for later lookup by reference, in its encoded form.
#[derive(Debug)]
pub struct ScriptRef {
    pub bytes: Vec<u8>,
}

/// The datum field of an output: a digest of a datum, or the datum itself.
#[derive(Debug)]
pub enum DatumOption {
    Hash(DatumHash),
    Inline(PlutusData),
}

/// What a `DatumOption` holds, as byte strings.
pub enum DatumModel {
    Hash(Seq<u8>),
    Inline(Seq<u8>),
}

impl View for Address {
    type V = Seq<u8>;

    open spec fn view(&self) -> Seq<u8> {
        self.bytes@
    }
}

impl View for PlutusData {
    type V = Seq<u8>;

    open spec fn view(&self) -> Seq<u8> {
        self.bytes@
    }
}

impl View for ScriptRef {
    type V = Seq<u8>;

    open spec fn view(&self) -> Seq<u8> {
        self.bytes@
    }
}

impl View for DatumOption {
    type V = DatumModel;

    open spec fn view(&self) -> DatumModel {
        match self {
            DatumOption::Hash(h) => DatumModel::Hash(h@),
            DatumOption::Inline(d) => DatumModel::Inline(d@),
        }
    }
}

pub(crate) fn copy_bytes(b: &Vec<u8>) -> (r: Vec<u8>)
    ensures
        r@ == b@,
{
    let r = b.clone();
    assert(r@ =~= b@);
    r
}

/// Whether two byte strings are equal.
pub fn bytes_eq(a: &Vec<u8>, b: &Vec<u8>) -> (r: bool)
    ensures
        r == (a@ == b@),
{
    if a.len() != b.len() {
        return false;
    }
    let mut i: usize = 0;
    while i < a.len()
        invariant
            a@.len() == b@.len(),
            0 <= i <= a@.len(),
            forall|j: int| 0 <= j < i ==> a@[j] == b@[j],
        decreases a@.len() - i,
    {
        if a[i] != b[i] {
            return false;
        }
        i = i + 1;
    }
    assert(a@ =~= b@);
    true
}

impl Clone for Address {
    fn clone(&self) -> (r: Self)
        ensures
            r@ == self@,
    {
        Address { bytes: copy_bytes(&self.bytes) }
    }
}

impl Clone for PlutusData {
    fn clone(&self) -> (r: Self)
        ensures
            r@ == self@,
    {
        PlutusData { bytes: copy_bytes(&self.bytes) }
    }
}

impl Clone for ScriptRef {
    fn clone(&self) -> (r: Self)
        ensures
            r@ == self@,
    {
        ScriptRef { bytes: copy_bytes(&self.bytes) }
    }
}

impl Clone for DatumOption {
    fn clone(&self) -> (r: Self)
        ensures
            r@ == self@,
    {
        match self {
            DatumOption::Hash(h) => DatumOption::Hash(*h),
            DatumOption::Inline(d) => DatumOption::Inline(d.clone()),
        }
    }
}

impl DatumOption {
    pub fn new_hash(hash: DatumHash) -> (r: DatumOption)
        ensures
            r@ == DatumModel::Hash(hash@),
    {
        DatumOption::Hash(hash)
    }

    pub fn new_inline(data: PlutusData) -> (r: DatumOption)
        ensures
            r@ == DatumModel::Inline(data@),
    {
        DatumOption::Inline(data)
    }
}

} // verus!
