//! The encoded size of an output, counted as a CBOR encoder writes it.
use vstd::prelude::*;

verus! {

/// Bytes taken by the head of a CBOR item whose argument is `n`.
pub open spec fn head_len(n: nat) -> nat {
    if n < 24 {
        1
    } else if n < 256 {
        2
    } else if n < 65536 {
        3
    } else if n < 4294967296 {
        5
    } else {
        9
    }
}

/// Bytes taken by a CBOR byte string holding `b`.
pub open spec fn bytes_size(b: Seq<u8>) -> nat {
    head_len(b.len()) + b.len()
}

/// Bytes taken by one asset of a bundle: its identifier, then its quantity.
pub open spec fn asset_entry_size(e: (Seq<u8>, u64)) -> nat {
    bytes_size(e.0) + head_len(e.1 as nat)
}

/// Bytes taken by the entries of an asset bundle, without the map's head.
pub open spec fn entries_size(s: Seq<(Seq<u8>, u64)>) -> nat
    decreases s.len(),
{
    if s.len() == 0 {
        0
    } else {
        entries_size(s.drop_last()) + asset_entry_size(s.last())
    }
}

/// Bytes taken by an asset bundle encoded as a CBOR map.
pub open spec fn assets_size(s: Seq<(Seq<u8>, u64)>) -> nat {
    head_len(s.len()) + entries_size(s)
}

pub proof fn lemma_entries_size_prefix(s: Seq<(Seq<u8>, u64)>, i: int)
    requires
        0 <= i <= s.len(),
    ensures
        entries_size(s.take(i)) <= entries_size(s),
    decreases s.len(),
{
    if i < s.len() {
        lemma_entries_size_prefix(s.drop_last(), i);
        assert(s.drop_last().take(i) =~= s.take(i));
    } else {
        assert(s.take(i) =~= s);
    }
}

/// Exec form of `head_len`.
pub fn uint_head_len(n: u64) -> (r: u64)
    ensures
        r == head_len(n as nat),
        1 <= r <= 9,
{
    if n < 24 {
        1
    } else if n < 256 {
        2
    } else if n < 65536 {
        3
    } else if n < 4294967296 {
        5
    } else {
        9
    }
}

/// `n` as a `u64`, or `None` where it exceeds `u64::MAX`.
pub open spec fn fits(n: nat) -> Option<u64> {
    if n <= u64::MAX {
        Some(n as u64)
    } else {
        None
    }
}

/// Exec form of `bytes_size`.
pub fn byte_string_size(b: &[u8]) -> (r: Option<u64>)
    ensures
        r == fits(bytes_size(b@)),
{
    let len = b.len() as u64;
    uint_head_len(len).checked_add(len)
}

/// The sum of two sizes, each given as `fits` of its exact value.
pub(crate) fn add_sizes(a: Option<u64>, b: Option<u64>, Ghost(x): Ghost<nat>, Ghost(y): Ghost<nat>) -> (r: Option<u64>)
    requires
        a == fits(x),
        b == fits(y),
    ensures
        r == fits(x + y),
{
    match (a, b) {
        (Some(p), Some(q)) => p.checked_add(q),
        _ => None,
    }
}

} // verus!
