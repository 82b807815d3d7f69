//! Values: a coin amount and a bundle of other assets.
use crate::ledger::{bytes_eq, copy_bytes, Coin};
use crate::size::{
    asset_entry_size, assets_size, byte_string_size, fits, entries_size, lemma_entries_size_prefix,
    uint_head_len,
};
use vstd::prelude::*;

verus! {

/// What an asset bundle holds: (asset identifier, quantity) pairs.
pub type AssetsModel = Seq<(Seq<u8>, u64)>;

/// The quantity of each asset that a bundle holds; a later pair for a key
/// overrides an earlier one (a well-formed bundle has none).
pub open spec fn asset_map(s: AssetsModel) -> Map<Seq<u8>, u64>
    decreases s.len(),
{
    if s.len() == 0 {
        Map::empty()
    } else {
        asset_map(s.drop_last()).insert(s.last().0, s.last().1)
    }
}

/// No asset identifier occurs twice.
pub open spec fn keys_unique(s: AssetsModel) -> bool {
    forall|i: int, j: int| 0 <= i < j < s.len() ==> s[i].0 != s[j].0
}

proof fn lemma_asset_map_update(s: AssetsModel, i: int, q: u64)
    requires
        keys_unique(s),
        0 <= i < s.len(),
    ensures
        asset_map(s.update(i, (s[i].0, q))) == asset_map(s).insert(s[i].0, q),
    decreases s.len(),
{
    let t = s.update(i, (s[i].0, q));
    if i == s.len() - 1 {
        assert(t.drop_last() =~= s.drop_last());
        assert(asset_map(t) =~= asset_map(s).insert(s[i].0, q));
    } else {
        lemma_asset_map_update(s.drop_last(), i, q);
        assert(t.drop_last() =~= s.drop_last().update(i, (s[i].0, q)));
        assert(s.last().0 != s[i].0);
        assert(asset_map(t) =~= asset_map(s).insert(s[i].0, q));
    }
}

proof fn lemma_asset_map_at(s: AssetsModel, i: int)
    requires
        keys_unique(s),
        0 <= i < s.len(),
    ensures
        asset_map(s).contains_key(s[i].0),
        asset_map(s)[s[i].0] == s[i].1,
    decreases s.len(),
{
    if i < s.len() - 1 {
        lemma_asset_map_at(s.drop_last(), i);
    }
}

proof fn lemma_asset_map_absent(s: AssetsModel, k: Seq<u8>)
    requires
        forall|j: int| 0 <= j < s.len() ==> s[j].0 != k,
    ensures
        !asset_map(s).contains_key(k),
    decreases s.len(),
{
    if s.len() > 0 {
        lemma_asset_map_absent(s.drop_last(), k);
    }
}

spec fn entries_view(v: Seq<(Vec<u8>, u64)>) -> AssetsModel {
    v.map_values(|e: (Vec<u8>, u64)| (e.0@, e.1))
}

/// A bundle of assets other than the base coin: a map from asset identifier
/// to quantity.
#[derive(Debug)]
pub struct MultiAsset {
    entries: Vec<(Vec<u8>, u64)>,
}

impl View for MultiAsset {
    type V = AssetsModel;

    closed spec fn view(&self) -> AssetsModel {
        entries_view(self.entries@)
    }
}

impl MultiAsset {
    #[verifier::type_invariant]
    spec fn inv(self) -> bool {
        keys_unique(self@)
    }

    /// The empty bundle.
    pub fn new() -> (r: MultiAsset)
        ensures
            r@ == Seq::<(Seq<u8>, u64)>::empty(),
    {
        let r = MultiAsset { entries: Vec::new() };
        assert(r@ =~= Seq::<(Seq<u8>, u64)>::empty());
        r
    }

    /// Sets the quantity of `asset`, replacing any quantity it had.
    pub fn insert(&mut self, asset: Vec<u8>, quantity: u64)
        ensures
            asset_map(final(self)@) == asset_map(old(self)@).insert(asset@, quantity),
            final(self)@.len() == old(self)@.len() || final(self)@.len() == old(self)@.len() + 1,
    {
        proof {
            use_type_invariant(&*self);
        }
        let ghost s = self@;
        let mut taken = MultiAsset::new();
        std::mem::swap(self, &mut taken);
        let mut entries = taken.entries;
        let mut i: usize = 0;
        while i < entries.len()
            invariant
                s == old(self)@,
                s == entries_view(entries@),
                keys_unique(s),
                0 <= i <= s.len(),
                forall|j: int| 0 <= j < i ==> s[j].0 != asset@,
            decreases s.len() - i,
        {
            if bytes_eq(&entries[i].0, &asset) {
                entries.set(i, (asset, quantity));
                proof {
                    lemma_asset_map_update(s, i as int, quantity);
                    assert(entries_view(entries@) =~= s.update(
                        i as int,
                        (s[i as int].0, quantity),
                    ));
                }
                *self = MultiAsset { entries };
                return;
            }
            i = i + 1;
        }
        entries.push((asset, quantity));
        let ghost t = entries_view(entries@);
        proof {
            assert(t =~= s.push((asset@, quantity)));
            assert(t.drop_last() =~= s);
        }
        *self = MultiAsset { entries };
    }

    /// The quantity of `asset`, if the bundle holds it.
    pub fn get(&self, asset: &Vec<u8>) -> (r: Option<u64>)
        ensures
            r == (if asset_map(self@).contains_key(asset@) {
                Some(asset_map(self@)[asset@])
            } else {
                None::<u64>
            }),
    {
        proof {
            use_type_invariant(self);
        }
        let mut i: usize = 0;
        while i < self.entries.len()
            invariant
                keys_unique(self@),
                0 <= i <= self@.len(),
                forall|j: int| 0 <= j < i ==> self@[j].0 != asset@,
            decreases self@.len() - i,
        {
            if bytes_eq(&self.entries[i].0, asset) {
                proof {
                    lemma_asset_map_at(self@, i as int);
                }
                return Some(self.entries[i].1);
            }
            i = i + 1;
        }
        proof {
            lemma_asset_map_absent(self@, asset@);
        }
        None
    }

    /// Number of assets in the bundle.
    pub fn len(&self) -> (r: usize)
        ensures
            r == self@.len(),
    {
        self.entries.len()
    }

    /// Exec form of `assets_size`; `None` where it exceeds `u64::MAX`.
    pub fn encoded_size(&self) -> (r: Option<u64>)
        ensures
            r == fits(assets_size(self@)),
    {
        let ghost s = self@;
        let mut total: u64 = uint_head_len(self.entries.len() as u64);
        let mut i: usize = 0;
        while i < self.entries.len()
            invariant
                s == self@,
                0 <= i <= s.len(),
                total == crate::size::head_len(s.len()) + entries_size(s.take(i as int)),
            decreases s.len() - i,
        {
            let e = &self.entries[i];
            proof {
                assert(s.take(i + 1).drop_last() =~= s.take(i as int));
                assert(s.take(i + 1).last() == s[i as int]);
                lemma_entries_size_prefix(s, i + 1);
            }
            let key_size = match byte_string_size(e.0.as_slice()) {
                Some(k) => k,
                None => {
                    return None;
                },
            };
            let entry = match key_size.checked_add(uint_head_len(e.1)) {
                Some(x) => x,
                None => {
                    return None;
                },
            };
            assert(entry == asset_entry_size(s[i as int]));
            total = match total.checked_add(entry) {
                Some(x) => x,
                None => {
                    return None;
                },
            };
            i = i + 1;
        }
        assert(s.take(s.len() as int) =~= s);
        Some(total)
    }
}

impl Clone for MultiAsset {
    fn clone(&self) -> (r: Self)
        ensures
            r@ == self@,
    {
        proof {
            use_type_invariant(self);
        }
        let mut entries: Vec<(Vec<u8>, u64)> = Vec::new();
        let mut i: usize = 0;
        while i < self.entries.len()
            invariant
                0 <= i <= self@.len(),
                entries_view(entries@) =~= self@.take(i as int),
            decreases self@.len() - i,
        {
            let ghost before = entries@;
            entries.push((copy_bytes(&self.entries[i].0), self.entries[i].1));
            proof {
                assert(entries@.drop_last() == before);
                assert(self@.take(i + 1) =~= self@.take(i as int).push(self@[i as int]));
            }
            i = i + 1;
        }
        let r = MultiAsset { entries };
        assert(r@ =~= self@);
        r
    }
}

/// What a `Value` holds.
pub struct ValueModel {
    pub coin: Coin,
    pub assets: AssetsModel,
}

/// A coin amount together with a bundle of other assets.
#[derive(Debug)]
pub struct Value {
    pub coin: Coin,
    pub multiasset: MultiAsset,
}

impl View for Value {
    type V = ValueModel;

    open spec fn view(&self) -> ValueModel {
        ValueModel { coin: self.coin, assets: self.multiasset@ }
    }
}

impl Value {
    pub fn new(coin: Coin, multiasset: MultiAsset) -> (r: Value)
        ensures
            r@ == (ValueModel { coin, assets: multiasset@ }),
    {
        Value { coin, multiasset }
    }

    /// No coin and no other assets.
    pub fn zero() -> (r: Value)
        ensures
            r@ == (ValueModel { coin: 0, assets: Seq::empty() }),
    {
        Value { coin: 0, multiasset: MultiAsset::new() }
    }
}

impl Clone for Value {
    fn clone(&self) -> (r: Self)
        ensures
            r@ == self@,
    {
        Value { coin: self.coin, multiasset: self.multiasset.clone() }
    }
}

} // verus!
