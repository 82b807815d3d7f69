//! The minimum-value rule: an output must carry at least a fixed price per
//! byte of its encoding, plus a fixed overhead.
use crate::assets::{Value, ValueModel};
use crate::ledger::{Coin, DatumModel, DatumOption};
use crate::output::{OutputModel, TransactionOutput};
use crate::size::{add_sizes, assets_size, byte_string_size, bytes_size, fits, head_len, uint_head_len};
use vstd::prelude::*;

verus! {

/// Bytes charged for every output on top of its own encoding.
pub const OUTPUT_OVERHEAD: u64 = 160;

/// Why the minimum value of an output could not be computed.
#[derive(Clone, Copy, Debug, PartialEq, Eq, Structural)]
pub enum MinAdaError {
    /// The minimum does not fit in a coin amount.
    Overflow,
}

/// Bytes taken by a value: the bare coin where no other asset is held,
/// else a pair of the coin and the asset map.
pub open spec fn value_size(v: ValueModel) -> nat {
    if v.assets.len() == 0 {
        head_len(v.coin as nat)
    } else {
        1 + head_len(v.coin as nat) + assets_size(v.assets)
    }
}

/// Bytes taken by a datum field: a tagged pair holding the digest, or the
/// datum wrapped as embedded encoded data.
pub open spec fn datum_size(d: DatumModel) -> nat {
    match d {
        DatumModel::Hash(h) => 2 + bytes_size(h),
        DatumModel::Inline(b) => 4 + bytes_size(b),
    }
}

/// Bytes taken by an output, encoded as a map from field number to field.
pub open spec fn output_size(o: OutputModel) -> nat {
    3 + bytes_size(o.address) + value_size(o.amount) + match o.datum {
        Some(d) => 1 + datum_size(d),
        None => 0,
    } + match o.script_ref {
        Some(s) => 3 + bytes_size(s),
        None => 0,
    }
}

/// The least coin amount that `o` must carry at `coins_per_utxo_byte`.
pub open spec fn min_coin(o: OutputModel, coins_per_utxo_byte: u64) -> int {
    (OUTPUT_OVERHEAD + output_size(o)) * coins_per_utxo_byte
}

/// The outcome of the minimum-value rule on `o`.
pub open spec fn min_ada_result(o: OutputModel, coins_per_utxo_byte: u64) -> Result<Coin, MinAdaError> {
    if min_coin(o, coins_per_utxo_byte) <= u64::MAX {
        Ok(min_coin(o, coins_per_utxo_byte) as u64)
    } else {
        Err(MinAdaError::Overflow)
    }
}

/// Bytes that an output takes apart from its coin amount: what `assets`
/// adds, and every other field.
pub open spec fn output_size_without_coin(o: OutputModel, assets: Seq<(Seq<u8>, u64)>) -> nat {
    (output_size(o.with_amount(ValueModel { coin: 0, assets })) - 1) as nat
}

/// The size of an output is the size of its coin's head plus the rest.
pub proof fn lemma_output_size_split(o: OutputModel, coin: u64, assets: Seq<(Seq<u8>, u64)>)
    ensures
        output_size(o.with_amount(ValueModel { coin, assets })) == output_size_without_coin(o, assets)
            + head_len(coin as nat),
{
}

/// Exec form of `value_size`.
fn value_encoded_size(v: &Value) -> (r: Option<u64>)
    ensures
        r == fits(value_size(v@)),
{
    let coin = uint_head_len(v.coin);
    if v.multiasset.len() == 0 {
        Some(coin)
    } else {
        add_sizes(
            Some(1 + coin),
            v.multiasset.encoded_size(),
            Ghost((1 + head_len(v.coin as nat)) as nat),
            Ghost(assets_size(v@.assets)),
        )
    }
}

/// Exec form of `output_size`; `None` where it exceeds `u64::MAX`.
pub fn serialized_size(o: &TransactionOutput) -> (r: Option<u64>)
    ensures
        r == fits(output_size(o@)),
{
    let ghost m = o@;
    let head = add_sizes(
        Some(3),
        byte_string_size(o.address.bytes.as_slice()),
        Ghost(3),
        Ghost(bytes_size(m.address)),
    );
    let head = add_sizes(
        head,
        value_encoded_size(&o.amount),
        Ghost(3 + bytes_size(m.address)),
        Ghost(value_size(m.amount)),
    );
    let ghost datum_part: nat = match m.datum {
        Some(d) => 1 + datum_size(d),
        None => 0,
    };
    let datum = match &o.datum_option {
        None => Some(0),
        Some(DatumOption::Hash(h)) => {
            proof {
                vstd::array::array_len_matches_n(&h.bytes);
            }
            Some(37)
        },
        Some(DatumOption::Inline(d)) => add_sizes(
            Some(5),
            byte_string_size(d.bytes.as_slice()),
            Ghost(5),
            Ghost(bytes_size(d@)),
        ),
    };
    let ghost script_part: nat = match m.script_ref {
        Some(s) => 3 + bytes_size(s),
        None => 0,
    };
    let script = match &o.script_reference {
        None => Some(0),
        Some(s) => add_sizes(Some(3), byte_string_size(s.bytes.as_slice()), Ghost(3), Ghost(bytes_size(s@))),
    };
    let head = add_sizes(
        head,
        datum,
        Ghost(3 + bytes_size(m.address) + value_size(m.amount)),
        Ghost(datum_part),
    );
    add_sizes(
        head,
        script,
        Ghost(3 + bytes_size(m.address) + value_size(m.amount) + datum_part),
        Ghost(script_part),
    )
}

/// The least coin amount that `output` must carry: `OUTPUT_OVERHEAD` plus
/// its encoded size, times `coins_per_utxo_byte`; `Overflow` where that does
/// not fit in a coin amount.
pub fn min_ada_required(output: &TransactionOutput, coins_per_utxo_byte: Coin) -> (r: Result<Coin, MinAdaError>)
    ensures
        r == min_ada_result(output@, coins_per_utxo_byte),
{
    let ghost total: int = OUTPUT_OVERHEAD + output_size(output@);
    let sized = match serialized_size(output) {
        Some(s) => s.checked_add(OUTPUT_OVERHEAD),
        None => None,
    };
    match sized {
        Some(t) => {
            match t.checked_mul(coins_per_utxo_byte) {
                Some(m) => Ok(m),
                None => Err(MinAdaError::Overflow),
            }
        },
        None => {
            if coins_per_utxo_byte == 0 {
                assert(total * 0 == 0) by (nonlinear_arith);
                Ok(0)
            } else {
                assert(total > u64::MAX);
                assert(total * coins_per_utxo_byte >= total) by (nonlinear_arith)
                    requires
                        coins_per_utxo_byte >= 1,
                        total >= 0,
                ;
                Err(MinAdaError::Overflow)
            }
        },
    }
}

} // verus!
