//! Properties that hold across calls of the builders.
use crate::assets::{AssetsModel, ValueModel};
use crate::builder::{AmountModel, DraftModel};
use crate::hash::blake2b_256_of;
use crate::ledger::DatumModel;
use crate::min_ada::{lemma_output_size_split, min_ada_result, min_coin, output_size_without_coin, OUTPUT_OVERHEAD};
use crate::size::head_len;
use vstd::prelude::*;

verus! {

/// Setting a communication datum makes the datum field the digest of the
/// payload and keeps the payload; setting a datum field right afterwards
/// takes that field as given and drops the payload.
pub proof fn lemma_communication_datum_then_data(d: DraftModel, payload: Seq<u8>, other: DatumModel)
    ensures
        d.set_communication_data(payload).datum == Some(DatumModel::Hash(blake2b_256_of(payload))),
        d.set_communication_data(payload).communication_datum == Some(payload),
        d.set_communication_data(payload).set_data(other).datum == Some(other),
        d.set_communication_data(payload).set_data(other).communication_datum is None,
{
}

/// With the assets fixed, the minimum coin of an output goes up with the
/// encoded width of its coin amount, and only with that.
proof fn lemma_min_coin_by_width(b: AmountModel, assets: AssetsModel, c: u64, k1: u64, k2: u64)
    ensures
        head_len(k1 as nat) <= head_len(k2 as nat) ==> min_coin(
            b.output_with(ValueModel { coin: k1, assets }),
            c,
        ) <= min_coin(b.output_with(ValueModel { coin: k2, assets }), c),
        head_len(k1 as nat) == head_len(k2 as nat) ==> min_coin(
            b.output_with(ValueModel { coin: k1, assets }),
            c,
        ) == min_coin(b.output_with(ValueModel { coin: k2, assets }), c),
{
    let o = b.output_with(ValueModel { coin: 0, assets });
    lemma_output_size_split(o, k1, assets);
    lemma_output_size_split(o, k2, assets);
    assert(o.with_amount(ValueModel { coin: k1, assets }) == b.output_with(ValueModel { coin: k1, assets }));
    assert(o.with_amount(ValueModel { coin: k2, assets }) == b.output_with(ValueModel { coin: k2, assets }));
    let w = OUTPUT_OVERHEAD + output_size_without_coin(o, assets);
    let h1 = head_len(k1 as nat);
    let h2 = head_len(k2 as nat);
    assert(h1 <= h2 ==> (w + h1) * c <= (w + h2) * c) by (nonlinear_arith)
        requires
            c >= 0,
    ;
}

/// The coin that the two-pass resolution settles on is at least what the
/// minimum-value rule asks of the final output, wherever the price per byte
/// is zero or the settled coin is encoded no wider than the first estimate.
pub proof fn lemma_resolved_coin_meets_rule(b: AmountModel, assets: AssetsModel, c: u64)
    requires
        b.resolve_coin(assets, c) is Ok,
        c == 0 || head_len(b.resolve_coin(assets, c)->Ok_0 as nat) <= head_len(
            min_coin(b.provisional_output(), c) as nat,
        ),
    ensures
        ({
            let coin = b.resolve_coin(assets, c)->Ok_0;
            &&& b.resolve(assets, c) == Ok::<AmountModel, crate::builder::OutputBuilderError>(
                b.set_value(ValueModel { coin, assets }),
            )
            &&& min_ada_result(b.output_with(ValueModel { coin, assets }), c) matches Ok(m)
            &&& m <= coin
        }),
{
    let coin = b.resolve_coin(assets, c)->Ok_0;
    let estimate = min_coin(b.provisional_output(), c) as u64;
    assert(b.provisional_output().with_amount(ValueModel { coin: estimate, assets }) == b.output_with(
        ValueModel { coin: estimate, assets },
    ));
    lemma_min_coin_by_width(b, assets, c, coin, estimate);
    if c == 0 {
        assert(min_coin(b.output_with(ValueModel { coin, assets }), c) == 0) by (nonlinear_arith)
            requires
                c == 0,
        ;
    }
}

/// Resolving the minimum coin twice in a row for the same assets and price
/// leaves the value as the first call set it, wherever the price per byte is
/// zero or the first estimates of the two calls fit a coin amount and are
/// encoded at the same width.
pub proof fn lemma_resolve_idempotent(b: AmountModel, assets: AssetsModel, c: u64)
    requires
        b.resolve(assets, c) is Ok,
        c == 0 || ({
            let again = b.resolve(assets, c)->Ok_0.provisional_output();
            &&& min_coin(again, c) <= u64::MAX
            &&& head_len(min_coin(again, c) as nat) == head_len(min_coin(b.provisional_output(), c) as nat)
        }),
    ensures
        b.resolve(assets, c)->Ok_0.resolve(assets, c) == b.resolve(assets, c),
{
    let b1 = b.resolve(assets, c)->Ok_0;
    let coin = b.resolve_coin(assets, c)->Ok_0;
    let estimate = min_coin(b.provisional_output(), c) as u64;
    let again = min_coin(b1.provisional_output(), c);
    assert(b1.provisional_output() == b.output_with(ValueModel { coin, assets }));
    assert(b.provisional_output().with_amount(ValueModel { coin: estimate, assets }) == b.output_with(
        ValueModel { coin: estimate, assets },
    ));
    if c == 0 {
        assert(again == 0) by (nonlinear_arith)
            requires
                c == 0,
                again == min_coin(b1.provisional_output(), c),
        ;
        assert(min_coin(b.output_with(ValueModel { coin: 0, assets }), c) == 0) by (nonlinear_arith)
            requires
                c == 0,
        ;
        assert(coin == 0) by (nonlinear_arith)
            requires
                c == 0,
                coin == min_coin(b.output_with(ValueModel { coin: estimate, assets }), c),
        ;
    } else {
        lemma_min_coin_by_width(b, assets, c, again as u64, estimate);
    }
    assert(b1.provisional_output().with_amount(ValueModel { coin: again as u64, assets }) == b.output_with(
        ValueModel { coin: again as u64, assets },
    ));
    assert(b1.set_value(ValueModel { coin, assets }) == b1);
}

} // verus!
