use output_builder::assets::{MultiAsset, Value};
use output_builder::builder::{OutputBuilderError, SingleOutputBuilderResult, TransactionOutputBuilder};
use output_builder::hash::{hash_plutus_data, DatumHash};
use output_builder::ledger::{bytes_eq, Address, DatumOption, PlutusData, ScriptRef};
use output_builder::min_ada::{min_ada_required, serialized_size, MinAdaError};
use output_builder::output::TransactionOutput;

fn address(len: usize) -> Address {
    Address { bytes: (0..len).map(|i| i as u8).collect() }
}

fn token_x(quantity: u64) -> MultiAsset {
    let mut ma = MultiAsset::new();
    ma.insert(b"tokenX".to_vec(), quantity);
    ma
}

fn hash_bytes(d: &Option<DatumOption>) -> [u8; 32] {
    match d {
        Some(DatumOption::Hash(h)) => h.bytes,
        _ => panic!("expected a datum hash"),
    }
}

#[test]
fn empty_draft_lacks_address_then_value() {
    let draft = TransactionOutputBuilder::new();
    assert!(matches!(draft.clone().next(), Err(OutputBuilderError::AddressMissing)));
    let resolving = draft.with_address(&address(57)).next().unwrap();
    assert!(matches!(resolving.build(), Err(OutputBuilderError::AmountMissing)));
}

#[test]
fn default_draft_lacks_address() {
    let draft = TransactionOutputBuilder::default();
    assert!(matches!(draft.next(), Err(OutputBuilderError::AddressMissing)));
}

#[test]
fn address_alone_is_enough_to_advance() {
    let draft = TransactionOutputBuilder::new()
        .with_reference_script(ScriptRef { bytes: vec![1, 2, 3] })
        .with_address(&address(29));
    let resolving = draft.next().unwrap();
    assert_eq!(resolving.address().bytes, address(29).bytes);
    assert_eq!(resolving.script_ref().unwrap().bytes, vec![1, 2, 3]);
    assert!(resolving.amount().is_none());
    assert!(resolving.datum().is_none());
}

#[test]
fn communication_datum_travels_to_result() {
    let payload = PlutusData { bytes: vec![0xd8, 0x79, 0x9f, 0xff] };
    let resolving = TransactionOutputBuilder::new()
        .with_address(&address(57))
        .with_communication_data(payload.clone())
        .next()
        .unwrap();
    let expected = cryptoxide::hashing::blake2b_256(&payload.bytes);
    assert_eq!(hash_bytes(&resolving.datum()), expected);
    assert_eq!(resolving.communication_datum().unwrap().bytes, payload.bytes);
    let result = resolving.with_value(Value::new(2_000_000, MultiAsset::new())).build().unwrap();
    assert_eq!(result.communication_datum().unwrap().bytes, payload.bytes);
    assert_eq!(hash_bytes(&result.output().datum_option), expected);
    assert_eq!(result.output().amount.coin, 2_000_000);
}

#[test]
fn setting_data_drops_communication_datum() {
    let payload = PlutusData { bytes: vec![1, 2, 3] };
    let other = DatumOption::new_inline(PlutusData { bytes: vec![9, 9] });
    let resolving = TransactionOutputBuilder::new()
        .with_address(&address(29))
        .with_communication_data(payload)
        .with_data(other)
        .next()
        .unwrap();
    assert!(resolving.communication_datum().is_none());
    match resolving.datum() {
        Some(DatumOption::Inline(d)) => assert_eq!(d.bytes, vec![9, 9]),
        _ => panic!("expected the inline datum"),
    }
}

#[test]
fn datum_digest_of_empty_input() {
    let h = hash_plutus_data(&PlutusData { bytes: vec![] });
    let expected: [u8; 32] = [
        0x0e, 0x57, 0x51, 0xc0, 0x26, 0xe5, 0x43, 0xb2, 0xe8, 0xab, 0x2e, 0xb0, 0x60, 0x99, 0xda, 0xa1,
        0xd1, 0xe5, 0xdf, 0x47, 0x77, 0x8f, 0x77, 0x87, 0xfa, 0xab, 0x45, 0xcd, 0xf1, 0x2f, 0xe3, 0xa8,
    ];
    assert_eq!(h.bytes, expected);
    assert_eq!(DatumHash::of_bytes(&[]).bytes, expected);
}

#[test]
fn min_required_coin_for_token() {
    let resolving = TransactionOutputBuilder::new().with_address(&address(57)).next().unwrap();
    let resolved = resolving.with_asset_and_min_required_coin(token_x(5), 4310).unwrap();
    let out = resolved.build().unwrap().output();
    let coin = out.amount.coin;
    assert!(coin > 0);
    assert_eq!(coin, 1_021_470);
    assert_eq!(out.amount.multiasset.len(), 1);
    assert_eq!(out.amount.multiasset.get(&b"tokenX".to_vec()), Some(5));
    assert!(min_ada_required(&out, 4310).unwrap() <= coin);
}

#[test]
fn min_required_coin_twice_is_stable() {
    let resolving = TransactionOutputBuilder::new().with_address(&address(57)).next().unwrap();
    let once = resolving.with_asset_and_min_required_coin(token_x(5), 4310).unwrap();
    let first = once.amount().unwrap().coin;
    let twice = once.with_asset_and_min_required_coin(token_x(5), 4310).unwrap();
    assert_eq!(twice.amount().unwrap().coin, first);
}

#[test]
fn min_required_coin_starts_from_staged_value() {
    let resolving = TransactionOutputBuilder::new()
        .with_address(&address(57))
        .next()
        .unwrap()
        .with_value(Value::new(5, token_x(1)));
    // provisional output: 3 + 59 + (1 + 1 + 9) = 73 bytes; estimate 233 * 10
    // final output: 3 + 59 + (1 + 3 + 9) = 75 bytes; coin 235 * 10
    let resolved = resolving.with_asset_and_min_required_coin(token_x(7), 10).unwrap();
    let v = resolved.amount().unwrap();
    assert_eq!(v.coin, 2350);
    assert_eq!(v.multiasset.get(&b"tokenX".to_vec()), Some(7));
}

#[test]
fn min_required_coin_overflow() {
    let resolving = TransactionOutputBuilder::new().with_address(&address(57)).next().unwrap();
    let r = resolving.with_asset_and_min_required_coin(token_x(5), u64::MAX);
    assert!(matches!(r, Err(OutputBuilderError::MinAdaError(MinAdaError::Overflow))));
}

#[test]
fn min_required_coin_free_bytes() {
    let resolving = TransactionOutputBuilder::new().with_address(&address(57)).next().unwrap();
    let resolved = resolving.with_asset_and_min_required_coin(token_x(5), 0).unwrap();
    assert_eq!(resolved.amount().unwrap().coin, 0);
}

#[test]
fn size_with_inline_datum_and_script() {
    let out = TransactionOutput::new(
        address(29),
        Value::new(1_000_000, MultiAsset::new()),
        Some(DatumOption::new_inline(PlutusData { bytes: vec![7; 10] })),
        Some(ScriptRef { bytes: vec![3; 20] }),
    );
    assert_eq!(serialized_size(&out), Some(79));
    assert_eq!(min_ada_required(&out, 4310), Ok(1_030_090));
}

#[test]
fn size_with_datum_hash() {
    let out = TransactionOutput::new(
        address(29),
        Value::new(2, MultiAsset::new()),
        Some(DatumOption::new_hash(DatumHash::from_bytes([0u8; 32]))),
        None,
    );
    assert_eq!(serialized_size(&out), Some(72));
    assert_eq!(min_ada_required(&out, 1), Ok(232));
}

#[test]
fn asset_insert_replaces_quantity() {
    let mut ma = token_x(5);
    ma.insert(b"tokenY".to_vec(), 1);
    ma.insert(b"tokenX".to_vec(), 8);
    assert_eq!(ma.len(), 2);
    assert_eq!(ma.get(&b"tokenX".to_vec()), Some(8));
    assert_eq!(ma.get(&b"tokenY".to_vec()), Some(1));
    assert_eq!(ma.get(&b"tokenZ".to_vec()), None);
    assert_eq!(ma.clone().get(&b"tokenY".to_vec()), Some(1));
}

#[test]
fn result_from_outside_output() {
    let out = TransactionOutput::new(address(29), Value::zero(), None, None);
    let mut result = SingleOutputBuilderResult::new(&out);
    assert!(result.communication_datum().is_none());
    result.set_communication_datum(&PlutusData { bytes: vec![4, 2] });
    assert_eq!(result.communication_datum().unwrap().bytes, vec![4, 2]);
    assert_eq!(result.output().address.bytes, address(29).bytes);
}

#[test]
fn build_reflects_current_state() {
    let resolving = TransactionOutputBuilder::new()
        .with_address(&address(29))
        .next()
        .unwrap()
        .with_value(Value::new(3, MultiAsset::new()));
    let a = resolving.build().unwrap().output();
    let b = resolving.build().unwrap().output();
    assert_eq!(a.amount.coin, b.amount.coin);
    let changed = resolving.with_value(Value::new(4, MultiAsset::new()));
    assert_eq!(changed.build().unwrap().output().amount.coin, 4);
}

#[test]
fn byte_strings_compare() {
    assert!(bytes_eq(&vec![1, 2], &vec![1, 2]));
    assert!(!bytes_eq(&vec![1, 2], &vec![1, 3]));
    assert!(!bytes_eq(&vec![1], &vec![1, 3]));
}

#[test]
fn min_required_coin_across_width_boundary() {
    // estimate 223 * 290 = 64670 takes a 3-byte head; the settled coin
    // 235 * 290 = 68150 takes a 5-byte head, so the final output asks 237 * 290
    let resolving = TransactionOutputBuilder::new().with_address(&address(57)).next().unwrap();
    let once = resolving.with_asset_and_min_required_coin(token_x(5), 290).unwrap();
    let out = once.build().unwrap().output();
    assert_eq!(out.amount.coin, 68_150);
    assert_eq!(min_ada_required(&out, 290), Ok(68_730));
    let twice = once.with_asset_and_min_required_coin(token_x(5), 290).unwrap();
    assert_eq!(twice.amount().unwrap().coin, 68_730);
}
