use ark_ff::{BigInteger, PrimeField};
use penumbra::asset::{staking_token_asset_id, Id as AssetId};
use penumbra::proto;
use penumbra::error::Error;
use penumbra::transaction::Fee;
use penumbra::value::Value;

fn expected_asset_id(denom: &str) -> [u8; 32] {
    let digest = blake2b_simd::Params::default()
        .personal(b"Penumbra_AssetID")
        .hash(denom.as_bytes());
    let element = ark_ed_on_bls12_377::Fq::from_le_bytes_mod_order(digest.as_bytes());
    let bytes = element.into_bigint().to_bytes_le();
    let mut out = [0u8; 32];
    out.copy_from_slice(&bytes);
    out
}

fn other_asset() -> AssetId {
    AssetId::from_base_denom(b"ugm")
}

#[test]
fn staking_token_id_is_hash_of_denom_reduced_into_field() {
    assert_eq!(staking_token_asset_id().to_bytes(), expected_asset_id("upenumbra"));
    assert_eq!(other_asset().to_bytes(), expected_asset_id("ugm"));
    assert_ne!(staking_token_asset_id(), other_asset());
}

#[test]
fn staking_fee_parts() {
    let fee = Fee::from_staking_token_amount(12345);
    assert_eq!(fee.amount(), 12345);
    assert_eq!(fee.asset_id(), staking_token_asset_id());
    assert_eq!(
        fee.value(),
        Value { amount: 12345, asset_id: staking_token_asset_id() }
    );
}

#[test]
fn default_fee_is_zero_staking_tokens() {
    let fee = Fee::default();
    assert_eq!(fee.amount(), 0);
    assert_eq!(fee.asset_id(), staking_token_asset_id());
    assert_eq!(fee, Fee::from_staking_token_amount(0));
}

#[test]
fn staking_fee_leaves_asset_out_of_wire_form() {
    let msg = Fee::from_staking_token_amount(7).to_proto();
    assert_eq!(msg.amount, 7);
    assert!(msg.asset_id.is_none());
}

#[test]
fn other_fee_keeps_asset_in_wire_form() {
    let fee = Fee(Value { amount: 9, asset_id: other_asset() });
    let msg = fee.to_proto();
    assert_eq!(msg.amount, 9);
    assert_eq!(msg.asset_id, Some(other_asset()));
}

#[test]
fn fee_round_trips_through_wire_form() {
    for fee in [
        Fee::from_staking_token_amount(0),
        Fee::from_staking_token_amount(u64::MAX),
        Fee(Value { amount: 42, asset_id: other_asset() }),
    ] {
        assert_eq!(Fee::try_from_proto(fee.to_proto()), Ok(fee));
    }
}

#[test]
fn missing_asset_decodes_to_staking_token() {
    let fee = Fee::try_from_proto(proto::Fee { amount: 3, asset_id: None });
    assert_eq!(fee, Ok(Fee::from_staking_token_amount(3)));
}

#[test]
fn auth_hash_covers_amount_then_asset() {
    let fee = Fee(Value { amount: 0x0102_0304_0506_0708, asset_id: other_asset() });
    let mut state = blake2b_simd::Params::default().personal(b"PAH:fee").to_state();
    state.update(&fee.0.amount.to_le_bytes());
    state.update(&fee.0.asset_id.to_bytes());
    let expected = state.finalize();
    assert_eq!(&fee.auth_hash()[..], expected.as_bytes());
    assert_ne!(
        fee.auth_hash(),
        Fee(Value { amount: 1, asset_id: other_asset() }).auth_hash()
    );
}

#[test]
fn asset_ids_must_be_canonical_field_elements() {
    assert!(staking_token_asset_id().is_canonical());
    assert!(AssetId([0; 32]).is_canonical());
    assert!(!AssetId([0xff; 32]).is_canonical());
    // The field order, little-endian, is the smallest identifier that is refused.
    let mut order = [0u8; 32];
    let order_be: [u8; 32] = [
        0x12, 0xab, 0x65, 0x5e, 0x9a, 0x2c, 0xa5, 0x56, 0x60, 0xb4, 0x4d, 0x1e, 0x5c, 0x37,
        0xb0, 0x01, 0x59, 0xaa, 0x76, 0xfe, 0xd0, 0x00, 0x00, 0x01, 0x0a, 0x11, 0x80, 0x00,
        0x00, 0x00, 0x00, 0x01,
    ];
    for i in 0..32 {
        order[i] = order_be[31 - i];
    }
    assert!(!AssetId(order).is_canonical());
    order[0] -= 1;
    assert!(AssetId(order).is_canonical());
}

#[test]
fn fee_with_non_canonical_asset_is_refused() {
    let msg = proto::Fee { amount: 1, asset_id: Some(AssetId([0xff; 32])) };
    assert_eq!(Fee::try_from_proto(msg), Err(Error::NonCanonicalAssetId));
    assert_eq!(
        Error::NonCanonicalAssetId.message(),
        "asset id is not a canonical field element"
    );
}
