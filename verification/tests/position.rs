use penumbra::asset::Id as AssetId;
use penumbra::dex::{Id, Position, State, TradingFunction, TradingPair};
use penumbra::error::Error;
use penumbra::proto;

fn position() -> Position {
    let mut nonce = [0u8; 32];
    for (i, b) in nonce.iter_mut().enumerate() {
        *b = i as u8;
    }
    Position {
        pair: TradingPair {
            asset_1: AssetId::from_base_denom(b"upenumbra"),
            asset_2: AssetId::from_base_denom(b"ugm"),
        },
        phi: TradingFunction { fee: 30, k: 1_000_000, p: 2, q: 3 },
        nonce,
    }
}

#[test]
fn position_id_hashes_nonce_pair_and_trading_function() {
    let p = position();
    let mut state = blake2b_simd::Params::default().personal(b"penumbra_lp_id").to_state();
    state.update(&p.nonce);
    state.update(&p.pair.asset_1.to_bytes());
    state.update(&p.pair.asset_2.to_bytes());
    state.update(&p.phi.fee.to_le_bytes());
    state.update(&p.phi.k.to_le_bytes());
    state.update(&p.phi.p.to_le_bytes());
    state.update(&p.phi.q.to_le_bytes());
    let hash = state.finalize();
    assert_eq!(&p.id().0[..], &hash.as_bytes()[0..32]);
}

#[test]
fn position_id_depends_on_nonce() {
    let p = position();
    let mut q = position();
    q.nonce[31] ^= 1;
    assert_ne!(p.id(), q.id());
    assert_eq!(p.id(), position().id());
}

#[test]
fn state_names_round_trip() {
    for (state, name) in [
        (State::Opened, "opened"),
        (State::Closed, "closed"),
        (State::Withdrawn, "withdrawn"),
        (State::Claimed, "claimed"),
    ] {
        assert_eq!(state.as_str(), name);
        assert_eq!(State::parse(name), Ok(state));
        assert_eq!(name.parse::<State>(), Ok(state));
    }
}

#[test]
fn unknown_state_name_is_refused() {
    assert_eq!(State::parse("Opened"), Err(Error::UnknownPositionState));
    assert_eq!(State::parse(""), Err(Error::UnknownPositionState));
    assert_eq!(Error::UnknownPositionState.message(), "unknown position state");
}

#[test]
fn state_wire_numbers() {
    assert_eq!(State::Opened.to_proto(), proto::PositionState { state: 0 });
    assert_eq!(State::Closed.to_proto(), proto::PositionState { state: 1 });
    assert_eq!(State::Withdrawn.to_proto(), proto::PositionState { state: 2 });
    assert_eq!(State::Claimed.to_proto(), proto::PositionState { state: 3 });
    for state in [State::Opened, State::Closed, State::Withdrawn, State::Claimed] {
        assert_eq!(State::try_from_proto(state.to_proto()), Ok(state));
    }
    assert_eq!(
        State::try_from_proto(proto::PositionState { state: 4 }),
        Err(Error::MissingPositionState)
    );
    assert_eq!(
        State::try_from_proto(proto::PositionState { state: -1 }),
        Err(Error::MissingPositionState)
    );
    assert_eq!(Error::MissingPositionState.message(), "missing position state");
}

#[test]
fn position_id_wire_form() {
    let id = position().id();
    let msg = id.to_proto();
    assert_eq!(msg.inner, id.0.to_vec());
    assert_eq!(Id::try_from_proto(msg), Ok(id));
    assert_eq!(
        Id::try_from_proto(proto::PositionId { inner: vec![0; 31] }),
        Err(Error::IdLength)
    );
    assert_eq!(Error::IdLength.message(), "expected 32-byte id");
}

#[test]
fn position_wire_form_round_trips() {
    let p = position();
    let msg = p.to_proto();
    assert_eq!(msg.nonce, p.nonce.to_vec());
    assert_eq!(Position::try_from_proto(msg), Ok(p));
}

#[test]
fn position_decoding_checks_function_then_pair_then_nonce() {
    let p = position();
    let missing_all = proto::Position { phi: None, pair: None, nonce: vec![] };
    assert_eq!(Position::try_from_proto(missing_all), Err(Error::MissingTradingFunction));
    let missing_pair = proto::Position { phi: Some(p.phi), pair: None, nonce: vec![] };
    assert_eq!(Position::try_from_proto(missing_pair), Err(Error::MissingTradingPair));
    let bad_asset = TradingPair { asset_1: p.pair.asset_1, asset_2: AssetId([0xff; 32]) };
    let non_canonical = proto::Position { phi: Some(p.phi), pair: Some(bad_asset), nonce: vec![] };
    assert_eq!(Position::try_from_proto(non_canonical), Err(Error::NonCanonicalAssetId));
    let short_nonce = proto::Position { phi: Some(p.phi), pair: Some(p.pair), nonce: vec![1; 33] };
    assert_eq!(Position::try_from_proto(short_nonce), Err(Error::NonceLength));
    assert_eq!(Error::MissingTradingFunction.message(), "missing trading function");
    assert_eq!(Error::MissingTradingPair.message(), "missing trading pair");
    assert_eq!(Error::NonceLength.message(), "expected 32-byte nonce");
}

#[test]
fn position_id_text_form_round_trips() {
    let id = position().id();
    let text = id.to_bech32m();
    assert!(text.starts_with("plpid1"));
    let expected = bech32::encode("plpid", bech32::ToBase32::to_base32(&id.0), bech32::Variant::Bech32m).unwrap();
    assert_eq!(text, expected);
    assert_eq!(Id::from_bech32m(&text), Ok(id));
    assert_eq!(Id::from_bech32m(&text.to_uppercase()), Ok(id));
}

#[test]
fn position_id_text_form_errors() {
    let id = position().id();
    let data = bech32::ToBase32::to_base32(&id.0);
    let old_variant = bech32::encode("plpid", &data, bech32::Variant::Bech32).unwrap();
    assert_eq!(Id::from_bech32m(&old_variant), Err(Error::Bech32Variant));
    let other_prefix = bech32::encode("passet", &data, bech32::Variant::Bech32m).unwrap();
    assert_eq!(Id::from_bech32m(&other_prefix), Err(Error::Bech32Prefix));
    let short = bech32::encode("plpid", bech32::ToBase32::to_base32(&[7u8; 31]), bech32::Variant::Bech32m).unwrap();
    assert_eq!(Id::from_bech32m(&short), Err(Error::IdLength));
    assert_eq!(Id::from_bech32m("plpid1notvalid"), Err(Error::Bech32));
    assert_eq!(Id::from_bech32m(""), Err(Error::Bech32));
}

#[test]
fn position_id_parses_from_text_form() {
    let id = position().id();
    assert_eq!(id.to_bech32m().parse::<Id>(), Ok(id));
    assert_eq!("opened".parse::<Id>(), Err(Error::Bech32));
}

#[test]
fn position_ids_are_ordered_by_bytes() {
    assert!(Id([0; 32]) < Id([1; 32]));
    let mut high = [0u8; 32];
    high[0] = 1;
    assert!(Id([0; 32]) < Id(high));
    assert_eq!(position().id().cmp(&position().id()), std::cmp::Ordering::Equal);
}
