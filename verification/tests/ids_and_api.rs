use sage::api::{mojos, txch, xch, Unit};
use sage::assets::{asset_kind_code, asset_kind_from_code, AssetKind};
use sage::errors::DatabaseError;
use sage::ids::Hash32;
use sage::options::Timeouts;

fn hash(byte: u8) -> Hash32 {
    Hash32::from_bytes(vec![byte; 32]).unwrap()
}

#[test]
fn hash32_accepts_exactly_32_bytes() {
    assert!(Hash32::from_bytes(vec![1u8; 32]).is_some());
    assert!(Hash32::from_bytes(vec![1u8; 31]).is_none());
    assert!(Hash32::from_bytes(vec![1u8; 33]).is_none());
    assert!(Hash32::from_bytes(Vec::new()).is_none());
}

#[test]
fn hash32_equality_is_by_content() {
    assert!(hash(7) == hash(7));
    assert!(hash(7) != hash(8));
    assert!(hash(0).is_zero());
    assert!(!hash(1).is_zero());
    assert!(Hash32::zeros() == hash(0));
}

#[test]
fn unit_cat_has_three_decimal_places() {
    let unit = Unit::cat("SPAM".to_string());
    assert_eq!(unit.ticker, "SPAM");
    assert_eq!(unit.precision, 3);
}

#[test]
fn native_units_have_expected_precision() {
    assert_eq!(xch().ticker, "XCH");
    assert_eq!(xch().precision, 12);
    assert_eq!(txch().ticker, "TXCH");
    assert_eq!(txch().precision, 12);
    assert_eq!(mojos().ticker, "Mojos");
    assert_eq!(mojos().precision, 0);
}

#[test]
fn timeouts_default_values() {
    let t = Timeouts::default();
    assert_eq!(t.sync_delay, 1000);
    assert_eq!(t.cat_delay, 3_600_000);
    assert_eq!(t.nft_uri_delay, 500);
    assert_eq!(t.puzzle_delay, 1000);
    assert_eq!(t.transaction_delay, 1000);
    assert_eq!(t.offer_delay, 5000);
    assert_eq!(t.blocktime_delay, 1000);
    assert_eq!(t.connection, 3000);
    assert_eq!(t.initial_peak, 2000);
    assert_eq!(t.dns, 3000);
    assert_eq!(t.introducer, 10_000);
}

#[test]
fn asset_kind_codes_round_trip() {
    assert_eq!(asset_kind_from_code(0).unwrap(), AssetKind::Token);
    assert_eq!(asset_kind_from_code(1).unwrap(), AssetKind::Nft);
    assert_eq!(asset_kind_from_code(2).unwrap(), AssetKind::Did);
    assert_eq!(asset_kind_code(AssetKind::Token), 0);
    assert_eq!(asset_kind_code(AssetKind::Nft), 1);
    assert_eq!(asset_kind_code(AssetKind::Did), 2);
    assert_eq!(
        asset_kind_from_code(3).unwrap_err(),
        DatabaseError::InvalidEnumVariant
    );
    assert_eq!(
        asset_kind_from_code(-1).unwrap_err(),
        DatabaseError::InvalidEnumVariant
    );
}

#[test]
fn request_defaults_helper_is_true() {
    assert!(sage::api::yes());
}
