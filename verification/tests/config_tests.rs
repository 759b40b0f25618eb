use flash_mint::asset::is_valid_asset_id;
use flash_mint::engine::FlashMintProvider;
use flash_mint::errors::{FlashMintError, PermissionCause, ValidationCause};
use flash_mint::settings::LoanServiceSettings;

fn admin() -> Vec<u8> {
    b"admin".to_vec()
}

fn token() -> Vec<u8> {
    b"ABC-abcdef".to_vec()
}

fn other_token() -> Vec<u8> {
    b"XYZ-123456".to_vec()
}

fn destination() -> Vec<u8> {
    b"fee-collector".to_vec()
}

fn provider() -> FlashMintProvider {
    FlashMintProvider::new(admin())
}

fn configure(
    p: &mut FlashMintProvider,
    token_id: Vec<u8>,
    min: u64,
    max: u64,
    fee: u64,
) -> Result<(), FlashMintError> {
    p.configure_per_token_loan_service_settings(
        &admin(),
        token_id,
        min,
        max,
        fee,
        500_000,
        destination(),
        b"depositFees".to_vec(),
    )
}

#[test]
fn configure_then_get_returns_exact_terms() {
    let mut p = provider();
    assert!(configure(&mut p, token(), 100, 1000, 50).is_ok());
    let stored = p.get_loan_service_settings(&token()).expect("terms were stored");
    let expected = LoanServiceSettings::new(
        100,
        1000,
        50,
        500_000,
        destination(),
        b"depositFees".to_vec(),
    );
    assert!(stored == expected);
    assert_eq!(stored.minimum_loan_amount(), 100);
    assert_eq!(stored.maximum_loan_amount(), 1000);
    assert_eq!(stored.fee_percent(), 50);
    assert_eq!(stored.fee_transfer_gas_limit(), 500_000);
    assert_eq!(stored.fee_destination_addr(), &destination());
    assert_eq!(stored.fee_destination_func(), &b"depositFees".to_vec());
}

#[test]
fn configure_replaces_existing_terms() {
    let mut p = provider();
    assert!(configure(&mut p, token(), 100, 1000, 50).is_ok());
    assert!(configure(&mut p, token(), 200, 2000, 10).is_ok());
    let stored = p.get_loan_service_settings(&token()).expect("terms were stored");
    assert_eq!(stored.minimum_loan_amount(), 200);
    assert_eq!(stored.maximum_loan_amount(), 2000);
    assert_eq!(stored.fee_percent(), 10);
}

#[test]
fn configure_rejects_non_administrator() {
    let mut p = provider();
    let r = p.configure_per_token_loan_service_settings(
        &b"intruder".to_vec(),
        token(),
        100,
        1000,
        50,
        500_000,
        destination(),
        Vec::new(),
    );
    assert_eq!(
        r,
        Err(FlashMintError::PermissionError(PermissionCause::NotAdministrator))
    );
    assert!(p.get_loan_service_settings(&token()).is_none());
}

#[test]
fn configure_rejects_malformed_asset_identifier() {
    let mut p = provider();
    for bad in [
        b"abc-abcdef".to_vec(),   // lowercase ticker
        b"AB-abcdef".to_vec(),    // ticker too short
        b"ABC-ABCDEF".to_vec(),   // uppercase suffix
        b"ABC-abcde".to_vec(),    // suffix too short
        b"ABCDEFGHIJK-abcdef".to_vec(), // ticker too long
        b"ABCabcdef".to_vec(),    // no dash
        Vec::new(),
    ] {
        let r = configure(&mut p, bad, 100, 1000, 50);
        assert_eq!(
            r,
            Err(FlashMintError::ValidationError(ValidationCause::InvalidAssetIdentifier))
        );
    }
}

#[test]
fn asset_identifier_grammar() {
    assert!(is_valid_asset_id(&b"ABC-abcdef".to_vec()));
    assert!(is_valid_asset_id(&b"ABCDEFGHIJ-123456".to_vec()));
    assert!(is_valid_asset_id(&b"A2C-0z9a8b".to_vec()));
    assert!(!is_valid_asset_id(&b"ABC-abcde".to_vec()));
    assert!(!is_valid_asset_id(&b"ABC_abcdef".to_vec()));
    assert!(!is_valid_asset_id(&b"aBC-abcdef".to_vec()));
}

#[test]
fn configure_rejects_fee_at_or_above_base() {
    let mut p = provider();
    let r = configure(&mut p, token(), 100, 1000, 1000);
    assert_eq!(
        r,
        Err(FlashMintError::ValidationError(ValidationCause::FeePercentTooHigh))
    );
}

#[test]
fn configure_rejects_zero_maximum() {
    let mut p = provider();
    let r = configure(&mut p, token(), 0, 0, 50);
    assert_eq!(
        r,
        Err(FlashMintError::ValidationError(ValidationCause::ZeroMaximumAmount))
    );
}

#[test]
fn configure_rejects_minimum_above_maximum() {
    let mut p = provider();
    let r = configure(&mut p, token(), 1001, 1000, 50);
    assert_eq!(
        r,
        Err(FlashMintError::ValidationError(ValidationCause::MinimumAboveMaximum))
    );
}

#[test]
fn rejected_configuration_leaves_prior_terms() {
    let mut p = provider();
    assert!(configure(&mut p, token(), 100, 1000, 50).is_ok());
    assert!(configure(&mut p, token(), 1, 0, 50).is_err());
    assert!(configure(&mut p, token(), 5, 4, 50).is_err());
    assert!(configure(&mut p, token(), 1, 10, 2000).is_err());
    let stored = p.get_loan_service_settings(&token()).expect("terms were stored");
    assert_eq!(stored.minimum_loan_amount(), 100);
    assert_eq!(stored.maximum_loan_amount(), 1000);
    assert_eq!(stored.fee_percent(), 50);
}

#[test]
fn remove_then_get_returns_none() {
    let mut p = provider();
    assert!(configure(&mut p, token(), 100, 1000, 50).is_ok());
    assert!(p.remove_token_loan_service(&admin(), &token()).is_ok());
    assert!(p.get_loan_service_settings(&token()).is_none());
}

#[test]
fn remove_is_idempotent() {
    let mut p = provider();
    assert!(p.remove_token_loan_service(&admin(), &token()).is_ok());
    assert!(configure(&mut p, token(), 100, 1000, 50).is_ok());
    assert!(p.remove_token_loan_service(&admin(), &token()).is_ok());
    assert!(p.remove_token_loan_service(&admin(), &token()).is_ok());
    assert!(p.get_loan_service_settings(&token()).is_none());
}

#[test]
fn remove_rejects_non_administrator() {
    let mut p = provider();
    assert!(configure(&mut p, token(), 100, 1000, 50).is_ok());
    let r = p.remove_token_loan_service(&b"intruder".to_vec(), &token());
    assert_eq!(
        r,
        Err(FlashMintError::PermissionError(PermissionCause::NotAdministrator))
    );
    assert!(p.get_loan_service_settings(&token()).is_some());
}

#[test]
fn settings_list_holds_every_configured_asset() {
    let mut p = provider();
    assert!(configure(&mut p, token(), 100, 1000, 50).is_ok());
    assert!(configure(&mut p, other_token(), 5, 10, 0).is_ok());
    let list = p.get_token_loan_service_settings_list();
    assert_eq!(list.len(), 2);
    let mut seen_a = false;
    let mut seen_b = false;
    for (key, value) in &list {
        if *key == token() {
            assert_eq!(value.minimum_loan_amount(), 100);
            seen_a = true;
        }
        if *key == other_token() {
            assert_eq!(value.maximum_loan_amount(), 10);
            seen_b = true;
        }
    }
    assert!(seen_a && seen_b);
}
